//! The document store as the service sees it: how its failures are named,
//! and what a committed write does to its contents.
//!
//! The store itself is reached over the network by the program around this
//! library. Here its contents are modelled as a sequence of cards in the
//! store's own order, which a listing hands out as it stands.

use vstd::prelude::*;
use crate::card::{holds_id, CardView};

verus! {

/// Why a store operation did not go through.
#[derive(Clone, Copy, Debug, PartialEq, Eq, Structural)]
pub enum StoreError {
    /// The connection could not be made, or the query or write failed or
    /// ran out of time.
    StoreUnavailable,
    /// A delete matched no card. No caller of the service ever sees this.
    NotFound,
}

/// Turns the number of documents that a delete removed into its outcome:
/// zero means that no card matched.
pub fn deletion_outcome(deleted: u64) -> (outcome: Result<(), StoreError>)
    ensures
        outcome == (if deleted == 0 {
            Err::<(), StoreError>(StoreError::NotFound)
        } else {
            Ok::<(), StoreError>(())
        }),
{
    if deleted == 0 {
        Err(StoreError::NotFound)
    } else {
        Ok(())
    }
}

/// Whether `after` is what the store holds once the insert of `card` into
/// `before` is committed: the cards of `before` and `card`, in whatever
/// order the store keeps them.
pub open spec fn insert_commits(before: Seq<CardView>, after: Seq<CardView>, card: CardView) -> bool {
    after.to_multiset() == before.to_multiset().insert(card)
}

/// Whether `after` is what the store holds once the delete of `id` from
/// `before` is committed: nothing changed where no card carries `id`, and
/// else one card that carries it has left.
pub open spec fn delete_commits(before: Seq<CardView>, after: Seq<CardView>, id: Seq<char>) -> bool {
    if holds_id(before, id) {
        exists|i: int|
            0 <= i < before.len() && (#[trigger] before[i]).id == id
                && after.to_multiset() == before.to_multiset().remove(before[i])
    } else {
        after == before
    }
}

} // verus!
