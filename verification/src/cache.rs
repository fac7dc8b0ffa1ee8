//! The read cache: the last full listing of the store that was taken.

use vstd::prelude::*;
use crate::card::{card_views, copy_cards, Card, CardView};
use crate::store::StoreError;

verus! {

/// The cards that reads are served from. It is never patched: each write
/// swaps the whole listing for another.
pub struct Cache {
    cards: Vec<Card>,
}

impl View for Cache {
    type V = Seq<CardView>;

    closed spec fn view(&self) -> Seq<CardView> {
        card_views(self.cards@)
    }
}

/// What the cache holds after a listing came back from the store: the
/// listing where there is one, what it held before where the store failed.
pub open spec fn rebuilt(before: Seq<CardView>, listing: Result<Seq<CardView>, StoreError>) -> Seq<
    CardView,
> {
    match listing {
        Ok(cards) => cards,
        Err(_) => before,
    }
}

/// The model of what a listing of the store gave.
pub open spec fn listing_view(listing: Result<Vec<Card>, StoreError>) -> Result<
    Seq<CardView>,
    StoreError,
> {
    match listing {
        Ok(cards) => Ok(card_views(cards@)),
        Err(error) => Err(error),
    }
}

impl Cache {
    /// A cache that holds no card, as it is when the process starts.
    pub fn new() -> (cache: Cache)
        ensures
            cache@ == Seq::<CardView>::empty(),
    {
        let cache = Cache { cards: Vec::new() };
        assert(cache@ =~= Seq::<CardView>::empty());
        cache
    }

    /// A copy of the cached cards, in their order.
    pub fn snapshot(&self) -> (cards: Vec<Card>)
        ensures
            card_views(cards@) == self@,
    {
        copy_cards(&self.cards)
    }

    /// Swaps the cached cards for `new_cards`, all at once.
    pub fn replace(&mut self, new_cards: Vec<Card>)
        ensures
            final(self)@ == card_views(new_cards@),
    {
        self.cards = new_cards;
    }

    /// The one way in which the store's state reaches the cache: takes what
    /// a listing of the store gave, and swaps the cache for it. Where the
    /// listing failed the cache stays as it was, and the failure is handed
    /// back.
    pub fn rebuild(&mut self, listing: Result<Vec<Card>, StoreError>) -> (outcome: Result<
        (),
        StoreError,
    >)
        ensures
            final(self)@ == rebuilt(old(self)@, listing_view(listing)),
            outcome == match listing {
                Ok(_) => Ok::<(), StoreError>(()),
                Err(error) => Err::<(), StoreError>(error),
            },
    {
        match listing {
            Ok(cards) => {
                self.replace(cards);
                Ok(())
            },
            Err(error) => Err(error),
        }
    }
}

} // verus!
