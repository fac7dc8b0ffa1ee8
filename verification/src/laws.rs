//! What holds of the service as a whole, proved from the contracts of its
//! parts and from what a store promises of a committed write.
//!
//! Each law speaks of one request or one background task. The store is
//! taken by its model: a sequence of cards that a listing hands out as it
//! stands, and that a committed write changes as `insert_commits` and
//! `delete_commits` say.

use vstd::prelude::*;
use crate::cache::rebuilt;
use crate::card::{card_views, holds_id, placeholder_view, unique_ids, Card, CardView, NewCardView};
use crate::handlers::{
    add_cache,
    add_reply,
    created,
    delete_cache,
    delete_reply,
    delete_went_through,
    deleted,
    lists,
    Status,
};
use crate::seeder::{report_of_listing, seeding_due, SeedReport};
use crate::store::{delete_commits, insert_commits, StoreError};

verus! {

/// Whether `listing` is what a store that holds `store` answers to a
/// listing: a failure, or its cards as they stand.
pub open spec fn lists_store(store: Seq<CardView>, listing: Result<Seq<CardView>, StoreError>) -> bool {
    listing matches Ok(cards) ==> cards == store
}

/// Two lists with no write to the cache between them answer alike: the
/// same status and the same cards in the same order.
pub proof fn law_list_repeats(
    cache: Seq<CardView>,
    first: (Status, Vec<Card>),
    second: (Status, Vec<Card>),
)
    requires
        lists(cache, first),
        lists(cache, second),
    ensures
        first.0 == second.0,
        card_views(first.1@) == card_views(second.1@),
{
}

/// An add that answers "created" has made its card visible: the answer
/// carries the card's identifier, and the cache, which the next list is
/// served from, holds a card with that identifier and the fields that were
/// sent.
pub proof fn law_added_card_is_listed(
    payload: NewCardView,
    id: Seq<char>,
    cache: Seq<CardView>,
    store_before: Seq<CardView>,
    store_after: Seq<CardView>,
    inserted: Result<(), StoreError>,
    listing: Result<Seq<CardView>, StoreError>,
)
    requires
        inserted is Ok ==> insert_commits(store_before, store_after, payload.with_id(id)),
        lists_store(store_after, listing),
        add_reply(id, inserted, listing).status == Status::Created,
    ensures
        add_reply(id, inserted, listing) == created(id),
        add_cache(cache, inserted, listing) == store_after,
        add_cache(cache, inserted, listing).contains(payload.with_id(id)),
{
    broadcast use vstd::seq_lib::to_multiset_contains;

    let card = payload.with_id(id);
    assert(store_after.to_multiset().count(card) > 0);
}

/// A delete that answers with success has made its card invisible: where
/// no two cards of the store share an identifier, the cache, which the next
/// list is served from, holds no card with the deleted identifier.
pub proof fn law_deleted_card_is_gone(
    id: Seq<char>,
    cache: Seq<CardView>,
    store_before: Seq<CardView>,
    store_after: Seq<CardView>,
    outcome: Result<(), StoreError>,
    listing: Result<Seq<CardView>, StoreError>,
)
    requires
        unique_ids(store_before),
        delete_went_through(outcome) ==> delete_commits(store_before, store_after, id),
        lists_store(store_after, listing),
        delete_reply(outcome, listing).status == Status::Success,
    ensures
        delete_reply(outcome, listing) == deleted(),
        delete_cache(cache, outcome, listing) == store_after,
        !holds_id(delete_cache(cache, outcome, listing), id),
{
    lemma_delete_removes_id(store_before, store_after, id);
}

/// A committed delete leaves no card with the deleted identifier, where no
/// two cards shared an identifier before it.
pub proof fn lemma_delete_removes_id(before: Seq<CardView>, after: Seq<CardView>, id: Seq<char>)
    requires
        unique_ids(before),
        delete_commits(before, after, id),
    ensures
        !holds_id(after, id),
{
    broadcast use vstd::seq_lib::to_multiset_contains;

    if holds_id(before, id) {
        let i = choose|i: int|
            0 <= i < before.len() && (#[trigger] before[i]).id == id && after.to_multiset()
                == before.to_multiset().remove(before[i]);
        let gone = before[i];
        assert(before.no_duplicates());
        before.lemma_multiset_has_no_duplicates();
        assert(before.contains(gone));
        assert(before.to_multiset().count(gone) == 1);
        assert(after.to_multiset().count(gone) == 0);
        if holds_id(after, id) {
            let j = choose|j: int| 0 <= j < after.len() && (#[trigger] after[j]).id == id;
            let kept = after[j];
            assert(after.contains(kept));
            assert(after.to_multiset().count(kept) > 0);
            assert(kept != gone);
            assert(before.to_multiset().count(kept) > 0);
            assert(before.contains(kept));
            let k = choose|k: int| 0 <= k < before.len() && before[k] == kept;
            assert(k != i);
            assert(before[k].id == before[i].id);
            if k < i {
                assert(before[k].id != before[i].id);
            } else {
                assert(before[i].id != before[k].id);
            }
        }
    }
}

/// A delete of an identifier that no card carries changes nothing: where
/// the cache was level with the store, it holds after the delete what it
/// held before, and where the store answered both calls the delete reports
/// success.
pub proof fn law_delete_of_unknown_id_changes_nothing(
    id: Seq<char>,
    cache: Seq<CardView>,
    store_before: Seq<CardView>,
    store_after: Seq<CardView>,
    outcome: Result<(), StoreError>,
    listing: Result<Seq<CardView>, StoreError>,
)
    requires
        cache == store_before,
        !holds_id(store_before, id),
        delete_commits(store_before, store_after, id),
        lists_store(store_after, listing),
    ensures
        store_after == store_before,
        delete_cache(cache, outcome, listing) == cache,
        delete_went_through(outcome) && listing is Ok ==> delete_reply(outcome, listing)
            == deleted(),
{
}

/// Seeding happens once: an empty store is seeded and then holds the
/// placeholder card and nothing else, and a store that holds a card, as it
/// does from then on, is not seeded again.
pub proof fn law_seeding_happens_once(id: Seq<char>, store_after: Seq<CardView>)
    requires
        insert_commits(Seq::<CardView>::empty(), store_after, placeholder_view(id)),
    ensures
        seeding_due(Ok(Seq::<CardView>::empty())),
        store_after == seq![placeholder_view(id)],
        !seeding_due(Ok(store_after)),
        report_of_listing(Ok(store_after)) == SeedReport::Populated(1),
{
    broadcast use vstd::seq_lib::to_multiset_contains, vstd::seq_lib::to_multiset_len;

    let card = placeholder_view(id);
    assert(Seq::<CardView>::empty().to_multiset().len() == 0);
    assert(store_after.to_multiset().len() == 1);
    assert(store_after.len() == 1);
    assert(store_after.contains(store_after[0]));
    assert(store_after.to_multiset().count(store_after[0]) > 0);
    assert(store_after[0] == card);
    assert(store_after =~= seq![card]);
}

/// A store that holds a card is never seeded, whatever the card.
pub proof fn law_populated_store_is_left_alone(store: Seq<CardView>)
    requires
        store.len() > 0,
    ensures
        !seeding_due(Ok(store)),
{
}

/// One cycle of the refresher with the store up brings the cache level
/// with the store, whatever the cache held and however the store came to
/// hold what it holds; a cycle on which the store fails leaves the cache as
/// it was.
pub proof fn law_refresh_catches_up(
    cache: Seq<CardView>,
    store: Seq<CardView>,
    listing: Result<Seq<CardView>, StoreError>,
)
    requires
        lists_store(store, listing),
    ensures
        listing is Ok ==> rebuilt(cache, listing) == store,
        listing is Err ==> rebuilt(cache, listing) == cache,
{
}

} // verus!
