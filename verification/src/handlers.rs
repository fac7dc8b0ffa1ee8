//! The three requests that the service answers: list, add and delete.
//!
//! A list is answered from the cache alone. An add or a delete first writes
//! to the store, then takes a full listing and swaps the cache for it, and
//! only then answers. The store is reached by the caller: each step here
//! takes what the store answered and says what comes next, so that a write
//! always comes before the listing, and the listing before the answer.

use vstd::prelude::*;
use crate::cache::{listing_view, rebuilt, Cache};
use crate::card::{card_views, Card, CardView, NewCard};
use crate::ids::{fresh_id, is_random_id};
use crate::store::StoreError;

verus! {

/// How a request ended.
#[derive(Clone, Copy, Debug, PartialEq, Eq, Structural)]
pub enum Status {
    /// The request was carried out.
    Success,
    /// A card was created.
    Created,
    /// The store failed.
    ServerError,
}

impl Status {
    /// The status code that stands for this status on the wire.
    pub open spec fn spec_code(self) -> u16 {
        match self {
            Status::Success => 200,
            Status::Created => 201,
            Status::ServerError => 500,
        }
    }

    /// The status code that stands for this status on the wire.
    pub fn code(self) -> (code: u16)
        ensures
            code == self.spec_code(),
    {
        match self {
            Status::Success => 200,
            Status::Created => 201,
            Status::ServerError => 500,
        }
    }
}

/// An answer to an add or a delete, as plain text.
pub struct ReplyView {
    pub status: Status,
    pub body: Seq<char>,
}

/// An answer to an add or a delete.
#[derive(Debug, PartialEq, Eq)]
pub struct Reply {
    pub status: Status,
    pub body: String,
}

impl View for Reply {
    type V = ReplyView;

    open spec fn view(&self) -> ReplyView {
        ReplyView { status: self.status, body: self.body@ }
    }
}

/// The answer to an add that went through: the new card's identifier.
pub open spec fn created(id: Seq<char>) -> ReplyView {
    ReplyView { status: Status::Created, body: id }
}

/// The answer to a delete that went through.
pub open spec fn deleted() -> ReplyView {
    ReplyView { status: Status::Success, body: Seq::<char>::empty() }
}

/// The answer to a request on which the store failed.
pub open spec fn failed(message: Seq<char>) -> ReplyView {
    ReplyView { status: Status::ServerError, body: message }
}

/// The answer to an add whose insert failed.
pub open spec fn insert_failure() -> ReplyView {
    failed("Failed to insert document"@)
}

/// The answer to a delete that the store did not carry out.
pub open spec fn delete_failure() -> ReplyView {
    failed("Failed to delete document"@)
}

/// The answer to an add or a delete after which the store could not be
/// listed.
pub open spec fn listing_failure() -> ReplyView {
    failed("Failed to find documents"@)
}

/// The answer to an add of the card `id`, from what the store said of the
/// insert and, where that went through, of the listing after it.
pub open spec fn add_reply(
    id: Seq<char>,
    inserted: Result<(), StoreError>,
    listing: Result<Seq<CardView>, StoreError>,
) -> ReplyView {
    if inserted is Err {
        insert_failure()
    } else if listing is Err {
        listing_failure()
    } else {
        created(id)
    }
}

/// What the cache holds after an add: the listing, where both the insert
/// and the listing went through, and what it held before where either
/// failed.
pub open spec fn add_cache(
    before: Seq<CardView>,
    inserted: Result<(), StoreError>,
    listing: Result<Seq<CardView>, StoreError>,
) -> Seq<CardView> {
    if inserted is Err {
        before
    } else {
        rebuilt(before, listing)
    }
}

/// Whether a delete with this outcome left the store in order: it removed
/// a card, or found none to remove.
pub open spec fn delete_went_through(outcome: Result<(), StoreError>) -> bool {
    outcome != Err::<(), StoreError>(StoreError::StoreUnavailable)
}

/// The answer to a delete, from what the store said of the delete and,
/// where that went through, of the listing after it.
pub open spec fn delete_reply(
    outcome: Result<(), StoreError>,
    listing: Result<Seq<CardView>, StoreError>,
) -> ReplyView {
    if !delete_went_through(outcome) {
        delete_failure()
    } else if listing is Err {
        listing_failure()
    } else {
        deleted()
    }
}

/// What the cache holds after a delete: the listing, where both the delete
/// and the listing went through, and what it held before where either
/// failed.
pub open spec fn delete_cache(
    before: Seq<CardView>,
    outcome: Result<(), StoreError>,
    listing: Result<Seq<CardView>, StoreError>,
) -> Seq<CardView> {
    if !delete_went_through(outcome) {
        before
    } else {
        rebuilt(before, listing)
    }
}

/// Whether `reply` answers a list from a cache that holds `cache`: it
/// reports success and carries the cached cards in their order.
pub open spec fn lists(cache: Seq<CardView>, reply: (Status, Vec<Card>)) -> bool {
    reply.0 == Status::Success && card_views(reply.1@) == cache
}

/// Answers a list: the cached cards, whatever the store holds by now.
pub fn cards(cache: &Cache) -> (reply: (Status, Vec<Card>))
    ensures
        lists(cache@, reply),
{
    (Status::Success, cache.snapshot())
}

/// An add whose card is on its way to the store. Only [`begin_add`] and
/// [`add_card`] make one.
#[derive(Debug, PartialEq, Eq)]
pub struct AddInserting {
    id: String,
}

/// An add whose card is stored, and which waits for the listing. Only
/// [`AddInserting::inserted`] makes one.
#[derive(Debug, PartialEq, Eq)]
pub struct AddReloading {
    id: String,
}

impl AddInserting {
    /// The identifier of the card that is being added.
    pub closed spec fn card_id(&self) -> Seq<char> {
        self.id@
    }

    /// The identifier of the card that is being added.
    pub fn id(&self) -> (text: &str)
        ensures
            text@ == self.card_id(),
    {
        self.id.as_str()
    }
}

impl AddReloading {
    /// The identifier of the card that was added.
    pub closed spec fn card_id(&self) -> Seq<char> {
        self.id@
    }

    /// The identifier of the card that was added.
    pub fn id(&self) -> (text: &str)
        ensures
            text@ == self.card_id(),
    {
        self.id.as_str()
    }
}

/// What an add does once the store has answered the insert.
#[derive(Debug, PartialEq, Eq)]
pub enum AddNext {
    /// The card is stored: list the store, then call
    /// [`AddReloading::reloaded`].
    Reload(AddReloading),
    /// The insert failed: answer with this.
    Respond(Reply),
}

/// Starts an add of `payload` under the identifier `id`: hands out the
/// card that the store is to insert.
pub fn begin_add(payload: NewCard, id: String) -> (started: (AddInserting, Card))
    ensures
        started.0.card_id() == id@,
        started.1@ == payload@.with_id(id@),
{
    let card = payload.with_id(id.clone());
    (AddInserting { id }, card)
}

/// Starts an add of `payload` under an identifier drawn for it: hands out
/// the card that the store is to insert.
pub fn add_card(payload: NewCard) -> (started: (AddInserting, Card))
    ensures
        is_random_id(started.0.card_id()),
        started.1@ == payload@.with_id(started.0.card_id()),
{
    begin_add(payload, fresh_id())
}

impl AddInserting {
    /// Takes the store's answer to the insert. A stored card leads on to
    /// the listing; a failure ends the add, with the cache untouched.
    pub fn inserted(self, outcome: Result<(), StoreError>) -> (next: AddNext)
        ensures
            match next {
                AddNext::Reload(reloading) => outcome is Ok && reloading.card_id()
                    == self.card_id(),
                AddNext::Respond(reply) => outcome is Err && reply@ == insert_failure(),
            },
    {
        match outcome {
            Ok(_) => AddNext::Reload(AddReloading { id: self.id }),
            Err(_) => AddNext::Respond(
                Reply { status: Status::ServerError, body: "Failed to insert document".to_string() },
            ),
        }
    }
}

impl AddReloading {
    /// Takes the listing that followed the insert, swaps the cache for it
    /// and answers with the new card's identifier. Where the listing failed
    /// the cache stays as it was and the answer is a failure.
    pub fn reloaded(self, cache: &mut Cache, listing: Result<Vec<Card>, StoreError>) -> (reply:
        Reply)
        ensures
            final(cache)@ == add_cache(old(cache)@, Ok(()), listing_view(listing)),
            reply@ == add_reply(self.card_id(), Ok(()), listing_view(listing)),
    {
        match cache.rebuild(listing) {
            Ok(_) => Reply { status: Status::Created, body: self.id },
            Err(_) => Reply {
                status: Status::ServerError,
                body: "Failed to find documents".to_string(),
            },
        }
    }
}

/// A delete whose request is on its way to the store. Only
/// [`delete_card`] makes one.
#[derive(Debug, PartialEq, Eq)]
pub struct DeleteRemoving {
    id: String,
}

/// A delete that the store has carried out, and which waits for the
/// listing. Only [`DeleteRemoving::removed`] makes one.
#[derive(Debug, PartialEq, Eq)]
pub struct DeleteReloading {
    id: String,
}

impl DeleteRemoving {
    /// The identifier that is being deleted.
    pub closed spec fn card_id(&self) -> Seq<char> {
        self.id@
    }

    /// The identifier that is being deleted.
    pub fn id(&self) -> (text: &str)
        ensures
            text@ == self.card_id(),
    {
        self.id.as_str()
    }
}

impl DeleteReloading {
    /// The identifier that was deleted.
    pub closed spec fn card_id(&self) -> Seq<char> {
        self.id@
    }

    /// The identifier that was deleted.
    pub fn id(&self) -> (text: &str)
        ensures
            text@ == self.card_id(),
    {
        self.id.as_str()
    }
}

/// What a delete does once the store has answered it.
#[derive(Debug, PartialEq, Eq)]
pub enum DeleteNext {
    /// The store is in order: list it, then call
    /// [`DeleteReloading::reloaded`].
    Reload(DeleteReloading),
    /// The delete failed: answer with this.
    Respond(Reply),
}

/// Starts a delete of the card `id`: hands out the identifier whose card
/// the store is to remove.
pub fn delete_card(id: String) -> (started: (DeleteRemoving, String))
    ensures
        started.0.card_id() == id@,
        started.1@ == id@,
{
    let target = id.clone();
    (DeleteRemoving { id }, target)
}

impl DeleteRemoving {
    /// Takes the store's answer to the delete. A card removed, or none
    /// found, leads on to the listing; an unavailable store ends the delete,
    /// with the cache untouched.
    pub fn removed(self, outcome: Result<(), StoreError>) -> (next: DeleteNext)
        ensures
            match next {
                DeleteNext::Reload(reloading) => delete_went_through(outcome)
                    && reloading.card_id() == self.card_id(),
                DeleteNext::Respond(reply) => !delete_went_through(outcome) && reply@
                    == delete_failure(),
            },
    {
        match outcome {
            Err(StoreError::StoreUnavailable) => DeleteNext::Respond(
                Reply { status: Status::ServerError, body: "Failed to delete document".to_string() },
            ),
            _ => DeleteNext::Reload(DeleteReloading { id: self.id }),
        }
    }
}

impl DeleteReloading {
    /// Takes the listing that followed the delete, swaps the cache for it
    /// and answers. Where the listing failed the cache stays as it was and
    /// the answer is a failure.
    pub fn reloaded(self, cache: &mut Cache, listing: Result<Vec<Card>, StoreError>) -> (reply:
        Reply)
        ensures
            final(cache)@ == delete_cache(old(cache)@, Ok(()), listing_view(listing)),
            reply@ == delete_reply(Ok(()), listing_view(listing)),
    {
        match cache.rebuild(listing) {
            Ok(_) => Reply { status: Status::Success, body: String::new() },
            Err(_) => Reply {
                status: Status::ServerError,
                body: "Failed to find documents".to_string(),
            },
        }
    }
}

} // verus!
