//! The seeder: the task that, once at startup, gives an empty store its
//! first card.
//!
//! It lists the store, and inserts the placeholder card only where the
//! listing came back empty. A store that holds a card already is left as it
//! is, and a store that fails is given up on.

use vstd::prelude::*;
use crate::cache::listing_view;
use crate::card::{placeholder, placeholder_view, Card, CardView};
use crate::ids::{fresh_id, is_random_id};
use crate::store::StoreError;

verus! {

/// Whether a store that listed itself so is to be seeded: the listing went
/// through and holds no card.
pub open spec fn seeding_due(listing: Result<Seq<CardView>, StoreError>) -> bool {
    listing matches Ok(cards) && cards.len() == 0
}

/// How the seeding ended.
#[derive(Clone, Copy, Debug, PartialEq, Eq, Structural)]
pub enum SeedReport {
    /// The placeholder card was inserted.
    Seeded,
    /// The store held this many cards already: nothing was inserted.
    Populated(usize),
    /// The store could not be listed: nothing was inserted.
    ListingFailed(StoreError),
    /// The store was empty, and the insert of the placeholder card failed.
    InsertFailed(StoreError),
}

/// What the seeding comes to once the store has been listed.
pub open spec fn report_of_listing(listing: Result<Seq<CardView>, StoreError>) -> SeedReport {
    match listing {
        Ok(cards) => SeedReport::Populated(cards.len() as usize),
        Err(error) => SeedReport::ListingFailed(error),
    }
}

/// What the seeding comes to once the store has answered the insert.
pub open spec fn report_of_insert(outcome: Result<(), StoreError>) -> SeedReport {
    match outcome {
        Ok(_) => SeedReport::Seeded,
        Err(error) => SeedReport::InsertFailed(error),
    }
}

/// The seeder while the store is being listed.
#[derive(Debug, PartialEq, Eq)]
pub struct Seeder {
    sealed: (),
}

/// The seeder that found the store empty. Only [`Seeder::checked`] makes
/// one, and only of an empty listing.
#[derive(Debug, PartialEq, Eq)]
pub struct SeederDue {
    sealed: (),
}

/// The seeder while the placeholder card is on its way to the store. Only
/// a [`SeederDue`] makes one.
#[derive(Debug, PartialEq, Eq)]
pub struct SeederInserting {
    id: String,
}

/// What the seeder does once the store has been listed.
#[derive(Debug, PartialEq, Eq)]
pub enum SeedNext {
    /// The store is empty: make the placeholder card with
    /// [`SeederDue::insert`].
    Due(SeederDue),
    /// Nothing is to be inserted.
    Done(SeedReport),
}

impl Seeder {
    /// Starts the seeding: the store is to be listed next.
    pub fn new() -> Seeder {
        Seeder { sealed: () }
    }

    /// Takes the listing and decides: an empty store is to be seeded, any
    /// other outcome ends the seeding.
    pub fn checked(self, listing: Result<Vec<Card>, StoreError>) -> (next: SeedNext)
        ensures
            match next {
                SeedNext::Due(_) => seeding_due(listing_view(listing)),
                SeedNext::Done(report) => !seeding_due(listing_view(listing)) && report
                    == report_of_listing(listing_view(listing)),
            },
    {
        match listing {
            Ok(cards) => {
                if cards.len() == 0 {
                    SeedNext::Due(SeederDue { sealed: () })
                } else {
                    SeedNext::Done(SeedReport::Populated(cards.len()))
                }
            },
            Err(error) => SeedNext::Done(SeedReport::ListingFailed(error)),
        }
    }
}

impl SeederDue {
    /// Hands out the placeholder card under the identifier `id`, which the
    /// store is to insert.
    pub fn insert_with(self, id: String) -> (started: (SeederInserting, Card))
        ensures
            started.0.card_id() == id@,
            started.1@ == placeholder_view(id@),
    {
        let card = placeholder(id.clone());
        (SeederInserting { id }, card)
    }

    /// Hands out the placeholder card under an identifier drawn for it,
    /// which the store is to insert.
    pub fn insert(self) -> (started: (SeederInserting, Card))
        ensures
            is_random_id(started.0.card_id()),
            started.1@ == placeholder_view(started.0.card_id()),
    {
        self.insert_with(fresh_id())
    }
}

impl SeederInserting {
    /// The identifier of the placeholder card.
    pub closed spec fn card_id(&self) -> Seq<char> {
        self.id@
    }

    /// The identifier of the placeholder card.
    pub fn id(&self) -> (text: &str)
        ensures
            text@ == self.card_id(),
    {
        self.id.as_str()
    }

    /// Takes the store's answer to the insert, which ends the seeding
    /// either way.
    pub fn inserted(self, outcome: Result<(), StoreError>) -> (report: SeedReport)
        ensures
            report == report_of_insert(outcome),
    {
        match outcome {
            Ok(_) => SeedReport::Seeded,
            Err(error) => SeedReport::InsertFailed(error),
        }
    }
}

} // verus!
