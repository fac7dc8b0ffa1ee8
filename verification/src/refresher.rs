//! The refresher: the background task that, cycle after cycle, lists the
//! store and swaps the cache for what it found.
//!
//! It is idle between cycles and loading within one. A cycle that fails
//! leaves the cache as it was, and the next one comes after the same pause:
//! no failure of the store ends the task.

use vstd::prelude::*;
use crate::cache::{listing_view, rebuilt, Cache};
use crate::card::Card;
use crate::store::StoreError;

verus! {

/// The pause between two cycles where none is configured, in seconds.
pub const DEFAULT_INTERVAL_SECS: u64 = 3600;

/// The refresher between two cycles.
#[derive(Debug, PartialEq, Eq)]
pub struct Refresher {
    interval_secs: u64,
}

/// The refresher within a cycle: the store has been asked for its listing.
/// Only [`Refresher::begin_cycle`] makes one.
#[derive(Debug, PartialEq, Eq)]
pub struct RefresherLoading {
    interval_secs: u64,
}

/// How a cycle ended, and how long to rest before the next.
#[derive(Debug, PartialEq, Eq)]
pub struct CycleEnd {
    /// The failure of the store, where the cache could not be refreshed.
    pub outcome: Result<(), StoreError>,
    /// The seconds to wait before the next cycle starts.
    pub pause_secs: u64,
}

impl Refresher {
    /// The seconds that this refresher rests between two cycles.
    pub closed spec fn pause(&self) -> u64 {
        self.interval_secs
    }

    /// An idle refresher that rests `interval_secs` seconds between cycles.
    pub fn new(interval_secs: u64) -> (refresher: Refresher)
        ensures
            refresher.pause() == interval_secs,
    {
        Refresher { interval_secs }
    }

    /// The seconds that this refresher rests between two cycles.
    pub fn interval_secs(&self) -> (secs: u64)
        ensures
            secs == self.pause(),
    {
        self.interval_secs
    }

    /// Starts a cycle: the store is to be listed next.
    pub fn begin_cycle(self) -> (loading: RefresherLoading)
        ensures
            loading.pause() == self.pause(),
    {
        RefresherLoading { interval_secs: self.interval_secs }
    }
}

impl RefresherLoading {
    /// The seconds that this refresher rests between two cycles.
    pub closed spec fn pause(&self) -> u64 {
        self.interval_secs
    }

    /// The seconds that this refresher rests between two cycles.
    pub fn interval_secs(&self) -> (secs: u64)
        ensures
            secs == self.pause(),
    {
        self.interval_secs
    }

    /// Ends a cycle with what the store gave: swaps the cache for the
    /// listing, or leaves it as it was where the store failed. Either way
    /// the refresher is idle again, and the next cycle is due after the
    /// configured pause.
    pub fn finish_cycle(self, cache: &mut Cache, listing: Result<Vec<Card>, StoreError>) -> (ended:
        (Refresher, CycleEnd))
        ensures
            final(cache)@ == rebuilt(old(cache)@, listing_view(listing)),
            ended.0.pause() == self.pause(),
            ended.1.pause_secs == self.pause(),
            ended.1.outcome == match listing {
                Ok(_) => Ok::<(), StoreError>(()),
                Err(error) => Err::<(), StoreError>(error),
            },
    {
        let outcome = cache.rebuild(listing);
        (
            Refresher { interval_secs: self.interval_secs },
            CycleEnd { outcome, pause_secs: self.interval_secs },
        )
    }
}

} // verus!
