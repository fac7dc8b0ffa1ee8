use bookwatch::cache::Cache;
use bookwatch::card::{Card, NewCard};
use bookwatch::handlers::{add_card, cards, delete_card, AddNext, DeleteNext, Reply, Status};
use bookwatch::refresher::Refresher;
use bookwatch::seeder::{SeedNext, SeedReport, Seeder};
use bookwatch::store::{deletion_outcome, StoreError};

/// A store kept in memory, which can be switched off.
struct MemoryStore {
    cards: Vec<Card>,
    up: bool,
}

impl MemoryStore {
    fn empty() -> MemoryStore {
        MemoryStore { cards: Vec::new(), up: true }
    }

    fn find_all(&self) -> Result<Vec<Card>, StoreError> {
        if self.up {
            Ok(self.cards.clone())
        } else {
            Err(StoreError::StoreUnavailable)
        }
    }

    fn insert(&mut self, card: Card) -> Result<(), StoreError> {
        if !self.up {
            return Err(StoreError::StoreUnavailable);
        }
        self.cards.push(card);
        Ok(())
    }

    fn delete_by_id(&mut self, id: String) -> Result<(), StoreError> {
        if !self.up {
            return Err(StoreError::StoreUnavailable);
        }
        match self.cards.iter().position(|card| card.id() == id) {
            Some(at) => {
                self.cards.remove(at);
                deletion_outcome(1)
            }
            None => deletion_outcome(0),
        }
    }
}

fn get(cache: &Cache) -> Vec<Card> {
    let (status, listed) = cards(cache);
    assert_eq!(status, Status::Success);
    listed
}

fn post(store: &mut MemoryStore, cache: &mut Cache, payload: NewCard) -> Reply {
    let (inserting, card) = add_card(payload);
    match inserting.inserted(store.insert(card)) {
        AddNext::Reload(reloading) => reloading.reloaded(cache, store.find_all()),
        AddNext::Respond(reply) => reply,
    }
}

fn delete(store: &mut MemoryStore, cache: &mut Cache, id: &str) -> Reply {
    let (removing, target) = delete_card(id.to_string());
    match removing.removed(store.delete_by_id(target)) {
        DeleteNext::Reload(reloading) => reloading.reloaded(cache, store.find_all()),
        DeleteNext::Respond(reply) => reply,
    }
}

fn seed(store: &mut MemoryStore) -> SeedReport {
    match Seeder::new().checked(store.find_all()) {
        SeedNext::Due(due) => {
            let (inserting, card) = due.insert();
            inserting.inserted(store.insert(card))
        }
        SeedNext::Done(report) => report,
    }
}

fn refresh(store: &MemoryStore, cache: &mut Cache, refresher: Refresher) -> Refresher {
    let loading = refresher.begin_cycle();
    let (idle, end) = loading.finish_cycle(cache, store.find_all());
    assert_eq!(end.pause_secs, idle.interval_secs());
    idle
}

fn payload(url: &str, title: &str, description: &str) -> NewCard {
    NewCard {
        url: url.to_string(),
        title: title.to_string(),
        description: description.to_string(),
    }
}

fn card(id: &str, url: &str, title: &str, description: &str) -> Card {
    Card::new(id.to_string(), url.to_string(), title.to_string(), description.to_string())
}

#[test]
fn scenario_from_empty_store_to_add_and_delete() {
    let mut store = MemoryStore::empty();
    let mut cache = Cache::new();
    let refresher = Refresher::new(3600);

    assert_eq!(get(&cache), Vec::<Card>::new());

    assert_eq!(seed(&mut store), SeedReport::Seeded);
    let refresher = refresh(&store, &mut cache, refresher);
    let listed = get(&cache);
    assert_eq!(listed.len(), 1);
    let placeholder = listed[0].clone();
    assert_eq!(placeholder.url(), "https://example.com");
    assert_eq!(placeholder.title(), "Example");
    assert_eq!(placeholder.description(), "An example card");

    let reply = post(&mut store, &mut cache, payload("https://a.com", "A", "d"));
    assert_eq!(reply.status, Status::Created);
    assert_eq!(reply.status.code(), 201);
    let new_id = reply.body;
    assert_ne!(new_id, placeholder.id());

    let listed = get(&cache);
    assert_eq!(listed.len(), 2);
    assert!(listed.contains(&placeholder));
    assert!(listed.contains(&card(&new_id, "https://a.com", "A", "d")));

    let reply = delete(&mut store, &mut cache, &new_id);
    assert_eq!(reply.status, Status::Success);
    assert_eq!(reply.status.code(), 200);
    assert_eq!(reply.body, "");

    assert_eq!(get(&cache), vec![placeholder]);
    assert_eq!(refresher.interval_secs(), 3600);
}

#[test]
fn repeated_lists_return_the_same_sequence() {
    let mut store = MemoryStore::empty();
    let mut cache = Cache::new();
    post(&mut store, &mut cache, payload("https://a.com", "A", "first"));
    post(&mut store, &mut cache, payload("https://b.com", "B", "second"));
    let first = get(&cache);
    let second = get(&cache);
    let third = get(&cache);
    assert_eq!(first.len(), 2);
    assert_eq!(first, second);
    assert_eq!(second, third);
}

#[test]
fn added_card_is_listed_at_once() {
    let mut store = MemoryStore::empty();
    let mut cache = Cache::new();
    let reply = post(&mut store, &mut cache, payload("https://rust-lang.org", "Rust", "home"));
    assert_eq!(reply.status, Status::Created);
    let listed = get(&cache);
    assert_eq!(listed, vec![card(&reply.body, "https://rust-lang.org", "Rust", "home")]);
}

#[test]
fn deleted_card_is_gone_at_once() {
    let mut store = MemoryStore::empty();
    let mut cache = Cache::new();
    let kept = post(&mut store, &mut cache, payload("https://a.com", "A", "kept")).body;
    let gone = post(&mut store, &mut cache, payload("https://b.com", "B", "gone")).body;
    let reply = delete(&mut store, &mut cache, &gone);
    assert_eq!(reply.status, Status::Success);
    let listed = get(&cache);
    assert!(listed.iter().all(|card| card.id() != gone));
    assert_eq!(listed, vec![card(&kept, "https://a.com", "A", "kept")]);
}

#[test]
fn delete_of_unknown_id_succeeds_and_changes_nothing() {
    let mut store = MemoryStore::empty();
    let mut cache = Cache::new();
    post(&mut store, &mut cache, payload("https://a.com", "A", "a"));
    post(&mut store, &mut cache, payload("https://b.com", "B", "b"));
    let before = get(&cache);
    let reply = delete(&mut store, &mut cache, "7c1f6f0e-2f0b-4c52-9d3a-0123456789ab");
    assert_eq!(reply.status, Status::Success);
    assert_eq!(reply.status.code(), 200);
    assert_eq!(get(&cache), before);
    assert_eq!(store.cards, before);
}

#[test]
fn seeding_fills_an_empty_store_once() {
    let mut store = MemoryStore::empty();
    assert_eq!(seed(&mut store), SeedReport::Seeded);
    assert_eq!(store.cards.len(), 1);
    let first = store.cards[0].clone();
    assert_eq!(first.url(), "https://example.com");
    assert_eq!(first.title(), "Example");
    assert_eq!(first.description(), "An example card");

    assert_eq!(seed(&mut store), SeedReport::Populated(1));
    assert_eq!(store.cards, vec![first]);
}

#[test]
fn seeding_gives_up_on_a_store_that_is_down() {
    let mut store = MemoryStore::empty();
    store.up = false;
    assert_eq!(seed(&mut store), SeedReport::ListingFailed(StoreError::StoreUnavailable));
    assert!(store.cards.is_empty());
}

#[test]
fn refresher_picks_up_a_change_made_behind_the_service() {
    let mut store = MemoryStore::empty();
    let mut cache = Cache::new();
    let refresher = Refresher::new(5);
    post(&mut store, &mut cache, payload("https://a.com", "A", "a"));

    store.cards.push(card("by-hand", "https://z.com", "Z", "written past the service"));
    assert_eq!(get(&cache).len(), 1);

    let refresher = refresh(&store, &mut cache, refresher);
    assert_eq!(get(&cache), store.cards);
    assert_eq!(get(&cache).len(), 2);

    store.cards.clear();
    refresh(&store, &mut cache, refresher);
    assert_eq!(get(&cache), Vec::<Card>::new());
}

#[test]
fn refresher_keeps_the_cache_while_the_store_is_down() {
    let mut store = MemoryStore::empty();
    let mut cache = Cache::new();
    post(&mut store, &mut cache, payload("https://a.com", "A", "a"));
    let before = get(&cache);

    store.up = false;
    let loading = Refresher::new(30).begin_cycle();
    let (idle, end) = loading.finish_cycle(&mut cache, store.find_all());
    assert_eq!(end.outcome, Err(StoreError::StoreUnavailable));
    assert_eq!(end.pause_secs, 30);
    assert_eq!(get(&cache), before);

    store.up = true;
    store.cards.clear();
    let loading = idle.begin_cycle();
    let (_, end) = loading.finish_cycle(&mut cache, store.find_all());
    assert_eq!(end.outcome, Ok(()));
    assert_eq!(end.pause_secs, 30);
    assert!(get(&cache).is_empty());
}

#[test]
fn add_on_a_store_that_is_down_fails_and_keeps_the_cache() {
    let mut store = MemoryStore::empty();
    let mut cache = Cache::new();
    post(&mut store, &mut cache, payload("https://a.com", "A", "a"));
    let before = get(&cache);

    store.up = false;
    let reply = post(&mut store, &mut cache, payload("https://b.com", "B", "b"));
    assert_eq!(reply.status, Status::ServerError);
    assert_eq!(reply.status.code(), 500);
    assert_eq!(reply.body, "Failed to insert document");
    assert_eq!(get(&cache), before);
    assert_eq!(store.cards, before);
}

#[test]
fn delete_on_a_store_that_is_down_fails_and_keeps_the_cache() {
    let mut store = MemoryStore::empty();
    let mut cache = Cache::new();
    let id = post(&mut store, &mut cache, payload("https://a.com", "A", "a")).body;
    let before = get(&cache);

    store.up = false;
    let reply = delete(&mut store, &mut cache, &id);
    assert_eq!(reply.status, Status::ServerError);
    assert_eq!(reply.status.code(), 500);
    assert_eq!(reply.body, "Failed to delete document");
    assert_eq!(get(&cache), before);
}

#[test]
fn list_is_served_from_the_cache_even_when_stale() {
    let mut store = MemoryStore::empty();
    let mut cache = Cache::new();
    post(&mut store, &mut cache, payload("https://a.com", "A", "a"));
    let before = get(&cache);
    store.cards.clear();
    store.up = false;
    assert_eq!(get(&cache), before);
}
