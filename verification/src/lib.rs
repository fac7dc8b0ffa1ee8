//! A small bookmark-card service core: cards, the read cache that serves
//! them, and the rules that keep the cache in step with the document store.

pub mod cache;
pub mod card;
pub mod handlers;
pub mod ids;
pub mod laws;
pub mod refresher;
pub mod seeder;
pub mod store;
