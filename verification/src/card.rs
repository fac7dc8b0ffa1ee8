//! Cards, the records that the service keeps, and their mathematical model.

use vstd::prelude::*;

verus! {

/// A card as plain text: the model that contracts speak of.
pub struct CardView {
    pub id: Seq<char>,
    pub url: Seq<char>,
    pub title: Seq<char>,
    pub description: Seq<char>,
}

/// A bookmark: a link with its title and description, under an identifier
/// that the service assigned when the card was created. A card is made
/// whole and never changed afterwards.
#[derive(Debug, PartialEq, Eq)]
pub struct Card {
    id: String,
    url: String,
    title: String,
    description: String,
}

impl View for Card {
    type V = CardView;

    closed spec fn view(&self) -> CardView {
        CardView {
            id: self.id@,
            url: self.url@,
            title: self.title@,
            description: self.description@,
        }
    }
}

impl Card {
    /// A card with these four fields.
    pub fn new(id: String, url: String, title: String, description: String) -> (card: Card)
        ensures
            card@ == (CardView { id: id@, url: url@, title: title@, description: description@ }),
    {
        Card { id, url, title, description }
    }

    /// The identifier that the card was created under.
    pub fn id(&self) -> (text: &str)
        ensures
            text@ == self@.id,
    {
        self.id.as_str()
    }

    /// The address that the card points to.
    pub fn url(&self) -> (text: &str)
        ensures
            text@ == self@.url,
    {
        self.url.as_str()
    }

    /// The card's title.
    pub fn title(&self) -> (text: &str)
        ensures
            text@ == self@.title,
    {
        self.title.as_str()
    }

    /// The card's description.
    pub fn description(&self) -> (text: &str)
        ensures
            text@ == self@.description,
    {
        self.description.as_str()
    }
}

impl Clone for Card {
    fn clone(&self) -> (copy: Card)
        ensures
            copy == *self,
    {
        Card {
            id: self.id.clone(),
            url: self.url.clone(),
            title: self.title.clone(),
            description: self.description.clone(),
        }
    }
}

/// What a client sends to have a card created, as plain text.
pub struct NewCardView {
    pub url: Seq<char>,
    pub title: Seq<char>,
    pub description: Seq<char>,
}

impl NewCardView {
    /// The card that this payload becomes under `id`.
    pub open spec fn with_id(self, id: Seq<char>) -> CardView {
        CardView { id, url: self.url, title: self.title, description: self.description }
    }
}

/// What a client sends to have a card created: a card that has no
/// identifier yet.
#[derive(Debug, PartialEq, Eq)]
pub struct NewCard {
    pub url: String,
    pub title: String,
    pub description: String,
}

impl View for NewCard {
    type V = NewCardView;

    open spec fn view(&self) -> NewCardView {
        NewCardView { url: self.url@, title: self.title@, description: self.description@ }
    }
}

impl NewCard {
    /// Completes the payload into a card that carries `id`.
    pub fn with_id(self, id: String) -> (card: Card)
        ensures
            card@ == self@.with_id(id@),
    {
        Card { id, url: self.url, title: self.title, description: self.description }
    }
}

/// The models of a sequence of cards, in the same order.
pub open spec fn card_views(cards: Seq<Card>) -> Seq<CardView> {
    cards.map_values(|card: Card| card@)
}

/// Whether some card of `cards` carries `id`.
pub open spec fn holds_id(cards: Seq<CardView>, id: Seq<char>) -> bool {
    exists|i: int| 0 <= i < cards.len() && (#[trigger] cards[i]).id == id
}

/// Whether no identifier occurs on two cards of `cards`.
pub open spec fn unique_ids(cards: Seq<CardView>) -> bool {
    forall|i: int, j: int|
        0 <= i < j < cards.len() ==> (#[trigger] cards[i]).id != (#[trigger] cards[j]).id
}

/// The card that an empty store is seeded with, under `id`.
pub open spec fn placeholder_view(id: Seq<char>) -> CardView {
    CardView {
        id,
        url: "https://example.com"@,
        title: "Example"@,
        description: "An example card"@,
    }
}

/// Builds the card that an empty store is seeded with.
pub fn placeholder(id: String) -> (card: Card)
    ensures
        card@ == placeholder_view(id@),
{
    Card {
        id,
        url: "https://example.com".to_string(),
        title: "Example".to_string(),
        description: "An example card".to_string(),
    }
}

/// Copies a list of cards, card by card.
pub fn copy_cards(cards: &Vec<Card>) -> (copies: Vec<Card>)
    ensures
        copies@ == cards@,
{
    let mut copies: Vec<Card> = Vec::new();
    let mut at: usize = 0;
    while at < cards.len()
        invariant
            at <= cards.len(),
            copies@ == cards@.take(at as int),
        decreases cards.len() - at,
    {
        copies.push(cards[at].clone());
        assert(cards@.take(at + 1) == cards@.take(at as int).push(cards@[at as int]));
        at += 1;
    }
    assert(cards@.take(cards.len() as int) == cards@);
    copies
}

} // verus!
