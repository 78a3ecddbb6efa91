use vstd::prelude::*;

use crate::decimal::{decimal_text, lemma_parse_reads_back_decimal, parse_i32, spec_parse_i32};

verus! {

/// A player's request for the card list of one of their decks.
#[derive(Debug)]
pub struct GameDeckCardListRequest {
    deck_id: String,
    session_id: String,
}

/// The deck id that a request's text denotes: the decimal `i32` it holds,
/// or 0 where the text is not one.
pub open spec fn deck_id_of_text(text: Seq<char>) -> i32 {
    match spec_parse_i32(text) {
        Some(id) => id,
        None => 0,
    }
}

impl GameDeckCardListRequest {
    /// The deck id as the request carries it, as text.
    pub closed spec fn deck_id_text(&self) -> Seq<char> {
        self.deck_id@
    }

    /// The session id as the request carries it.
    pub closed spec fn session_id_text(&self) -> Seq<char> {
        self.session_id@
    }

    pub fn new(deck_id: String, session_id: String) -> (request: Self)
        ensures
            request.deck_id_text() == deck_id@,
            request.session_id_text() == session_id@,
    {
        GameDeckCardListRequest { deck_id, session_id }
    }

    pub fn get_session_id(&self) -> (session_id: &str)
        ensures
            session_id@ == self.session_id_text(),
    {
        self.session_id.as_str()
    }

    /// The deck id read as a decimal `i32`; 0 where the text is not one.
    pub fn get_deck_id(&self) -> (deck_id: i32)
        ensures
            deck_id == deck_id_of_text(self.deck_id_text()),
    {
        match parse_i32(self.deck_id.as_str()) {
            Some(id) => id,
            None => 0,
        }
    }
}

/// Where the deck text reads as an `i32`, the deck id is that number; it is
/// 0 exactly where the text reads as no `i32`.
pub proof fn lemma_deck_id_is_the_parsed_number(text: Seq<char>)
    ensures
        forall|id: i32| spec_parse_i32(text) == Some(id) ==> deck_id_of_text(text) == id,
        spec_parse_i32(text) is None ==> deck_id_of_text(text) == 0,
{
}

/// Every `i32` written in decimal is read back as the deck id.
pub proof fn lemma_deck_id_reads_back_decimal(id: i32)
    ensures
        deck_id_of_text(decimal_text(id as int)) == id,
{
    lemma_parse_reads_back_decimal(id);
}

} // verus!
