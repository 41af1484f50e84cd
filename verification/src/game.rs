//! The `Game` entity and the request payload for creating or updating one.

use vstd::prelude::*;

verus! {

/// The mathematical value of a `Game`: its id and its title as a
/// sequence of characters.
pub ghost struct GameView {
    pub id: u64,
    pub title: Seq<char>,
}

/// The sole persisted entity: a game with a unique, immutable id
/// assigned by the store on creation, and a required title.
pub struct Game {
    pub id: u64,
    pub title: String,
}

impl View for Game {
    type V = GameView;

    open spec fn view(&self) -> GameView {
        GameView { id: self.id, title: self.title@ }
    }
}

impl Clone for Game {
    fn clone(&self) -> (r: Game)
        ensures
            r@ == self@,
    {
        Game { id: self.id, title: self.title.clone() }
    }
}

/// The mathematical value of a request payload.
pub ghost struct PayloadView {
    pub title: Option<Seq<char>>,
}

/// The body of a create or update request. The title is required;
/// a payload without one is rejected before storage is touched.
pub struct GamePayload {
    pub title: Option<String>,
}

impl View for GamePayload {
    type V = PayloadView;

    open spec fn view(&self) -> PayloadView {
        PayloadView { title: match self.title {
            Some(t) => Some(t@),
            None => None,
        } }
    }
}

/// A payload is valid exactly when its required title field is present.
pub open spec fn payload_valid(p: PayloadView) -> bool {
    p.title is Some
}

impl GamePayload {
    /// Checks the payload before any storage operation, so that a
    /// malformed request yields a clean validation error rather than a
    /// database constraint failure.
    pub fn is_valid(&self) -> (r: bool)
        ensures
            r == payload_valid(self@),
    {
        self.title.is_some()
    }
}

} // verus!
