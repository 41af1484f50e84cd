//! The game store: the storage semantics of the service, as one
//! well-formed collection of games with a counter for the next id.
//!
//! The store keeps its games sorted by ascending id, every id strictly
//! below `next_id`; ids are therefore unique, a freshly assigned id is
//! distinct from every stored one, and `list` is deterministic.

use vstd::prelude::*;

use crate::error::ApiError;
use crate::game::{Game, GamePayload, GameView, payload_valid};

verus! {

/// The mathematical value of the store: the stored games in list
/// order, and the id the next created game will receive.
pub ghost struct StoreView {
    pub games: Seq<GameView>,
    pub next_id: u64,
}

/// Whether some stored game carries the given id.
pub open spec fn has_id(games: Seq<GameView>, id: u64) -> bool {
    exists|i: int| 0 <= i < games.len() && games[i].id == id
}

/// The position of the game with the given id; meaningful only when
/// `has_id` holds (and then unique, for a well-formed store).
pub open spec fn index_of_id(games: Seq<GameView>, id: u64) -> int {
    choose|i: int| 0 <= i < games.len() && games[i].id == id
}

impl StoreView {
    /// Well-formedness: games sorted by strictly ascending id, and
    /// every id strictly below `next_id`.
    pub open spec fn wf(self) -> bool {
        &&& forall|i: int, j: int|
            0 <= i < j < self.games.len() ==> #[trigger] self.games[i].id < #[trigger] self.games[j].id
        &&& forall|i: int| 0 <= i < self.games.len() ==> #[trigger] self.games[i].id < self.next_id
    }
}

/// Creation: the new game is appended with the fresh id `next_id`,
/// which is then consumed.
pub open spec fn spec_create(s: StoreView, title: Seq<char>) -> (StoreView, GameView) {
    let g = GameView { id: s.next_id, title: title };
    (StoreView { games: s.games.push(g), next_id: (s.next_id + 1) as u64 }, g)
}

/// Lookup: the stored game with the given id, if any.
pub open spec fn spec_get(s: StoreView, id: u64) -> Option<GameView> {
    if has_id(s.games, id) {
        Some(s.games[index_of_id(s.games, id)])
    } else {
        None
    }
}

/// Update: the game with the given id gets the new title in place;
/// meaningful only when `has_id` holds.
pub open spec fn spec_update(s: StoreView, id: u64, title: Seq<char>) -> StoreView {
    StoreView {
        games: s.games.update(index_of_id(s.games, id), GameView { id, title }),
        next_id: s.next_id,
    }
}

/// Deletion: the game with the given id is removed; meaningful only
/// when `has_id` holds. The id counter never moves backwards, so a
/// deleted id is never reissued.
pub open spec fn spec_delete(s: StoreView, id: u64) -> StoreView {
    StoreView { games: s.games.remove(index_of_id(s.games, id)), next_id: s.next_id }
}

/// In a well-formed store an id determines its position: any position
/// holding the id is the one `index_of_id` picks.
pub proof fn lemma_unique_index(s: StoreView, i: int, id: u64)
    requires
        s.wf(),
        0 <= i < s.games.len(),
        s.games[i].id == id,
    ensures
        has_id(s.games, id),
        index_of_id(s.games, id) == i,
{
    assert(has_id(s.games, id));
    let k = index_of_id(s.games, id);
    if k < i {
        assert(s.games[k].id < s.games[i].id);
    } else if i < k {
        assert(s.games[i].id < s.games[k].id);
    }
}

/// The store itself. Its games live in a vector sorted by ascending
/// id; `next_id` starts at 1 and grows by one per creation.
pub struct GameStore {
    games: Vec<Game>,
    next_id: u64,
}

impl View for GameStore {
    type V = StoreView;

    closed spec fn view(&self) -> StoreView {
        StoreView { games: self.games@.map(|i: int, g: Game| g@), next_id: self.next_id }
    }
}

impl GameStore {
    /// An empty store; the first created game receives id 1.
    pub fn new() -> (s: GameStore)
        ensures
            s@.wf(),
            s@.games == Seq::<GameView>::empty(),
            s@.next_id == 1,
    {
        let s = GameStore { games: Vec::new(), next_id: 1 };
        proof {
            assert(s@.games =~= Seq::<GameView>::empty());
        }
        s
    }

    /// How many games are stored.
    pub fn len(&self) -> (n: usize)
        ensures
            n == self@.games.len(),
    {
        self.games.len()
    }

    /// The position of the game with the given id, if any.
    fn find(&self, id: u64) -> (r: Option<usize>)
        ensures
            match r {
                Some(i) => i < self@.games.len() && self@.games[i as int].id == id,
                None => !has_id(self@.games, id),
            },
    {
        let n = self.games.len();
        let mut i: usize = 0;
        while i < n
            invariant
                n == self@.games.len(),
                i <= n,
                forall|j: int| 0 <= j < i ==> #[trigger] self@.games[j].id != id,
            decreases n - i,
        {
            if self.games[i].id == id {
                return Some(i);
            }
            i = i + 1;
        }
        None
    }

    /// Selects the game with the given id; `NotFound` exactly when no
    /// stored game carries it.
    pub fn get_by_id(&self, id: u64) -> (r: Result<Game, ApiError>)
        requires
            self@.wf(),
        ensures
            r is Ok <==> has_id(self@.games, id),
            r is Ok ==> Some(r->Ok_0@) == spec_get(self@, id),
            r is Err ==> r->Err_0 == ApiError::NotFound && spec_get(self@, id) is None,
    {
        match self.find(id) {
            Some(i) => {
                proof {
                    lemma_unique_index(self@, i as int, id);
                }
                Ok(self.games[i].clone())
            },
            None => Err(ApiError::NotFound),
        }
    }

    /// Inserts a new game with a fresh id, or rejects an invalid
    /// payload before storage is touched. Succeeds exactly on valid
    /// payloads; on failure the store is unchanged.
    pub fn create(&mut self, p: &GamePayload) -> (r: Result<Game, ApiError>)
        requires
            old(self)@.wf(),
            old(self)@.next_id < u64::MAX,
        ensures
            final(self)@.wf(),
            r is Ok <==> payload_valid(p@),
            r is Err ==> r->Err_0 == ApiError::Validation && final(self)@ == old(self)@,
            r is Ok ==> final(self)@ == spec_create(old(self)@, p@.title->0).0 && r->Ok_0@
                == spec_create(old(self)@, p@.title->0).1,
    {
        match &p.title {
            None => Err(ApiError::Validation),
            Some(t) => {
                let g = Game { id: self.next_id, title: t.clone() };
                let out = g.clone();
                self.games.push(g);
                self.next_id = self.next_id + 1;
                proof {
                    let s1 = old(self)@;
                    assert(self@.games =~= s1.games.push(out@));
                    assert(self@ =~= spec_create(s1, p@.title->0).0);
                    assert forall|i: int, j: int| 0 <= i < j < self@.games.len() implies (
                    #[trigger] self@.games[i].id) < (#[trigger] self@.games[j].id) by {
                        if j == s1.games.len() {
                            assert(s1.games[i].id < s1.next_id);
                        }
                    }
                }
                Ok(out)
            },
        }
    }

    /// Replaces the title of the game with the given id. An invalid
    /// payload is rejected before the store is consulted; an absent id
    /// yields `NotFound`; on failure the store is unchanged.
    pub fn update(&mut self, id: u64, p: &GamePayload) -> (r: Result<Game, ApiError>)
        requires
            old(self)@.wf(),
        ensures
            final(self)@.wf(),
            r is Ok <==> payload_valid(p@) && has_id(old(self)@.games, id),
            !payload_valid(p@) ==> r->Err_0 == ApiError::Validation && final(self)@ == old(self)@,
            payload_valid(p@) && !has_id(old(self)@.games, id) ==> r->Err_0 == ApiError::NotFound
                && final(self)@ == old(self)@,
            r is Ok ==> r->Ok_0@ == (GameView { id, title: p@.title->0 }) && final(self)@ == spec_update(
                old(self)@,
                id,
                p@.title->0,
            ),
    {
        let title = match &p.title {
            None => {
                return Err(ApiError::Validation);
            },
            Some(t) => t.clone(),
        };
        match self.find(id) {
            None => Err(ApiError::NotFound),
            Some(i) => {
                proof {
                    lemma_unique_index(old(self)@, i as int, id);
                }
                let g = Game { id, title };
                let out = g.clone();
                self.games.remove(i);
                self.games.insert(i, g);
                proof {
                    let s1 = old(self)@;
                    assert(self@.games =~= s1.games.update(i as int, out@));
                    assert(self@ =~= spec_update(s1, id, p@.title->0));
                    assert forall|a: int, b: int| 0 <= a < b < self@.games.len() implies (
                    #[trigger] self@.games[a].id) < (#[trigger] self@.games[b].id) by {
                        assert(s1.games[a].id < s1.games[b].id);
                    }
                }
                Ok(out)
            },
        }
    }

    /// Removes the game with the given id; `NotFound` exactly when no
    /// stored game carries it, and then the store is unchanged.
    pub fn delete(&mut self, id: u64) -> (r: Result<(), ApiError>)
        requires
            old(self)@.wf(),
        ensures
            final(self)@.wf(),
            r is Ok <==> has_id(old(self)@.games, id),
            r is Ok ==> final(self)@ == spec_delete(old(self)@, id),
            r is Err ==> r->Err_0 == ApiError::NotFound && final(self)@ == old(self)@,
    {
        match self.find(id) {
            None => Err(ApiError::NotFound),
            Some(i) => {
                proof {
                    lemma_unique_index(old(self)@, i as int, id);
                }
                self.games.remove(i);
                proof {
                    let s1 = old(self)@;
                    assert(self@.games =~= s1.games.remove(i as int));
                    assert(self@ =~= spec_delete(s1, id));
                    assert forall|a: int, b: int| 0 <= a < b < self@.games.len() implies (
                    #[trigger] self@.games[a].id) < (#[trigger] self@.games[b].id) by {
                        let a1: int = if a < i { a } else { a + 1 };
                        let b1: int = if b < i { b } else { b + 1 };
                        assert(s1.games[a1].id < s1.games[b1].id);
                    }
                }
                Ok(())
            },
        }
    }

    /// All stored games, in ascending id order; an empty store yields
    /// an empty list, not an error.
    pub fn list(&self) -> (r: Vec<Game>)
        ensures
            r@.len() == self@.games.len(),
            forall|i: int| 0 <= i < r@.len() ==> #[trigger] r@[i]@ == self@.games[i],
    {
        let n = self.games.len();
        let mut r: Vec<Game> = Vec::new();
        let mut i: usize = 0;
        while i < n
            invariant
                n == self@.games.len(),
                i <= n,
                r@.len() == i,
                forall|j: int| 0 <= j < i ==> #[trigger] r@[j]@ == self@.games[j],
            decreases n - i,
        {
            r.push(self.games[i].clone());
            i = i + 1;
        }
        r
    }
}

} // verus!
