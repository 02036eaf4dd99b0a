use vstd::prelude::*;
use vstd::map::*;

use crate::types::{ActorId, Session};

verus! {

/// The session store: the oracle program's identity and one record per user.
pub struct GameSessionState {
    pub wordle_program: ActorId,
    pub user_to_session: Vec<(ActorId, Session)>,
}

impl GameSessionState {
    /// No user has two records.
    pub open spec fn keys_unique(&self) -> bool {
        forall|i: int, j: int|
            0 <= i < self.user_to_session@.len() && 0 <= j < self.user_to_session@.len() && i != j
                ==> #[trigger] self.user_to_session@[i].0 != #[trigger] self.user_to_session@[j].0
    }

    /// The store's invariant: unique users, and every record well formed.
    pub open spec fn wf(&self) -> bool {
        &&& self.keys_unique()
        &&& forall|i: int| 0 <= i < self.user_to_session@.len() ==> (#[trigger] self.user_to_session@[i]).1.wf()
    }

    /// The store holds a record for `user`.
    pub open spec fn has_user(&self, user: ActorId) -> bool {
        exists|i: int| 0 <= i < self.user_to_session@.len() && (#[trigger] self.user_to_session@[i]).0 == user
    }

    /// The store as a map from user to record.
    pub open spec fn sessions(&self) -> Map<ActorId, Session> {
        Map::new(
            |u: ActorId| self.has_user(u),
            |u: ActorId|
                self.user_to_session@[choose|i: int|
                    0 <= i < self.user_to_session@.len() && (#[trigger] self.user_to_session@[i]).0 == u].1,
        )
    }

    /// The record at position `i` is the one the map gives for its user.
    pub proof fn lemma_sessions_at(&self, i: int)
        requires
            self.keys_unique(),
            0 <= i < self.user_to_session@.len(),
        ensures
            self.sessions().contains_key(self.user_to_session@[i].0),
            self.sessions()[self.user_to_session@[i].0] == self.user_to_session@[i].1,
    {
        let u = self.user_to_session@[i].0;
        assert(self.has_user(u));
        let j = choose|j: int| 0 <= j < self.user_to_session@.len() && (#[trigger] self.user_to_session@[j]).0 == u;
        assert(i == j);
    }

    /// An empty store that talks to the oracle program `wordle_program`.
    pub fn new(wordle_program: ActorId) -> (r: GameSessionState)
        ensures
            r.wf(),
            r.wordle_program == wordle_program,
            r.sessions() == Map::<ActorId, Session>::empty(),
    {
        let r = GameSessionState { wordle_program, user_to_session: Vec::new() };
        assert(r.sessions() =~= Map::<ActorId, Session>::empty());
        r
    }
}

/// The position of `user`'s record, if there is one.
pub fn find_session(state: &GameSessionState, user: &ActorId) -> (r: Option<usize>)
    ensures
        r is None <==> !state.sessions().contains_key(*user),
        r matches Some(i) ==> i < state.user_to_session@.len() && state.user_to_session@[i as int].0 == *user,
{
    let mut i: usize = 0;
    while i < state.user_to_session.len()
        invariant
            i <= state.user_to_session@.len(),
            forall|j: int| 0 <= j < i ==> (#[trigger] state.user_to_session@[j]).0 != *user,
        decreases state.user_to_session@.len() - i,
    {
        if state.user_to_session[i].0 == *user {
            return Some(i);
        }
        i = i + 1;
    }
    None
}

/// Stores `session` as `user`'s record, replacing the one there was.
pub fn insert_or_update_session(state: &mut GameSessionState, user: ActorId, session: Session)
    requires
        old(state).keys_unique(),
    ensures
        final(state).keys_unique(),
        old(state).wf() && session.wf() ==> final(state).wf(),
        final(state).wordle_program == old(state).wordle_program,
        final(state).sessions() == old(state).sessions().insert(user, session),
        forall|i: int|
            0 <= i < final(state).user_to_session@.len() && (#[trigger] final(state).user_to_session@[i]).0 != user
                ==> i < old(state).user_to_session@.len() && final(state).user_to_session@[i] == old(state).user_to_session@[i],
{
    let ghost before = *state;
    match find_session(state, &user) {
        Some(i) => {
            state.user_to_session.set(i, (user, session));
            proof { lemma_update_at(before, *state, i as int); }
        },
        None => {
            state.user_to_session.push((user, session));
            proof { lemma_update_at(before, *state, before.user_to_session@.len() as int); }
        },
    }
}

/// Takes `user`'s record out of the store, leaving a fresh record in its place.
pub(crate) fn take_session(state: &mut GameSessionState, user: &ActorId) -> (r: Option<Session>)
    requires
        old(state).wf(),
    ensures
        final(state).wf(),
        final(state).wordle_program == old(state).wordle_program,
        r is None ==> !old(state).sessions().contains_key(*user) && final(state).sessions() == old(state).sessions(),
        r matches Some(s) ==> {
            &&& old(state).sessions().contains_key(*user)
            &&& s == old(state).sessions()[*user]
            &&& s.wf()
            &&& final(state).sessions() == old(state).sessions().insert(*user, Session::spec_fresh())
        },
{
    match find_session(state, user) {
        None => None,
        Some(i) => {
            let ghost before = *state;
            let mut slot = (*user, Session::fresh());
            state.user_to_session.set_and_swap(i, &mut slot);
            proof {
                lemma_update_at(before, *state, i as int);
                before.lemma_sessions_at(i as int);
                assert(before.user_to_session@[i as int].1.wf());
            }
            let (_, s) = slot;
            Some(s)
        },
    }
}

/// Writing one position of the store whose user is new there, or equal to the
/// one there was, updates the map at that user alone.
proof fn lemma_update_at(before: GameSessionState, after: GameSessionState, i: int)
    requires
        before.keys_unique(),
        0 <= i <= before.user_to_session@.len(),
        i < before.user_to_session@.len() ==> before.user_to_session@[i].0 == after.user_to_session@[i].0,
        i == before.user_to_session@.len() ==> !before.sessions().contains_key(after.user_to_session@[i].0),
        after.user_to_session@.len() == if i < before.user_to_session@.len() {
            before.user_to_session@.len()
        } else {
            before.user_to_session@.len() + 1
        },
        0 <= i < after.user_to_session@.len(),
        forall|j: int| 0 <= j < after.user_to_session@.len() && j != i ==> after.user_to_session@[j] == before.user_to_session@[j],
    ensures
        after.keys_unique(),
        after.sessions() == before.sessions().insert(after.user_to_session@[i].0, after.user_to_session@[i].1),
{
    let u = after.user_to_session@[i].0;
    let n = after.user_to_session@.len();
    assert forall|a: int, b: int| 0 <= a < n && 0 <= b < n && a != b
        implies #[trigger] after.user_to_session@[a].0 != #[trigger] after.user_to_session@[b].0 by {
        if a == i {
            if i == before.user_to_session@.len() {
                assert(before.user_to_session@[b].0 == after.user_to_session@[b].0);
                if before.user_to_session@[b].0 == u {
                    assert(before.has_user(u));
                }
            }
        } else if b == i {
            if i == before.user_to_session@.len() {
                assert(before.user_to_session@[a].0 == after.user_to_session@[a].0);
                if before.user_to_session@[a].0 == u {
                    assert(before.has_user(u));
                }
            }
        }
    }
    let m = before.sessions().insert(u, after.user_to_session@[i].1);
    assert forall|k: ActorId| #[trigger] after.sessions().contains_key(k) <==> m.contains_key(k) by {
        if k != u {
            if after.has_user(k) {
                let j = choose|j: int| 0 <= j < n && (#[trigger] after.user_to_session@[j]).0 == k;
                assert(before.user_to_session@[j].0 == k);
                assert(before.has_user(k));
            }
            if before.has_user(k) {
                let j = choose|j: int|
                    0 <= j < before.user_to_session@.len() && (#[trigger] before.user_to_session@[j]).0 == k;
                assert(after.user_to_session@[j].0 == k);
                assert(after.has_user(k));
            }
        } else {
            assert(after.has_user(u));
        }
    }
    assert forall|k: ActorId| #[trigger] after.sessions().contains_key(k) implies after.sessions()[k] == m[k] by {
        let j = choose|j: int| 0 <= j < n && (#[trigger] after.user_to_session@[j]).0 == k;
        after.lemma_sessions_at(j);
        if k != u {
            before.lemma_sessions_at(j);
        }
    }
    assert_maps_equal!(after.sessions(), m);
}

} // verus!
