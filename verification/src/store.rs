//! The states of many conversations, each under the key of its chat.
//!
//! A conversation that nothing is stored for is in `Start`. The store keeps
//! only the conversations that are under way: one that returns to `Start`
//! leaves the store. A turn on one key reads and writes the entry of that
//! key and no other.

use std::collections::HashMap;
use vstd::prelude::*;
use crate::dialogue::{handle, step, Turn};
use crate::reply::{view_of, Reply};
use crate::state::State;

verus! {

broadcast use vstd::std_specs::hash::group_hash_axioms;

/// The state of the conversation `key` in the stored map `m`: its entry, or
/// `Start` where it has none.
pub open spec fn state_in(m: Map<i64, State>, key: i64) -> State {
    if m.contains_key(key) {
        m[key]
    } else {
        State::Start
    }
}

/// The map `m` after the conversation `key` has moved to `state`: the entry
/// is dropped for `Start` and written for any other state.
pub open spec fn updated(m: Map<i64, State>, key: i64, state: State) -> Map<i64, State> {
    if state == State::Start {
        m.remove(key)
    } else {
        m.insert(key, state)
    }
}

/// The map `m` after the conversation `key` has received `input` and its
/// reply was delivered.
pub open spec fn exchanged(m: Map<i64, State>, key: i64, input: Option<Seq<char>>) -> Map<
    i64,
    State,
> {
    updated(m, key, step(state_in(m, key), input).next)
}

/// No entry of `m` holds `Start`.
pub open spec fn all_under_way(m: Map<i64, State>) -> bool {
    forall|key: i64| m.contains_key(key) ==> #[trigger] m[key] != State::Start
}

/// The conversations that are under way, by the key of their chat.
pub struct ConversationStore {
    entries: HashMap<i64, State>,
}

impl View for ConversationStore {
    type V = Map<i64, State>;

    /// The stored entries.
    closed spec fn view(&self) -> Map<i64, State> {
        self.entries@
    }
}

impl ConversationStore {
    /// The store holds no conversation that is in `Start`. This is so of a
    /// new store and stays so under every method.
    pub open spec fn wf(&self) -> bool {
        all_under_way(self@)
    }

    /// The state of the conversation `key`.
    pub open spec fn state_of(&self, key: i64) -> State {
        state_in(self@, key)
    }

    /// A store in which every conversation is in `Start`.
    pub fn new() -> (store: Self)
        ensures
            store@ == Map::<i64, State>::empty(),
            store.wf(),
    {
        ConversationStore { entries: HashMap::new() }
    }

    /// The number of stored conversations.
    pub fn len(&self) -> (n: usize)
        ensures
            n == self@.len(),
            self@.dom().finite(),
    {
        self.entries.len()
    }

    /// The state of the conversation `key`: its entry, or `Start` where it
    /// has none.
    pub fn get(&self, key: i64) -> (state: State)
        ensures
            state == self.state_of(key),
    {
        match self.entries.get(&key) {
            Some(state) => *state,
            None => State::Start,
        }
    }

    /// Moves the conversation `key` to `state`. No other conversation is
    /// touched.
    pub fn set(&mut self, key: i64, state: State)
        ensures
            final(self)@ == updated(old(self)@, key, state),
            final(self).state_of(key) == state,
            forall|other: i64|
                other != key ==> final(self).state_of(other) == old(self).state_of(other),
            old(self).wf() ==> final(self).wf(),
    {
        match state {
            State::Start => {
                self.entries.remove(&key);
            },
            _ => {
                self.entries.insert(key, state);
            },
        }
    }

    /// Ends the conversation `key`: it is in `Start` again. No other
    /// conversation is touched.
    pub fn remove(&mut self, key: i64)
        ensures
            final(self)@ == old(self)@.remove(key),
            final(self).state_of(key) == State::Start,
            forall|other: i64|
                other != key ==> final(self).state_of(other) == old(self).state_of(other),
            old(self).wf() ==> final(self).wf(),
    {
        self.set(key, State::Start);
    }

    /// The turn that the conversation `key` takes on a message with the text
    /// `text`. The store is not changed: the next state is written by
    /// `settle` once the reply has been sent.
    pub fn turn(&self, key: i64, text: Option<&str>) -> (turn: Turn)
        ensures
            turn == step(self.state_of(key), view_of(text)),
    {
        handle(self.get(key), text)
    }

    /// Closes a turn of the conversation `key`, of which `next` is the next
    /// state. Where the reply was delivered the conversation moves to
    /// `next`; where it was not, the store stays as it was, so that the same
    /// question is put again.
    pub fn settle(&mut self, key: i64, next: State, delivered: bool)
        ensures
            delivered ==> final(self)@ == updated(old(self)@, key, next),
            !delivered ==> final(self)@ == old(self)@,
            forall|other: i64|
                other != key ==> final(self).state_of(other) == old(self).state_of(other),
            old(self).wf() ==> final(self).wf(),
    {
        if delivered {
            self.set(key, next);
        }
    }

    /// Takes a whole turn of the conversation `key` for a caller whose reply
    /// cannot fail to arrive: answers the message and moves on.
    pub fn exchange(&mut self, key: i64, text: Option<&str>) -> (reply: Reply)
        ensures
            reply == step(old(self).state_of(key), view_of(text)).reply,
            final(self)@ == exchanged(old(self)@, key, view_of(text)),
            final(self).state_of(key) == step(old(self).state_of(key), view_of(text)).next,
            forall|other: i64|
                other != key ==> final(self).state_of(other) == old(self).state_of(other),
            old(self).wf() ==> final(self).wf(),
    {
        let turn = self.turn(key, text);
        self.settle(key, turn.next, true);
        turn.reply
    }
}

/// Conversations are kept apart.
///
/// A turn on the key `a` is the same whatever is stored under another key
/// `b`, and it leaves the state under `b` as it was.
pub proof fn theorem_isolation(
    m: Map<i64, State>,
    a: i64,
    b: i64,
    input: Option<Seq<char>>,
    other: State,
)
    requires
        a != b,
    ensures
        step(state_in(updated(m, b, other), a), input) == step(state_in(m, a), input),
        state_in(exchanged(m, a, input), b) == state_in(m, b),
{
}

/// Turns on different keys can be taken in either order: the store ends up
/// the same, and so does each reply.
pub proof fn theorem_turns_commute(
    m: Map<i64, State>,
    a: i64,
    b: i64,
    input_a: Option<Seq<char>>,
    input_b: Option<Seq<char>>,
)
    requires
        a != b,
    ensures
        exchanged(exchanged(m, a, input_a), b, input_b) == exchanged(
            exchanged(m, b, input_b),
            a,
            input_a,
        ),
        step(state_in(exchanged(m, b, input_b), a), input_a).reply == step(
            state_in(m, a),
            input_a,
        ).reply,
        step(state_in(exchanged(m, a, input_a), b), input_b).reply == step(
            state_in(m, b),
            input_b,
        ).reply,
{
    assert(exchanged(exchanged(m, a, input_a), b, input_b) =~= exchanged(
        exchanged(m, b, input_b),
        a,
        input_a,
    ));
}

/// A store that holds no `Start` still holds none after a turn, and the
/// state that it gives for the key of the turn is the next state.
pub proof fn theorem_exchange_keeps_store(m: Map<i64, State>, key: i64, input: Option<Seq<char>>)
    requires
        all_under_way(m),
    ensures
        all_under_way(exchanged(m, key, input)),
        state_in(exchanged(m, key, input), key) == step(state_in(m, key), input).next,
{
}

} // verus!
