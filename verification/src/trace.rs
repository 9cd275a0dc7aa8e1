//! Whole conversations: the states and replies that a sequence of messages
//! leads through, and what holds of every such sequence.

use vstd::prelude::*;
use crate::dialogue::{number_of, reply_without_number, step};
use crate::reply::Reply;
use crate::state::State;

verus! {

/// The state of a conversation that began in `state`, after the first `k`
/// of the messages `inputs` have been answered.
pub open spec fn state_after(state: State, inputs: Seq<Option<Seq<char>>>, k: int) -> State
    decreases k,
{
    if k <= 0 {
        state
    } else {
        step(state_after(state, inputs, k - 1), inputs[k - 1]).next
    }
}

/// The reply to message number `k` (counted from zero) of a conversation
/// that began in `state`.
pub open spec fn reply_at(state: State, inputs: Seq<Option<Seq<char>>>, k: int) -> Reply {
    step(state_after(state, inputs, k), inputs[k]).reply
}

/// From message `a` on, which found the conversation in `Start`, the deposit
/// has been awaited up to message `m`.
pub open spec fn awaits_initial(inputs: Seq<Option<Seq<char>>>, a: int, m: int) -> bool {
    &&& 0 <= a < m
    &&& state_after(State::Start, inputs, a) == State::Start
    &&& forall|j: int|
        a < j <= m ==> #[trigger] state_after(State::Start, inputs, j) == State::ReceiveInitial
}

/// The conversation was greeted at message `a`, gave the deposit `initial`
/// with message `b`, and from then on the rate has been awaited up to
/// message `m`.
pub open spec fn awaits_persent(
    inputs: Seq<Option<Seq<char>>>,
    a: int,
    b: int,
    m: int,
    initial: i32,
) -> bool {
    &&& awaits_initial(inputs, a, b)
    &&& b < m
    &&& number_of(inputs[b]) == Some(initial)
    &&& forall|j: int|
        b < j <= m ==> #[trigger] state_after(State::Start, inputs, j) == (State::ReceivePersent {
            initial,
        })
}

/// The conversation was greeted at message `a`, gave the deposit `initial`
/// with message `b` and the rate `persent` with message `c`, and from then
/// on the number of periods has been awaited up to message `m`.
pub open spec fn awaits_time(
    inputs: Seq<Option<Seq<char>>>,
    a: int,
    b: int,
    c: int,
    m: int,
    initial: i32,
    persent: i32,
) -> bool {
    &&& awaits_persent(inputs, a, b, c, initial)
    &&& c < m
    &&& number_of(inputs[c]) == Some(persent)
    &&& forall|j: int|
        c < j <= m ==> #[trigger] state_after(State::Start, inputs, j) == (State::ReceiveTime {
            initial,
            persent,
        })
}

/// The messages `a`, `b`, `c` and `k` are the four steps of one complete
/// conversation: the greeting, then the deposit, the rate and the number of
/// periods, each accepted in this order, with nothing but corrections
/// between them.
pub open spec fn full_path(
    inputs: Seq<Option<Seq<char>>>,
    a: int,
    b: int,
    c: int,
    k: int,
    initial: i32,
    persent: i32,
    time: i32,
) -> bool {
    &&& awaits_time(inputs, a, b, c, k, initial, persent)
    &&& number_of(inputs[k]) == Some(time)
}

/// A complete conversation ends where it began and is answered with the
/// report on its three numbers.
///
/// Whatever the first message holds, if the next three hold the numbers
/// `initial`, `persent` and `time`, then the fourth reply is the report on
/// exactly these numbers and the conversation is back in `Start`.
pub proof fn theorem_complete_conversation(
    inputs: Seq<Option<Seq<char>>>,
    initial: i32,
    persent: i32,
    time: i32,
)
    requires
        inputs.len() == 4,
        number_of(inputs[1]) == Some(initial),
        number_of(inputs[2]) == Some(persent),
        number_of(inputs[3]) == Some(time),
    ensures
        reply_at(State::Start, inputs, 0) == Reply::AskInitial,
        reply_at(State::Start, inputs, 1) == Reply::AskPersent,
        reply_at(State::Start, inputs, 2) == Reply::AskTime,
        reply_at(State::Start, inputs, 3) == (Reply::Report { initial, persent, time }),
        state_after(State::Start, inputs, 4) == State::Start,
{
    reveal_with_fuel(state_after, 5);
}

/// Rejection changes nothing, however often it is repeated.
///
/// While a number is awaited, any run of messages of which none holds a
/// number leaves the state where it was, and each of them is answered with
/// the correction of that state.
pub proof fn theorem_rejection_repeats(state: State, inputs: Seq<Option<Seq<char>>>)
    requires
        state != State::Start,
        forall|i: int| 0 <= i < inputs.len() ==> number_of(#[trigger] inputs[i]) is None,
    ensures
        forall|k: int| 0 <= k <= inputs.len() ==> #[trigger] state_after(state, inputs, k) == state,
        forall|k: int|
            0 <= k < inputs.len() ==> #[trigger] reply_at(state, inputs, k)
                == reply_without_number(state),
{
    assert forall|k: int| 0 <= k <= inputs.len() implies #[trigger] state_after(state, inputs, k)
        == state by {
        lemma_rejection_keeps_state(state, inputs, k);
    }
}

/// After `k` messages without a number the state is still the same.
proof fn lemma_rejection_keeps_state(state: State, inputs: Seq<Option<Seq<char>>>, k: int)
    requires
        state != State::Start,
        0 <= k <= inputs.len(),
        forall|i: int| 0 <= i < inputs.len() ==> number_of(#[trigger] inputs[i]) is None,
    ensures
        state_after(state, inputs, k) == state,
    decreases k,
{
    if k > 0 {
        lemma_rejection_keeps_state(state, inputs, k - 1);
        assert(number_of(inputs[k - 1]) is None);
    }
}

/// A state holds only numbers that were given.
///
/// Whatever the messages of a conversation that began in `Start`, the state
/// after `m` of them has this history: if it awaits a number, the
/// conversation was greeted by an earlier message and has awaited numbers
/// ever since, and each number that the state holds was read from an earlier
/// message, the deposit before the rate. The result names the greeting, the
/// message that gave the deposit and the message that gave the rate, as far
/// as the state has them.
pub proof fn theorem_history(inputs: Seq<Option<Seq<char>>>, m: int) -> (w: (int, int, int))
    requires
        0 <= m <= inputs.len(),
    ensures
        match state_after(State::Start, inputs, m) {
            State::Start => true,
            State::ReceiveInitial => awaits_initial(inputs, w.0, m),
            State::ReceivePersent { initial } => awaits_persent(inputs, w.0, w.1, m, initial),
            State::ReceiveTime { initial, persent } => awaits_time(
                inputs,
                w.0,
                w.1,
                w.2,
                m,
                initial,
                persent,
            ),
        },
    decreases m,
{
    if m == 0 {
        (0, 0, 0)
    } else {
        let before = theorem_history(inputs, m - 1);
        let previous = state_after(State::Start, inputs, m - 1);
        let input = inputs[m - 1];
        match previous {
            State::Start => (m - 1, 0, 0),
            State::ReceiveInitial => match number_of(input) {
                Some(_) => (before.0, m - 1, 0),
                None => before,
            },
            State::ReceivePersent { .. } => match number_of(input) {
                Some(_) => (before.0, before.1, m - 1),
                None => before,
            },
            State::ReceiveTime { .. } => before,
        }
    }
}

/// A report is only ever the end of a complete conversation: there is no
/// shortcut to it.
///
/// If message `k` of a conversation that began in `Start` is answered with a
/// report, then earlier messages `a < b < c < k` were its greeting, its
/// deposit and its rate, in this order and with nothing but corrections
/// between them, message `k` held the number of periods, and the report
/// holds exactly these three numbers. The result names `a`, `b` and `c`.
pub proof fn theorem_report_has_full_path(inputs: Seq<Option<Seq<char>>>, k: int) -> (path: (
    int,
    int,
    int,
))
    requires
        0 <= k < inputs.len(),
        reply_at(State::Start, inputs, k) is Report,
    ensures
        full_path(
            inputs,
            path.0,
            path.1,
            path.2,
            k,
            reply_at(State::Start, inputs, k)->initial,
            reply_at(State::Start, inputs, k)->persent,
            reply_at(State::Start, inputs, k)->time,
        ),
        0 <= path.0 < path.1 < path.2 < k,
        state_after(State::Start, inputs, k + 1) == State::Start,
{
    theorem_history(inputs, k)
}

/// A complete conversation always ends in a report, wherever in a longer
/// exchange it lies.
pub proof fn theorem_full_path_reports(
    inputs: Seq<Option<Seq<char>>>,
    a: int,
    b: int,
    c: int,
    k: int,
    initial: i32,
    persent: i32,
    time: i32,
)
    requires
        full_path(inputs, a, b, c, k, initial, persent, time),
    ensures
        reply_at(State::Start, inputs, k) == (Reply::Report { initial, persent, time }),
        state_after(State::Start, inputs, k + 1) == State::Start,
{
    assert(state_after(State::Start, inputs, k) == (State::ReceiveTime { initial, persent }));
}

} // verus!
