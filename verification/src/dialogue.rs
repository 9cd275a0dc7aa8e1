//! The rules of one conversation: which state follows which, and what is
//! answered.
//!
//! A turn takes the state of the conversation and the text of the incoming
//! message, if it has one, and gives the next state and the reply. Nothing
//! else enters into it. A message that cannot be read as a number while a
//! number is awaited leaves the state as it is and is answered with the
//! correction of that state.

use vstd::prelude::*;
use crate::decimal::{parse_integer, parse_spec};
use crate::reply::{view_of, Reply};
use crate::state::State;

verus! {

/// The outcome of one turn: the state the conversation moves to once the
/// reply has been delivered, and the reply.
#[derive(Clone, Copy, Debug, PartialEq, Eq, Structural)]
pub struct Turn {
    pub next: State,
    pub reply: Reply,
}

/// The number that an incoming message holds: that of its text, and none
/// where the message has no text or the text is not a 32-bit decimal number.
pub open spec fn number_of(input: Option<Seq<char>>) -> Option<i32> {
    match input {
        Some(text) => parse_spec(text),
        None => None,
    }
}

/// The reply of `state` to a message that holds no number: the greeting in
/// `Start`, which takes every message alike, and in a state that awaits a
/// number its correction.
pub open spec fn reply_without_number(state: State) -> Reply {
    match state {
        State::Start => Reply::AskInitial,
        State::ReceiveInitial => Reply::PlainTextWanted,
        State::ReceivePersent { .. } => Reply::DigitWanted,
        State::ReceiveTime { .. } => Reply::NumberWanted,
    }
}

/// One turn of the conversation.
///
/// * `Start` greets and asks for the deposit, whatever the message holds.
/// * A state that awaits a number moves on when the message holds one and
///   keeps the number; the last of them ends the conversation with a report
///   and returns to `Start`.
/// * Otherwise the state stays and its correction is sent.
pub open spec fn step(state: State, input: Option<Seq<char>>) -> Turn {
    match state {
        State::Start => Turn { next: State::ReceiveInitial, reply: Reply::AskInitial },
        State::ReceiveInitial => match number_of(input) {
            Some(initial) => Turn {
                next: State::ReceivePersent { initial },
                reply: Reply::AskPersent,
            },
            None => Turn { next: state, reply: reply_without_number(state) },
        },
        State::ReceivePersent { initial } => match number_of(input) {
            Some(persent) => Turn {
                next: State::ReceiveTime { initial, persent },
                reply: Reply::AskTime,
            },
            None => Turn { next: state, reply: reply_without_number(state) },
        },
        State::ReceiveTime { initial, persent } => match number_of(input) {
            Some(time) => Turn {
                next: State::Start,
                reply: Reply::Report { initial, persent, time },
            },
            None => Turn { next: state, reply: reply_without_number(state) },
        },
    }
}

/// Reads the number that a message holds, if any.
pub fn read_number(text: Option<&str>) -> (number: Option<i32>)
    ensures
        number == number_of(view_of(text)),
{
    match text {
        Some(t) => parse_integer(t),
        None => None,
    }
}

/// The turn taken on the first message of a conversation: the greeting.
pub fn start() -> (turn: Turn)
    ensures
        turn.next == State::ReceiveInitial,
        turn.reply == Reply::AskInitial,
{
    Turn { next: State::ReceiveInitial, reply: Reply::AskInitial }
}

/// The turn taken while the deposit is awaited.
pub fn receive_initial(text: Option<&str>) -> (turn: Turn)
    ensures
        turn == step(State::ReceiveInitial, view_of(text)),
{
    match read_number(text) {
        Some(initial) => Turn { next: State::ReceivePersent { initial }, reply: Reply::AskPersent },
        None => Turn { next: State::ReceiveInitial, reply: Reply::PlainTextWanted },
    }
}

/// The turn taken while the interest rate is awaited; `initial` is the
/// deposit that the conversation holds.
pub fn receive_persent(initial: i32, text: Option<&str>) -> (turn: Turn)
    ensures
        turn == step(State::ReceivePersent { initial }, view_of(text)),
{
    match read_number(text) {
        Some(persent) => Turn {
            next: State::ReceiveTime { initial, persent },
            reply: Reply::AskTime,
        },
        None => Turn { next: State::ReceivePersent { initial }, reply: Reply::DigitWanted },
    }
}

/// The turn taken while the number of periods is awaited; `initial` and
/// `persent` are the deposit and the rate that the conversation holds.
pub fn receive_time(initial: i32, persent: i32, text: Option<&str>) -> (turn: Turn)
    ensures
        turn == step(State::ReceiveTime { initial, persent }, view_of(text)),
{
    match read_number(text) {
        Some(time) => Turn {
            next: State::Start,
            reply: Reply::Report { initial, persent, time },
        },
        None => Turn { next: State::ReceiveTime { initial, persent }, reply: Reply::NumberWanted },
    }
}

/// Takes one turn: picks the rule of `state` and applies it to the text of
/// the incoming message, which is `None` for a message without text.
pub fn handle(state: State, text: Option<&str>) -> (turn: Turn)
    ensures
        turn == step(state, view_of(text)),
{
    match state {
        State::Start => start(),
        State::ReceiveInitial => receive_initial(text),
        State::ReceivePersent { initial } => receive_persent(initial, text),
        State::ReceiveTime { initial, persent } => receive_time(initial, persent, text),
    }
}

} // verus!
