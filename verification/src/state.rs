//! The states of one conversation.

use vstd::prelude::*;

verus! {

/// Where one conversation stands.
///
/// The fields of a state hold the numbers that the user has already sent and
/// that were accepted: a state is only ever entered with numbers that were
/// read from earlier messages.
#[derive(Clone, Copy, Debug, PartialEq, Eq, Structural)]
pub enum State {
    /// Nothing has been said yet, or the last conversation has ended.
    Start,
    /// The deposit has been asked for.
    ReceiveInitial,
    /// The deposit is known and the interest rate has been asked for.
    ReceivePersent { initial: i32 },
    /// Deposit and rate are known and the number of periods has been asked for.
    ReceiveTime { initial: i32, persent: i32 },
}

impl Default for State {
    /// A conversation begins in `Start`.
    fn default() -> (state: Self)
        ensures
            state == State::Start,
    {
        State::Start
    }
}

} // verus!
