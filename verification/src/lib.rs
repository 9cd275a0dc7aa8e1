//! Dialogue engine of a compound-interest chat bot.
//!
//! A conversation walks through four states: it is greeted, asked for the
//! deposit, asked for the interest rate, asked for the number of compounding
//! periods, and then receives a report. This crate holds the rules of that
//! conversation: how a message is read as a number, which state follows
//! which, what is answered, and how the states of many conversations are
//! kept apart. Sending messages and computing the final amount in floating
//! point are left to the program around it.
//!
//! * [`decimal`] reads and writes 32-bit numbers in decimal.
//! * [`state`] and [`reply`] hold the states of a conversation and the
//!   answers of the bot.
//! * [`dialogue`] is the transition function, [`trace`] what holds of whole
//!   conversations.
//! * [`store`] keeps the states of many conversations apart.

pub mod decimal;
pub mod dialogue;
pub mod reply;
pub mod state;
pub mod store;
pub mod trace;

pub use decimal::{parse_integer, render_integer};
pub use dialogue::{handle, receive_initial, receive_persent, receive_time, start, Turn};
pub use reply::{report_text, Reply};
pub use state::State;
pub use store::ConversationStore;
