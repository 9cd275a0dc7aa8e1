//! What the bot answers, and the text of each answer.

use vstd::prelude::*;
use vstd::string::StringExecFns;
use crate::decimal::{decimal_text, render_integer};

verus! {

/// The greeting, which asks for the deposit.
pub const GREETING: &'static str =
    "Привет! Это бот для подсчета сложных процентов. Напишите начальную сумму вклада.";

/// The question for the interest rate.
pub const RATE_QUESTION: &'static str = "Теперь надо узнать процент под который вы внесли сумму.";

/// The question for the number of compounding periods.
pub const PERIODS_QUESTION: &'static str = "На какой срок вы внесли деньги? Укажите в месяцах.";

/// The correction sent while the deposit is awaited.
pub const PLAIN_TEXT_WANTED: &'static str = "Send me plain text.";

/// The correction sent while the interest rate is awaited.
pub const DIGIT_WANTED: &'static str = "Пришлите цифру.";

/// The correction sent while the number of periods is awaited.
pub const NUMBER_WANTED: &'static str = "Send me a number.";

/// The answer to one message.
///
/// The three questions and the three corrections are fixed texts. The report
/// carries the three numbers of the conversation; the final amount is
/// computed from them in floating point by the caller.
#[derive(Clone, Copy, Debug, PartialEq, Eq, Structural)]
pub enum Reply {
    /// The greeting, which asks for the deposit.
    AskInitial,
    /// Asks for the interest rate.
    AskPersent,
    /// Asks for the number of compounding periods.
    AskTime,
    /// The correction sent while the deposit is awaited.
    PlainTextWanted,
    /// The correction sent while the interest rate is awaited.
    DigitWanted,
    /// The correction sent while the number of periods is awaited.
    NumberWanted,
    /// The closing report on deposit, rate in percent and number of periods.
    Report { initial: i32, persent: i32, time: i32 },
}

/// The characters of a message text, where there is one.
pub open spec fn view_of(text: Option<&str>) -> Option<Seq<char>> {
    match text {
        Some(t) => Some(t@),
        None => None,
    }
}

/// The text of the report on a conversation: one line each for the deposit,
/// the rate and the periods, and a last line that ends with `amount`, the
/// final amount as the caller wrote it.
pub open spec fn report_spec(initial: i32, persent: i32, time: i32, amount: Seq<char>) -> Seq<
    char,
> {
    "Deposit amount: "@ + decimal_text(initial as int) + "\nInterest rate: "@ + decimal_text(
        persent as int,
    ) + "%\nCompounding periods: "@ + decimal_text(time as int) + "\nFinal amount: "@ + amount
}

impl Reply {
    /// The fixed text of a question or a correction; a report has none.
    pub open spec fn prompt_spec(self) -> Option<Seq<char>> {
        match self {
            Reply::AskInitial => Some(GREETING@),
            Reply::AskPersent => Some(RATE_QUESTION@),
            Reply::AskTime => Some(PERIODS_QUESTION@),
            Reply::PlainTextWanted => Some(PLAIN_TEXT_WANTED@),
            Reply::DigitWanted => Some(DIGIT_WANTED@),
            Reply::NumberWanted => Some(NUMBER_WANTED@),
            Reply::Report { .. } => None,
        }
    }

    /// The whole text of the reply, given the final amount as text. Only a
    /// report makes use of `amount`.
    pub open spec fn text_spec(self, amount: Seq<char>) -> Seq<char> {
        match self {
            Reply::Report { initial, persent, time } => report_spec(initial, persent, time, amount),
            _ => self.prompt_spec()->0,
        }
    }

    /// The fixed text of a question or a correction, and `None` for a report.
    pub fn prompt(&self) -> (text: Option<&'static str>)
        ensures
            view_of(text) == self.prompt_spec(),
    {
        match self {
            Reply::AskInitial => Some(GREETING),
            Reply::AskPersent => Some(RATE_QUESTION),
            Reply::AskTime => Some(PERIODS_QUESTION),
            Reply::PlainTextWanted => Some(PLAIN_TEXT_WANTED),
            Reply::DigitWanted => Some(DIGIT_WANTED),
            Reply::NumberWanted => Some(NUMBER_WANTED),
            Reply::Report { .. } => None,
        }
    }

    /// The text to send for this reply. `amount` is the final amount as text;
    /// it ends the report and is left out of every other reply.
    pub fn text(&self, amount: &str) -> (text: String)
        ensures
            text@ == self.text_spec(amount@),
    {
        match self {
            Reply::Report { initial, persent, time } => report_text(
                *initial,
                *persent,
                *time,
                amount,
            ),
            _ => {
                let prompt = self.prompt();
                match prompt {
                    Some(p) => String::from_str(p),
                    None => String::new(),
                }
            },
        }
    }
}

/// Writes the report on a conversation; `amount` is the final amount as text.
pub fn report_text(initial: i32, persent: i32, time: i32, amount: &str) -> (text: String)
    ensures
        text@ == report_spec(initial, persent, time, amount@),
{
    let mut text = String::from_str("Deposit amount: ");
    let initial_text = render_integer(initial);
    text.append(initial_text.as_str());
    text.append("\nInterest rate: ");
    let persent_text = render_integer(persent);
    text.append(persent_text.as_str());
    text.append("%\nCompounding periods: ");
    let time_text = render_integer(time);
    text.append(time_text.as_str());
    text.append("\nFinal amount: ");
    text.append(amount);
    text
}

} // verus!
