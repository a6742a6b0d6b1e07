//! The command grammar: `/later <duration> <message>` and `/at <date> <message>`.
//!
//! A command is a keyword, one space, and the rest of the line. The rest of a
//! `/later` command is a duration token, one space, and the message, which is
//! kept as it was typed. A duration token is a numeral that may end in one of
//! the unit letters `s`, `m`, `h` and `d`; without a letter it counts seconds.

pub mod laws;
pub mod number;

use crate::text::{same_text, split_once, split_once_at};
use self::number::{digit_of, is_digit, parse_unsigned, unsigned_value};
use vstd::prelude::*;
use vstd::string::StrSliceExecFns;

verus! {

/// The unit of a relative delay.
#[derive(Clone, Copy, Debug, PartialEq, Eq, Structural)]
pub enum Unit {
    Seconds,
    Minutes,
    Hours,
    Days,
}

/// A reminder request.
#[derive(Debug, PartialEq, Eq)]
pub enum Command {
    /// Remind after a delay of `amount` units.
    Later { amount: u64, unit: Unit, message: String },
    /// Remind at a date.
    At { date: String, message: String },
}

/// Why a line is not a reminder request.
#[derive(Clone, Copy, Debug, PartialEq, Eq, Structural)]
pub enum Error {
    /// The line has no shape that the grammar knows.
    ParseError,
    /// The keyword is not a command.
    UnknownCommand,
    /// The keyword is a command that is not served yet.
    NotImplemented,
}

/// A reminder request as a mathematical value, its texts as sequences of
/// characters.
pub enum CommandView {
    Later { amount: u64, unit: Unit, message: Seq<char> },
    At { date: Seq<char>, message: Seq<char> },
}

impl View for Command {
    type V = CommandView;

    open spec fn view(&self) -> CommandView {
        match *self {
            Command::Later { amount, unit, message } => CommandView::Later {
                amount,
                unit,
                message: message@,
            },
            Command::At { date, message } => CommandView::At { date: date@, message: message@ },
        }
    }
}

/// The outcome of parsing as a mathematical value.
pub open spec fn outcome(r: Result<Command, Error>) -> Result<CommandView, Error> {
    match r {
        Ok(command) => Ok(command@),
        Err(e) => Err(e),
    }
}

/// The unit that a letter stands for: `s`, `m`, `h` or `d`, in lower case.
pub open spec fn unit_of(c: char) -> Option<Unit> {
    if c == 's' {
        Some(Unit::Seconds)
    } else if c == 'm' {
        Some(Unit::Minutes)
    } else if c == 'h' {
        Some(Unit::Hours)
    } else if c == 'd' {
        Some(Unit::Days)
    } else {
        None
    }
}

/// The delay that a duration token writes. Only the last character decides
/// how the token is read: where it is a digit, the whole token is a numeral
/// of seconds; where it is a unit letter, what stands before it is the
/// numeral. Any other last character leaves the token without a reading, and
/// so does a numeral that cannot be read: `1dd` is none, since `1d` is no
/// numeral, and `1d1` is none, since it ends in a digit.
pub open spec fn amount_of(token: Seq<char>) -> Option<(u64, Unit)> {
    if token.len() == 0 {
        None
    } else if is_digit(token.last()) {
        match unsigned_value(token) {
            Some(amount) => Some((amount, Unit::Seconds)),
            None => None,
        }
    } else {
        match (unit_of(token.last()), unsigned_value(token.drop_last())) {
            (Some(unit), Some(amount)) => Some((amount, unit)),
            _ => None,
        }
    }
}

/// What the rest of a `/later` command asks for: it is cut at its first
/// space into a duration token and the message. A rest without a space has no
/// message and asks for nothing; a rest that ends with that space has an
/// empty one.
pub open spec fn later_of(rest: Seq<char>) -> Result<CommandView, Error> {
    match split_once(rest, ' ') {
        Some((token, message)) => match amount_of(token) {
            Some((amount, unit)) => Ok(CommandView::Later { amount, unit, message }),
            None => Err(Error::ParseError),
        },
        None => Err(Error::ParseError),
    }
}

/// What a line asks for: it is cut at its first space into a keyword and the
/// rest. A line without a space is malformed; a keyword other than `/later`
/// and `/at`, compared letter for letter, is an unknown command.
pub open spec fn command_of(input: Seq<char>) -> Result<CommandView, Error> {
    match split_once(input, ' ') {
        Some((keyword, rest)) => if keyword == "/later"@ {
            later_of(rest)
        } else if keyword == "/at"@ {
            Err(Error::NotImplemented)
        } else {
            Err(Error::UnknownCommand)
        },
        None => Err(Error::ParseError),
    }
}

/// The unit behind a letter.
pub fn unit_for(c: char) -> (r: Option<Unit>)
    ensures
        r == unit_of(c),
{
    if c == 's' {
        Some(Unit::Seconds)
    } else if c == 'm' {
        Some(Unit::Minutes)
    } else if c == 'h' {
        Some(Unit::Hours)
    } else if c == 'd' {
        Some(Unit::Days)
    } else {
        None
    }
}

/// Reads a duration token.
pub fn parse_amount(input: &str) -> (r: Option<(u64, Unit)>)
    ensures
        r == amount_of(input@),
{
    let len = input.unicode_len();
    if len == 0 {
        return None;
    }
    let last = input.get_char(len - 1);
    if digit_of(last).is_some() {
        match parse_unsigned(input) {
            Some(amount) => Some((amount, Unit::Seconds)),
            None => None,
        }
    } else {
        let Some(unit) = unit_for(last) else {
            return None;
        };
        match parse_unsigned(input.substring_char(0, len - 1)) {
            Some(amount) => Some((amount, unit)),
            None => None,
        }
    }
}

/// Reads the rest of a `/later` command: a duration token, a space, the
/// message.
pub fn parse_later(input: &str) -> (r: Result<Command, Error>)
    ensures
        outcome(r) == later_of(input@),
{
    let Some((token, message)) = split_once_at(input, ' ') else {
        return Err(Error::ParseError);
    };
    let Some((amount, unit)) = parse_amount(token) else {
        return Err(Error::ParseError);
    };
    Ok(Command::Later { amount, unit, message: message.to_string() })
}

/// Reads the rest of an `/at` command. Dates are not read yet: every line
/// gets the same answer.
pub fn parse_at(_input: &str) -> (r: Result<Command, Error>)
    ensures
        r == Err::<Command, Error>(Error::NotImplemented),
{
    Err(Error::NotImplemented)
}

/// Cuts a line into its keyword and the rest, at the first space.
pub fn extract_command(input: &str) -> (r: Option<(&str, &str)>)
    ensures
        match r {
            Some((keyword, rest)) => split_once(input@, ' ') == Some((keyword@, rest@)),
            None => split_once(input@, ' ') is None,
        },
{
    split_once_at(input, ' ')
}

/// Reads a line as a reminder request.
pub fn parse(input: &str) -> (r: Result<Command, Error>)
    ensures
        outcome(r) == command_of(input@),
{
    let Some((command, rest)) = extract_command(input) else {
        return Err(Error::ParseError);
    };
    if same_text(command, "/later") {
        parse_later(rest)
    } else if same_text(command, "/at") {
        parse_at(rest)
    } else {
        Err(Error::UnknownCommand)
    }
}

} // verus!
