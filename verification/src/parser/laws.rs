//! What holds of the grammar as a whole, proved from its definition.

use super::number::{is_digit, lemma_numeral_of_writes, lemma_unsigned_value_of_numeral, numeral_of};
use super::{amount_of, command_of, outcome, unit_of, Command, CommandView, Error, Unit};
use crate::text::{lemma_split_once_joins, lemma_split_once_some, split_once};
use vstd::prelude::*;

verus! {

/// A line built from a keyword, a space and a rest: the keyword, which holds
/// no space, and the rest are what the line is cut into.
pub proof fn lemma_line_splits(keyword: Seq<char>, rest: Seq<char>)
    requires
        !keyword.contains(' '),
    ensures
        split_once(keyword + seq![' '] + rest, ' ') == Some((keyword, rest)),
{
    lemma_split_once_joins(keyword + seq![' '] + rest, ' ', keyword, rest);
}

/// The keyword `/later` holds no space, and is not the keyword `/at`.
pub proof fn lemma_keywords()
    ensures
        !"/later"@.contains(' '),
        !"/at"@.contains(' '),
        "/later"@ != "/at"@,
{
    reveal_strlit("/later");
    reveal_strlit("/at");
    assert("/later"@.len() == 6);
    assert("/at"@.len() == 3);
}

/// The numeral of an amount that fits in 64 bits is a duration token for that
/// amount in seconds; followed by a unit letter, for that amount in the
/// letter's unit.
pub proof fn law_amount_of_numeral(n: nat, letter: char)
    requires
        n <= u64::MAX,
        unit_of(letter) is Some,
    ensures
        amount_of(numeral_of(n)) == Some((n as u64, Unit::Seconds)),
        amount_of(numeral_of(n).push(letter)) == Some((n as u64, unit_of(letter)->0)),
{
    lemma_numeral_of_writes(n);
    lemma_unsigned_value_of_numeral(n);
    let bare = numeral_of(n);
    assert(is_digit(bare.last()));
    let token = bare.push(letter);
    assert(token.last() == letter);
    assert(token.drop_last() =~= bare);
}

/// The numeral of an amount that does not fit in 64 bits is no duration
/// token, with or without a unit letter.
pub proof fn law_amount_too_large(n: nat, letter: char)
    requires
        n > u64::MAX,
        unit_of(letter) is Some,
    ensures
        amount_of(numeral_of(n)) is None,
        amount_of(numeral_of(n).push(letter)) is None,
{
    lemma_numeral_of_writes(n);
    lemma_unsigned_value_of_numeral(n);
    let bare = numeral_of(n);
    assert(is_digit(bare.last()));
    let token = bare.push(letter);
    assert(token.last() == letter);
    assert(token.drop_last() =~= bare);
}

/// A line without a space is malformed, whatever it holds.
pub proof fn law_line_without_space(input: Seq<char>)
    requires
        !input.contains(' '),
    ensures
        command_of(input) == Err::<CommandView, Error>(Error::ParseError),
{
    lemma_split_once_some(input, ' ');
}

/// A line that starts with a keyword other than `/later` and `/at` is an
/// unknown command, whatever follows the keyword.
pub proof fn law_unknown_keyword(keyword: Seq<char>, rest: Seq<char>)
    requires
        !keyword.contains(' '),
        keyword != "/later"@,
        keyword != "/at"@,
    ensures
        command_of(keyword + seq![' '] + rest) == Err::<CommandView, Error>(Error::UnknownCommand),
{
    lemma_line_splits(keyword, rest);
}

/// An `/at` line is not served yet, whatever follows the keyword.
pub proof fn law_at_line(rest: Seq<char>)
    ensures
        command_of("/at"@ + seq![' '] + rest) == Err::<CommandView, Error>(Error::NotImplemented),
{
    lemma_keywords();
    lemma_line_splits("/at"@, rest);
}

/// A `/later` line with a duration token and a message asks for a reminder
/// with the token's delay and the message as it stands, be it empty or full
/// of spaces, where the token can be read, and is malformed where it cannot.
pub proof fn law_later_line(token: Seq<char>, message: Seq<char>)
    requires
        !token.contains(' '),
    ensures
        command_of("/later"@ + seq![' '] + token + seq![' '] + message) == match amount_of(token) {
            Some((amount, unit)) => Ok::<CommandView, Error>(
                CommandView::Later { amount, unit, message },
            ),
            None => Err::<CommandView, Error>(Error::ParseError),
        },
{
    lemma_keywords();
    let rest = token + seq![' '] + message;
    assert("/later"@ + seq![' '] + token + seq![' '] + message =~= "/later"@ + seq![' '] + rest);
    lemma_line_splits("/later"@, rest);
    lemma_line_splits(token, message);
}

/// Only such a line is read as a request: where a line is, it is `/later`, a
/// space, a duration token that can be read, a space, and the message of the
/// request. The proof hands back the token.
pub proof fn law_request_is_later_line(input: Seq<char>) -> (token: Seq<char>)
    requires
        command_of(input) is Ok,
    ensures
        !token.contains(' '),
        command_of(input) matches Ok(CommandView::Later { amount, unit, message }) && amount_of(
            token,
        ) == Some((amount, unit)) && input == "/later"@ + seq![' '] + token + seq![' '] + message,
{
    let (keyword, rest) = split_once(input, ' ')->0;
    let (token, message) = split_once(rest, ' ')->0;
    lemma_split_once_joins(input, ' ', keyword, rest);
    lemma_split_once_joins(rest, ' ', token, message);
    assert(input =~= "/later"@ + seq![' '] + token + seq![' '] + message);
    token
}

/// A `/later` line whose duration token is not followed by a space has no
/// message and is malformed, even where the token can be read.
pub proof fn law_later_without_message(token: Seq<char>)
    requires
        !token.contains(' '),
    ensures
        command_of("/later"@ + seq![' '] + token) == Err::<CommandView, Error>(Error::ParseError),
{
    lemma_keywords();
    lemma_line_splits("/later"@, token);
    lemma_split_once_some(token, ' ');
}

/// No line is read as an `/at` request.
pub proof fn law_never_at(input: Seq<char>)
    ensures
        !(command_of(input) matches Ok(CommandView::At { .. })),
{
}

/// The outcome depends on the characters of the line and on nothing else:
/// whatever parsing answers for a line, it answers for it every time, with
/// the same error or with the same amount, unit and message.
pub proof fn law_parse_is_a_function(
    input: Seq<char>,
    first: Result<Command, Error>,
    second: Result<Command, Error>,
)
    requires
        outcome(first) == command_of(input),
        outcome(second) == command_of(input),
    ensures
        outcome(first) == outcome(second),
        first is Ok <==> second is Ok,
        first matches Err(e) ==> second == Err::<Command, Error>(e),
{
}

} // verus!
