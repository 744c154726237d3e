//! Diagnostic messages.
//!
//! Failures are reported as text. A failed compile or link has three
//! outcomes, told apart by the message alone: the driver kept a log, it kept
//! none, or what it kept is no valid text.

use vstd::prelude::*;
use vstd::string::StringExecFns;
use vstd::utf8::{decode_utf8, valid_utf8};

verus! {

#[verifier::external_type_specification]
#[verifier::external_body]
pub struct ExFromUtf8Error(std::string::FromUtf8Error);

/// `String::from_utf8`: the bytes become a string exactly when they are valid
/// UTF-8, and the string then holds the characters that they encode.
#[verifier::external_body]
pub(crate) fn string_from_utf8(bytes: Vec<u8>) -> (text: Result<String, std::string::FromUtf8Error>)
    ensures
        text is Ok <==> valid_utf8(bytes@),
        text matches Ok(s) ==> s@ == decode_utf8(bytes@),
{
    String::from_utf8(bytes)
}

/// The message of a failure for which the driver kept no info log.
/// `action` says what failed, as in "link program".
pub open spec fn failure_without_log(action: Seq<char>) -> Seq<char> {
    "Failed to "@ + action + ", no info log available."@
}

/// The message of a failure whose info log is `log`: the log follows the
/// action where it is valid UTF-8, and is given up otherwise.
pub open spec fn failure_with_log(action: Seq<char>, log: Seq<u8>) -> Seq<char> {
    if valid_utf8(log) {
        "Failed to "@ + action + ": "@ + decode_utf8(log)
    } else {
        "Failed to "@ + action + ", info log cannot be parsed to UTF-8."@
    }
}

/// The message for a uniform name that the program does not know.
/// `name` is the name as diagnostics should show it.
pub open spec fn invalid_uniform_name(name: Seq<char>) -> Seq<char> {
    "Invalid uniform name: "@ + name
}

/// The message for a uniform value that the driver rejected.
/// `value` is the value as diagnostics should show it.
pub open spec fn invalid_uniform_value(value: Seq<char>) -> Seq<char> {
    "Invalid uniform value: "@ + value
}

/// Builds the message of a failure without an info log.
pub fn describe_failure_without_log(action: &str) -> (message: String)
    ensures
        message@ == failure_without_log(action@),
{
    let mut message = String::from_str("Failed to ");
    message.append(action);
    message.append(", no info log available.");
    message
}

/// Builds the message of a failure from the bytes of its info log.
pub fn describe_failure_with_log(action: &str, log: Vec<u8>) -> (message: String)
    ensures
        message@ == failure_with_log(action@, log@),
{
    let mut message = String::from_str("Failed to ");
    message.append(action);
    match string_from_utf8(log) {
        Ok(text) => {
            message.append(": ");
            message.append(text.as_str());
        },
        Err(_) => {
            message.append(", info log cannot be parsed to UTF-8.");
        },
    }
    message
}

/// Builds the message for an unknown uniform name.
pub fn describe_invalid_uniform_name(name: &str) -> (message: String)
    ensures
        message@ == invalid_uniform_name(name@),
{
    let mut message = String::from_str("Invalid uniform name: ");
    message.append(name);
    message
}

/// Builds the message for a rejected uniform value.
pub fn describe_invalid_uniform_value(value: &str) -> (message: String)
    ensures
        message@ == invalid_uniform_value(value@),
{
    let mut message = String::from_str("Invalid uniform value: ");
    message.append(value);
    message
}

/// The character of one decimal digit.
pub open spec fn digit(d: nat) -> char {
    if d == 0 {
        '0'
    } else if d == 1 {
        '1'
    } else if d == 2 {
        '2'
    } else if d == 3 {
        '3'
    } else if d == 4 {
        '4'
    } else if d == 5 {
        '5'
    } else if d == 6 {
        '6'
    } else if d == 7 {
        '7'
    } else if d == 8 {
        '8'
    } else {
        '9'
    }
}

/// The decimal digits of a natural number, without leading zeros.
pub open spec fn digits(n: nat) -> Seq<char>
    decreases n,
{
    if n < 10 {
        seq![digit(n)]
    } else {
        digits(n / 10).push(digit(n % 10))
    }
}

/// An integer in decimal, with a minus sign where it is negative.
pub open spec fn decimal(value: int) -> Seq<char> {
    if value < 0 {
        seq!['-'] + digits((-value) as nat)
    } else {
        digits(value as nat)
    }
}

fn digit_text(d: u64) -> (shown: &'static str)
    requires
        d < 10,
    ensures
        shown@ == seq![digit(d as nat)],
{
    proof {
        reveal_strlit("0");
        reveal_strlit("1");
        reveal_strlit("2");
        reveal_strlit("3");
        reveal_strlit("4");
        reveal_strlit("5");
        reveal_strlit("6");
        reveal_strlit("7");
        reveal_strlit("8");
        reveal_strlit("9");
    }
    let shown = if d == 0 {
        "0"
    } else if d == 1 {
        "1"
    } else if d == 2 {
        "2"
    } else if d == 3 {
        "3"
    } else if d == 4 {
        "4"
    } else if d == 5 {
        "5"
    } else if d == 6 {
        "6"
    } else if d == 7 {
        "7"
    } else if d == 8 {
        "8"
    } else {
        "9"
    };
    assert(shown@ =~= seq![digit(d as nat)]);
    shown
}

fn append_digits(text: &mut String, n: u64)
    ensures
        final(text)@ == old(text)@ + digits(n as nat),
    decreases n,
{
    if n >= 10 {
        append_digits(text, n / 10);
    }
    text.append(digit_text(n % 10));
    assert(final(text)@ =~= old(text)@ + digits(n as nat));
}

/// Shows an integer in decimal, as diagnostics show the value of an integer
/// uniform.
pub fn decimal_text(value: i32) -> (shown: String)
    ensures
        shown@ == decimal(value as int),
{
    let mut shown = String::new();
    if value < 0 {
        proof {
            reveal_strlit("-");
        }
        shown.append("-");
        assert(shown@ =~= seq!['-']);
        append_digits(&mut shown, (-(value as i64)) as u64);
    } else {
        append_digits(&mut shown, value as u64);
        assert(shown@ =~= digits(value as nat));
    }
    shown
}

/// Every failure message has text in it, whatever the action and the log.
pub proof fn lemma_failure_messages_nonempty(action: Seq<char>, log: Seq<u8>)
    ensures
        failure_without_log(action).len() > 0,
        failure_with_log(action, log).len() > 0,
{
    reveal_strlit("Failed to ");
}

/// Every uniform diagnostic has text in it, whatever the name or value.
pub proof fn lemma_uniform_messages_nonempty(shown: Seq<char>)
    ensures
        invalid_uniform_name(shown).len() > 0,
        invalid_uniform_value(shown).len() > 0,
{
    reveal_strlit("Invalid uniform name: ");
    reveal_strlit("Invalid uniform value: ");
}

/// The message for an invalid name is never the message for an invalid
/// value: they differ in their seventeenth character.
pub proof fn lemma_uniform_messages_differ(name: Seq<char>, value: Seq<char>)
    ensures
        invalid_uniform_name(name) != invalid_uniform_value(value),
{
    reveal_strlit("Invalid uniform name: ");
    reveal_strlit("Invalid uniform value: ");
    assert(invalid_uniform_name(name)[16] == 'n');
    assert(invalid_uniform_value(value)[16] == 'v');
}

} // verus!
