//! What a dispatch reports in place of a result: the warning for the script, and
//! the faults of a registration.

use vstd::prelude::*;
use vstd::string::StringExecFns;

verus! {

/// The severity of a warning, in the engine's numbering.
pub const E_WARNING: i32 = 2;

/// A diagnostic for the engine to report.
#[derive(Debug, PartialEq, Eq)]
pub struct Warning {
    pub level: i32,
    pub message: String,
}

/// Why a frame cannot be dispatched. Either is a fault of the registration, not of
/// the script.
#[derive(Debug, Clone, Copy, PartialEq, Eq)]
pub enum Fault {
    /// The sentinel cell of the frame names no registration.
    HandlerIsNull,
    /// The frame requires another number of arguments than the registration that
    /// its sentinel cell names.
    RequiredCountMismatch,
}

/// The character of a decimal digit.
pub open spec fn digit(d: nat) -> char {
    if d == 0 {
        '0'
    } else if d == 1 {
        '1'
    } else if d == 2 {
        '2'
    } else if d == 3 {
        '3'
    } else if d == 4 {
        '4'
    } else if d == 5 {
        '5'
    } else if d == 6 {
        '6'
    } else if d == 7 {
        '7'
    } else if d == 8 {
        '8'
    } else {
        '9'
    }
}

/// A number in decimal, without leading zeros.
pub open spec fn decimal(n: nat) -> Seq<char>
    decreases n,
{
    if n < 10 {
        seq![digit(n)]
    } else {
        decimal(n / 10).push(digit(n % 10))
    }
}

/// What the engine is told when a call passes `actual` arguments and `required`
/// are required.
pub open spec fn arity_warning(required: nat, actual: nat) -> Seq<char> {
    "expects at least "@ + decimal(required) + " parameter(s), "@ + decimal(actual) + " given"@
}

fn digit_str(d: u32) -> (text: &'static str)
    requires
        d < 10,
    ensures
        text@ == seq![digit(d as nat)],
{
    proof {
        reveal_strlit("0");
        reveal_strlit("1");
        reveal_strlit("2");
        reveal_strlit("3");
        reveal_strlit("4");
        reveal_strlit("5");
        reveal_strlit("6");
        reveal_strlit("7");
        reveal_strlit("8");
        reveal_strlit("9");
    }
    let text = match d {
        0 => "0",
        1 => "1",
        2 => "2",
        3 => "3",
        4 => "4",
        5 => "5",
        6 => "6",
        7 => "7",
        8 => "8",
        _ => "9",
    };
    assert(text@ =~= seq![digit(d as nat)]);
    text
}

fn push_decimal(text: &mut String, n: u32)
    ensures
        final(text)@ == old(text)@ + decimal(n as nat),
    decreases n,
{
    if n >= 10 {
        push_decimal(text, n / 10);
    }
    text.append(digit_str(n % 10));
    assert(text@ =~= old(text)@ + decimal(n as nat));
}

/// The text of the warning for a call that passes `actual` arguments where
/// `required` are required.
pub fn arity_message(required: u32, actual: u32) -> (message: String)
    ensures
        message@ == arity_warning(required as nat, actual as nat),
{
    let mut message = "expects at least ".to_string();
    push_decimal(&mut message, required);
    message.append(" parameter(s), ");
    push_decimal(&mut message, actual);
    message.append(" given");
    assert(message@ =~= arity_warning(required as nat, actual as nat));
    message
}

} // verus!
