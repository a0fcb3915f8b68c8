//! Textual events queued for display to the player.

use vstd::prelude::*;
use vstd::string::StringExecFns;

verus! {

/// Represents different styles of message, indicating how text should
/// be displayed.
#[derive(Clone, Copy, Debug, PartialEq, Eq, Structural)]
pub enum MessageType {
    /// An ordinary informational message.
    Normal,
    /// A message warning about something harmful.
    Danger,
    /// A message reporting something helpful.
    Benefit,
    /// Low-importance background chatter.
    Background,
}

/// The decimal rendering of a number: its digits, most significant first.
pub open spec fn spec_decimal_digits(n: nat) -> Seq<char>
    decreases n,
{
    if n < 10 {
        spec_digit_text(n)
    } else {
        spec_decimal_digits(n / 10) + spec_digit_text(n % 10)
    }
}

/// The text of a single decimal digit.
pub open spec fn spec_digit_text(d: nat) -> Seq<char> {
    if d == 0 {
        "0"@
    } else if d == 1 {
        "1"@
    } else if d == 2 {
        "2"@
    } else if d == 3 {
        "3"@
    } else if d == 4 {
        "4"@
    } else if d == 5 {
        "5"@
    } else if d == 6 {
        "6"@
    } else if d == 7 {
        "7"@
    } else if d == 8 {
        "8"@
    } else {
        "9"@
    }
}

/// Appends the decimal rendering of `n` to a string.
pub fn push_decimal(s: &mut String, n: u128)
    ensures
        final(s)@ == old(s)@ + spec_decimal_digits(n as nat),
    decreases n,
{
    if n >= 10 {
        proof {
            assert(n / 10 < n) by (nonlinear_arith)
                requires
                    n >= 10,
            ;
        }
        push_decimal(s, n / 10);
    }
    let digit = n % 10;
    let text: &str = if digit == 0 {
        "0"
    } else if digit == 1 {
        "1"
    } else if digit == 2 {
        "2"
    } else if digit == 3 {
        "3"
    } else if digit == 4 {
        "4"
    } else if digit == 5 {
        "5"
    } else if digit == 6 {
        "6"
    } else if digit == 7 {
        "7"
    } else if digit == 8 {
        "8"
    } else {
        "9"
    };
    s.append(text);
    proof {
        if n >= 10 {
            assert(old(s)@ + spec_decimal_digits((n / 10) as nat) + spec_digit_text(
                (n % 10) as nat,
            ) =~= old(s)@ + spec_decimal_digits(n as nat));
        }
    }
}

/// A message that can be displayed to the player.
#[derive(Clone, Debug)]
pub struct Message {
    /// The contents of the message.
    pub contents: String,
    /// How the message should be displayed to the player.
    pub message_type: MessageType,
}

} // verus!
