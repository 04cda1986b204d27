//! The port that the service listens on.

use vstd::prelude::*;
use crate::text::{chars_of, viewed};

verus! {

/// The port where none is configured.
pub const DEFAULT_PORT: u16 = 8080;

/// Whether `c` is one of the ten decimal digits.
pub open spec fn is_digit(c: char) -> bool {
    '0' <= c <= '9'
}

/// The number that the digit `c` stands for.
pub open spec fn digit_value(c: char) -> nat {
    (c as u32 - '0' as u32) as nat
}

/// Whether `text` holds decimal digits only.
pub open spec fn all_digits(text: Seq<char>) -> bool {
    forall|i: int| 0 <= i < text.len() ==> is_digit(#[trigger] text[i])
}

/// The number that the decimal digits `digits` write.
pub open spec fn decimal(digits: Seq<char>) -> nat
    decreases digits.len(),
{
    if digits.len() == 0 {
        0
    } else {
        decimal(digits.drop_last()) * 10 + digit_value(digits.last())
    }
}

/// `text` without the plus sign that may stand in front of a number.
pub open spec fn unsigned(text: Seq<char>) -> Seq<char> {
    if text.len() > 0 && text[0] == '+' {
        text.skip(1)
    } else {
        text
    }
}

/// The port that `text` writes, if it writes one: decimal digits, at least
/// one, with or without a plus sign in front and nothing else around them,
/// for a number that is no larger than 65535.
pub open spec fn port_written(text: Seq<char>) -> Option<u16> {
    let digits = unsigned(text);
    if digits.len() > 0 && all_digits(digits) && decimal(digits) <= u16::MAX {
        Some(decimal(digits) as u16)
    } else {
        None
    }
}

/// The port to listen on where the configuration holds `setting`: the port
/// that the setting writes, and the default where there is no setting or it
/// writes no port.
pub open spec fn port_for(setting: Option<Seq<char>>) -> u16 {
    match setting {
        Some(text) => match port_written(text) {
            Some(port) => port,
            None => DEFAULT_PORT,
        },
        None => DEFAULT_PORT,
    }
}

/// A number is no smaller than the number that its leading digits write.
proof fn lemma_decimal_prefix(digits: Seq<char>, len: int)
    requires
        0 <= len <= digits.len(),
    ensures
        decimal(digits.take(len)) <= decimal(digits),
    decreases digits.len(),
{
    if len == digits.len() {
        assert(digits.take(len) == digits);
    } else {
        assert(digits.drop_last().take(len) == digits.take(len));
        lemma_decimal_prefix(digits.drop_last(), len);
    }
}

/// Reads a port number.
pub fn parse_port(text: &str) -> (port: Option<u16>)
    ensures
        port == port_written(text@),
{
    let chars = chars_of(text);
    let n = chars.len();
    let start: usize = if n > 0 && chars[0] == '+' {
        1
    } else {
        0
    };
    let ghost digits = unsigned(text@);
    assert(digits == text@.skip(start as int));
    if start == n {
        return None;
    }
    let mut value: u32 = 0;
    let mut i: usize = start;
    while i < n
        invariant
            start <= i <= n,
            n == chars.len(),
            chars@ == text@,
            digits == unsigned(text@),
            digits == text@.skip(start as int),
            all_digits(digits.take(i - start)),
            value == decimal(digits.take(i - start)),
            value <= u16::MAX,
        decreases n - i,
    {
        let c = chars[i];
        proof {
            let seen = digits.take(i - start + 1);
            assert(seen.drop_last() == digits.take(i - start));
            assert(seen.last() == c);
        }
        if c < '0' || c > '9' {
            assert(digits[i - start] == c);
            return None;
        }
        value = value * 10 + (c as u32 - '0' as u32);
        if value > 65535 {
            proof {
                lemma_decimal_prefix(digits, i - start + 1);
            }
            return None;
        }
        i += 1;
    }
    assert(digits.take(n - start) == digits);
    Some(value as u16)
}

/// The port to listen on, given the configured setting, if there is one.
pub fn get_port(setting: Option<&str>) -> (port: u16)
    ensures
        port == port_for(viewed(setting)),
{
    match setting {
        Some(text) => match parse_port(text) {
            Some(port) => port,
            None => DEFAULT_PORT,
        },
        None => DEFAULT_PORT,
    }
}

} // verus!
