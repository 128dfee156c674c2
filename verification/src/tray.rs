//! Tray tooltip text: the base application name, with an unread-message count
//! appended when it is positive.

use vstd::prelude::*;
use vstd::string::StringExecFns;

use crate::text::string_from_chars;

verus! {

/// The character for a single decimal digit.
pub open spec fn spec_digit(d: int) -> char {
    if d == 0 {
        '0'
    } else if d == 1 {
        '1'
    } else if d == 2 {
        '2'
    } else if d == 3 {
        '3'
    } else if d == 4 {
        '4'
    } else if d == 5 {
        '5'
    } else if d == 6 {
        '6'
    } else if d == 7 {
        '7'
    } else if d == 8 {
        '8'
    } else {
        '9'
    }
}

/// The decimal representation of `n`, most significant digit first, with no
/// leading zeros (a single zero digit for zero).
pub open spec fn spec_decimal(n: nat) -> Seq<char>
    decreases n,
{
    if n < 10 {
        seq![spec_digit(n as int)]
    } else {
        spec_decimal(n / 10).push(spec_digit((n % 10) as int))
    }
}

/// The tooltip text for an unread count: the bare application name for zero,
/// otherwise the name followed by the count in parentheses.
pub open spec fn spec_tooltip(count: nat) -> Seq<char> {
    if count == 0 {
        "ChitChat"@
    } else {
        "ChitChat ("@ + spec_decimal(count) + " unread)"@
    }
}

fn digit_char(d: u32) -> (c: char)
    requires
        d < 10,
    ensures
        c == spec_digit(d as int),
{
    match d {
        0 => '0',
        1 => '1',
        2 => '2',
        3 => '3',
        4 => '4',
        5 => '5',
        6 => '6',
        7 => '7',
        8 => '8',
        _ => '9',
    }
}

fn decimal_digits(n: u32) -> (v: Vec<char>)
    ensures
        v@ == spec_decimal(n as nat),
    decreases n,
{
    if n < 10 {
        let mut v: Vec<char> = Vec::new();
        v.push(digit_char(n));
        v
    } else {
        let mut v = decimal_digits(n / 10);
        v.push(digit_char(n % 10));
        v
    }
}

/// The tooltip text reflecting `count` unread messages.
pub fn tray_tooltip(count: u32) -> (r: String)
    ensures
        r@ == spec_tooltip(count as nat),
{
    if count == 0 {
        String::from_str("ChitChat")
    } else {
        let mut s = String::from_str("ChitChat (");
        let digits = string_from_chars(decimal_digits(count));
        s.append(digits.as_str());
        s.append(" unread)");
        proof {
            assert(s@ =~= spec_tooltip(count as nat));
        }
        s
    }
}

} // verus!
