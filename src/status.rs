//! The human-readable status line derived from a glucose value.
use vstd::prelude::*;

verus! {

/// The decimal digit character for `d` (which is below ten).
pub open spec fn digit_char(d: nat) -> char {
    if d == 0 {
        '0'
    } else if d == 1 {
        '1'
    } else if d == 2 {
        '2'
    } else if d == 3 {
        '3'
    } else if d == 4 {
        '4'
    } else if d == 5 {
        '5'
    } else if d == 6 {
        '6'
    } else if d == 7 {
        '7'
    } else if d == 8 {
        '8'
    } else {
        '9'
    }
}

/// The decimal rendering of `n`, without leading zeros.
pub open spec fn decimal(n: nat) -> Seq<char>
    decreases n,
{
    if n < 10 {
        seq![digit_char(n)]
    } else {
        decimal(n / 10).push(digit_char(n % 10))
    }
}

/// The opening words of the status line for a glucose value in mg/dL.
pub open spec fn status_prefix(value: nat) -> Seq<char> {
    if 40 <= value < 60 {
        "I'm in sugar withdrawls, send help ("@
    } else if 60 <= value < 80 {
        "Tell me to eat something, I'm a little low ("@
    } else if 80 <= value < 200 {
        "We chillin ("@
    } else if 200 <= value < 300 {
        "I'm a little high, tell me to do some pushups ("@
    } else {
        "I'm currently ODing on sugar, send help ("@
    }
}

/// The full status line for a glucose value: the band's words, the value and its unit.
pub open spec fn status_text(value: nat) -> Seq<char> {
    status_prefix(value) + decimal(value) + " mg/dL)"@
}

fn digit_str(d: u32) -> (r: &'static str)
    requires
        d < 10,
    ensures
        r@ == seq![digit_char(d as nat)],
{
    proof {
        reveal_strlit("0");
        reveal_strlit("1");
        reveal_strlit("2");
        reveal_strlit("3");
        reveal_strlit("4");
        reveal_strlit("5");
        reveal_strlit("6");
        reveal_strlit("7");
        reveal_strlit("8");
        reveal_strlit("9");
    }
    match d {
        0 => "0",
        1 => "1",
        2 => "2",
        3 => "3",
        4 => "4",
        5 => "5",
        6 => "6",
        7 => "7",
        8 => "8",
        _ => "9",
    }
}

/// Appends the decimal rendering of `n` to `s`.
pub(crate) fn push_decimal(s: &mut String, n: u32)
    ensures
        final(s)@ == old(s)@ + decimal(n as nat),
    decreases n,
{
    if n >= 10 {
        push_decimal(s, n / 10);
    }
    s.append(digit_str(n % 10));
    assert(s@ =~= old(s)@ + decimal(n as nat));
}

/// The status line shown for a glucose reading of `value` mg/dL.
pub fn format_status(value: u32) -> (r: String)
    ensures
        r@ == status_text(value as nat),
{
    let mut s = if 40 <= value && value < 60 {
        String::from_str("I'm in sugar withdrawls, send help (")
    } else if 60 <= value && value < 80 {
        String::from_str("Tell me to eat something, I'm a little low (")
    } else if 80 <= value && value < 200 {
        String::from_str("We chillin (")
    } else if 200 <= value && value < 300 {
        String::from_str("I'm a little high, tell me to do some pushups (")
    } else {
        String::from_str("I'm currently ODing on sugar, send help (")
    };
    push_decimal(&mut s, value);
    s.append(" mg/dL)");
    s
}

} // verus!
