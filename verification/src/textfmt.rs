//! Rendering distances as text: the score label and the failure message
//! both show the travelled distance with two decimals.
//!
//! Distances are held in milli-pixel units, so the text is the whole
//! pixels, a dot, and the first two fractional digits (the third is cut
//! off, never rounded up).

use vstd::prelude::*;

verus! {

/// Relies on String::push: it appends the given character to the end of
/// the string.
pub assume_specification [ String::push ](s: &mut String, ch: char)
    ensures
        final(s)@ == old(s)@.push(ch),
;

/// Relies on String::push_str: it appends the given slice to the end of
/// the string.
pub assume_specification [ String::push_str ](s: &mut String, other: &str)
    ensures
        final(s)@ == old(s)@ + other@,
;

/// The character for one decimal digit.
pub open spec fn digit_char(d: int) -> char {
    if d == 0 {
        '0'
    } else if d == 1 {
        '1'
    } else if d == 2 {
        '2'
    } else if d == 3 {
        '3'
    } else if d == 4 {
        '4'
    } else if d == 5 {
        '5'
    } else if d == 6 {
        '6'
    } else if d == 7 {
        '7'
    } else if d == 8 {
        '8'
    } else {
        '9'
    }
}

/// The decimal digits of `n`, most significant first, with no leading
/// zero except for `n == 0` itself.
pub open spec fn dec_digits(n: nat) -> Seq<char>
    decreases n,
{
    if n < 10 {
        seq![digit_char(n as int)]
    } else {
        dec_digits(n / 10).push(digit_char((n % 10) as int))
    }
}

/// `milli` thousandths rendered with two decimals: the whole part, a
/// dot, then the first two fractional digits.
pub open spec fn two_decimals(milli: nat) -> Seq<char> {
    dec_digits(milli / 1000) + seq![
        '.',
        digit_char(((milli % 1000) / 100) as int),
        digit_char((((milli % 1000) / 10) % 10) as int),
    ]
}

/// The score text drawn every frame: the distance with two decimals and
/// a metres mark.
pub open spec fn score_label_spec(milli: nat) -> Seq<char> {
    two_decimals(milli) + "m"@
}

/// The message shown after hitting an obstacle, with the frozen
/// distance rendered to two decimals.
pub open spec fn fail_message_spec(milli: nat) -> Seq<char> {
    "You hit an obstacle! You travelled "@ + two_decimals(milli)
        + " meters. Press 'S' to restart."@
}

fn digit_to_char(d: u64) -> (c: char)
    requires
        d < 10,
    ensures
        c == digit_char(d as int),
{
    match d {
        0 => '0',
        1 => '1',
        2 => '2',
        3 => '3',
        4 => '4',
        5 => '5',
        6 => '6',
        7 => '7',
        8 => '8',
        _ => '9',
    }
}

/// Append the decimal digits of `n`.
pub fn push_decimal(s: &mut String, n: u64)
    ensures
        final(s)@ == old(s)@ + dec_digits(n as nat),
    decreases n,
{
    if n < 10 {
        s.push(digit_to_char(n));
        proof {
            assert(s@ =~= old(s)@ + dec_digits(n as nat));
        }
    } else {
        let ghost mid = old(s)@ + dec_digits((n / 10) as nat);
        push_decimal(s, n / 10);
        s.push(digit_to_char(n % 10));
        proof {
            assert(mid.push(digit_char((n % 10) as int)) =~= old(s)@ + dec_digits(n as nat));
        }
    }
}

/// Append `milli` thousandths with two decimals.
pub fn push_two_decimals(s: &mut String, milli: u64)
    ensures
        final(s)@ == old(s)@ + two_decimals(milli as nat),
{
    push_decimal(s, milli / 1000);
    s.push('.');
    let frac = milli % 1000;
    s.push(digit_to_char(frac / 100));
    s.push(digit_to_char((frac / 10) % 10));
    proof {
        assert(s@ =~= old(s)@ + two_decimals(milli as nat));
    }
}

/// The score text drawn every frame.
pub fn score_label(milli: u64) -> (s: String)
    ensures
        s@ == score_label_spec(milli as nat),
{
    let mut s = String::new();
    push_two_decimals(&mut s, milli);
    s.push_str("m");
    proof {
        assert(s@ =~= score_label_spec(milli as nat));
    }
    s
}

/// The message shown after hitting an obstacle.
pub fn fail_message_text(milli: u64) -> (s: String)
    ensures
        s@ == fail_message_spec(milli as nat),
{
    let mut s = "You hit an obstacle! You travelled ".to_owned();
    push_two_decimals(&mut s, milli);
    s.push_str(" meters. Press 'S' to restart.");
    proof {
        assert(s@ =~= fail_message_spec(milli as nat));
    }
    s
}

} // verus!
