//! Renders a wall-clock time as a display title, in the format the input used.

use vstd::prelude::*;
use crate::pattern::DisplayFormat;
use crate::text::{chars_of, string_of};

verus! {

/// The decimal digit for `d`, 0 to 9.
pub open spec fn digit_char(d: int) -> char {
    ((d + 48) as u8) as char
}

/// `n`, 0 to 99, in two digits.
pub open spec fn two_digits(n: int) -> Seq<char> {
    seq![digit_char(n / 10), digit_char(n % 10)]
}

/// The hour on a twelve-hour dial: 12, 1, ..., 11.
pub open spec fn dial_hour(h: int) -> int {
    if h % 12 == 0 {
        12
    } else {
        h % 12
    }
}

/// `n`, 0 to 99, without a leading zero.
pub open spec fn plain_number(n: int) -> Seq<char> {
    if n < 10 {
        seq![digit_char(n)]
    } else {
        two_digits(n)
    }
}

pub open spec fn meridian(h: int) -> Seq<char> {
    if h < 12 {
        seq!['a', 'm']
    } else {
        seq!['p', 'm']
    }
}

/// `H:MMam` or `HH:MM` for hour `h` (0 to 23) and minute `m`.
pub open spec fn clock_text(f: DisplayFormat, h: int, m: int) -> Seq<char> {
    match f {
        DisplayFormat::TwelveHour => plain_number(dial_hour(h)) + seq![':'] + two_digits(m)
            + meridian(h),
        DisplayFormat::TwentyFourHour => two_digits(h) + seq![':'] + two_digits(m),
    }
}

/// The title shown for a time: the clock, a space, and the zone's label.
pub open spec fn title_of(f: DisplayFormat, h: int, m: int, label: Seq<char>) -> Seq<char> {
    clock_text(f, h, m) + seq![' '] + label
}

fn digit_exec(d: u32) -> (r: char)
    requires
        d < 10,
    ensures
        r == digit_char(d as int),
{
    ((d as u8) + 48) as char
}

fn push_two_digits(v: &mut Vec<char>, n: u32)
    requires
        n < 100,
    ensures
        final(v)@ == old(v)@ + two_digits(n as int),
{
    v.push(digit_exec(n / 10));
    v.push(digit_exec(n % 10));
    assert(final(v)@ =~= old(v)@ + two_digits(n as int));
}

/// Renders hour `hour` and minute `minute` with the zone label `label`.
pub fn format_time(f: DisplayFormat, hour: u32, minute: u32, label: &str) -> (r: String)
    requires
        hour < 24,
        minute < 60,
    ensures
        r@ == title_of(f, hour as int, minute as int, label@),
{
    let mut v: Vec<char> = Vec::new();
    match f {
        DisplayFormat::TwelveHour => {
            let dial = if hour % 12 == 0 {
                12
            } else {
                hour % 12
            };
            if dial < 10 {
                v.push(digit_exec(dial));
            } else {
                push_two_digits(&mut v, dial);
            }
            v.push(':');
            push_two_digits(&mut v, minute);
            if hour < 12 {
                v.push('a');
            } else {
                v.push('p');
            }
            v.push('m');
        },
        DisplayFormat::TwentyFourHour => {
            push_two_digits(&mut v, hour);
            v.push(':');
            push_two_digits(&mut v, minute);
        },
    }
    assert(v@ =~= clock_text(f, hour as int, minute as int));
    v.push(' ');
    let l = chars_of(label);
    let mut i: usize = 0;
    let ghost head = v@;
    while i < l.len()
        invariant
            i <= l@.len(),
            v@ == head + l@.subrange(0, i as int),
        decreases l@.len() - i,
    {
        v.push(l[i]);
        i = i + 1;
        assert(v@ =~= head + l@.subrange(0, i as int));
    }
    assert(v@ =~= title_of(f, hour as int, minute as int, label@));
    string_of(&v)
}

} // verus!
