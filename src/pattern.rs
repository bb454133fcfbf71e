//! Recognises the two accepted ways of writing a time, `10:34am gmt` and
//! `18:30 pst`, anywhere in a string, and extracts hour, minute and zone code.

use vstd::prelude::*;
use crate::render::{digit_char, plain_number, two_digits};
use crate::text::{chars_of, string_of};

verus! {

pub open spec fn is_digit(c: char) -> bool {
    '0' <= c && c <= '9'
}

pub open spec fn is_letter(c: char) -> bool {
    ('a' <= c && c <= 'z') || ('A' <= c && c <= 'Z')
}

/// Unicode `White_Space`.
pub open spec fn is_space(c: char) -> bool {
    ('\u{9}' <= c && c <= '\u{d}') || c == ' ' || c == '\u{85}' || c == '\u{a0}'
        || c == '\u{1680}' || ('\u{2000}' <= c && c <= '\u{200a}') || c == '\u{2028}'
        || c == '\u{2029}' || c == '\u{202f}' || c == '\u{205f}' || c == '\u{3000}'
}

pub open spec fn digit_value(c: char) -> int {
    c as int - '0' as int
}

/// How a time is written, and how every converted time is shown.
#[derive(Clone, Copy, Debug, PartialEq, Eq, Structural)]
pub enum DisplayFormat {
    /// `H:MMam ZONE`
    TwelveHour,
    /// `HH:MM ZONE`
    TwentyFourHour,
}

/// Length of an hour field (`0?[0-9]`, `1[0-9]` or `2[0-3]`) that starts at
/// `i` and is followed by `:`; 0 where there is none.
pub open spec fn hour_len_at(s: Seq<char>, i: int) -> int {
    if 0 <= i && i + 1 < s.len() && is_digit(s[i]) && s[i + 1] == ':' {
        1
    } else if 0 <= i && i + 2 < s.len() && s[i + 2] == ':' && (((s[i] == '0' || s[i] == '1')
        && is_digit(s[i + 1])) || (s[i] == '2' && '0' <= s[i + 1] && s[i + 1] <= '3')) {
        2
    } else {
        0
    }
}

/// Index of the first minute digit of a match starting at `i`.
pub open spec fn minute_at(s: Seq<char>, i: int) -> int {
    i + hour_len_at(s, i) + 1
}

/// `H:MM` starts at `i`, minute `00` to `59`.
pub open spec fn clock_at(s: Seq<char>, i: int) -> bool {
    let m = minute_at(s, i);
    &&& hour_len_at(s, i) > 0
    &&& m + 1 < s.len()
    &&& '0' <= s[m] && s[m] <= '5'
    &&& is_digit(s[m + 1])
}

/// Index where the zone code of a match starting at `i` begins.
pub open spec fn zone_at(s: Seq<char>, i: int, f: DisplayFormat) -> int {
    match f {
        DisplayFormat::TwelveHour => minute_at(s, i) + 5,
        DisplayFormat::TwentyFourHour => minute_at(s, i) + 3,
    }
}

/// A time written in format `f` starts at index `i` of `s`.
pub open spec fn match_at(s: Seq<char>, i: int, f: DisplayFormat) -> bool {
    let m = minute_at(s, i);
    let z = zone_at(s, i, f);
    &&& clock_at(s, i)
    &&& z < s.len()
    &&& is_space(s[z - 1])
    &&& is_letter(s[z])
    &&& f == DisplayFormat::TwelveHour ==> (s[m + 2] == 'a' || s[m + 2] == 'p') && s[m + 3] == 'm'
}

/// Somewhere in `s` a time is written in format `f`.
pub open spec fn matches(s: Seq<char>, f: DisplayFormat) -> bool {
    exists|i: int| 0 <= i < s.len() && match_at(s, i, f)
}

/// `i` is the first index at which a time in format `f` starts.
pub open spec fn is_leftmost(s: Seq<char>, i: int, f: DisplayFormat) -> bool {
    &&& 0 <= i < s.len()
    &&& match_at(s, i, f)
    &&& forall|j: int| 0 <= j < i ==> !match_at(s, j, f)
}

/// The format of `s`: twelve-hour wins where both match.
pub open spec fn format_of(s: Seq<char>) -> Option<DisplayFormat> {
    if matches(s, DisplayFormat::TwelveHour) {
        Some(DisplayFormat::TwelveHour)
    } else if matches(s, DisplayFormat::TwentyFourHour) {
        Some(DisplayFormat::TwentyFourHour)
    } else {
        None
    }
}

/// End of the run of letters that starts at `k`.
pub open spec fn letters_end(s: Seq<char>, k: int) -> int
    decreases s.len() - k,
{
    if 0 <= k < s.len() && is_letter(s[k]) {
        letters_end(s, k + 1)
    } else {
        k
    }
}

pub fn is_digit_char(c: char) -> (r: bool)
    ensures
        r == is_digit(c),
{
    '0' <= c && c <= '9'
}

pub fn is_letter_char(c: char) -> (r: bool)
    ensures
        r == is_letter(c),
{
    ('a' <= c && c <= 'z') || ('A' <= c && c <= 'Z')
}

pub fn is_space_char(c: char) -> (r: bool)
    ensures
        r == is_space(c),
{
    ('\u{9}' <= c && c <= '\u{d}') || c == ' ' || c == '\u{85}' || c == '\u{a0}'
        || c == '\u{1680}' || ('\u{2000}' <= c && c <= '\u{200a}') || c == '\u{2028}'
        || c == '\u{2029}' || c == '\u{202f}' || c == '\u{205f}' || c == '\u{3000}'
}

fn hour_len(s: &Vec<char>, i: usize) -> (r: usize)
    requires
        i < s@.len(),
    ensures
        r as int == hour_len_at(s@, i as int),
{
    let n = s.len();
    if n - i > 1 && is_digit_char(s[i]) && s[i + 1] == ':' {
        1
    } else if n - i > 2 && s[i + 2] == ':' && (((s[i] == '0' || s[i] == '1') && is_digit_char(
        s[i + 1],
    )) || (s[i] == '2' && '0' <= s[i + 1] && s[i + 1] <= '3')) {
        2
    } else {
        0
    }
}

/// Whether a time in format `f` starts at index `i`.
pub fn match_at_index(s: &Vec<char>, i: usize, f: DisplayFormat) -> (r: bool)
    requires
        i < s@.len(),
    ensures
        r == match_at(s@, i as int, f),
{
    let n = s.len();
    let h = hour_len(s, i);
    if h == 0 {
        return false;
    }
    if n - i <= h + 1 {
        return false;
    }
    let m = i + h + 1;
    if n - m <= 1 || !('0' <= s[m] && s[m] <= '5') || !is_digit_char(s[m + 1]) {
        return false;
    }
    match f {
        DisplayFormat::TwelveHour => {
            n - m > 5 && (s[m + 2] == 'a' || s[m + 2] == 'p') && s[m + 3] == 'm'
                && is_space_char(s[m + 4]) && is_letter_char(s[m + 5])
        },
        DisplayFormat::TwentyFourHour => {
            n - m > 3 && is_space_char(s[m + 2]) && is_letter_char(s[m + 3])
        },
    }
}

/// The first index at which a time in format `f` starts, if any.
pub fn find_match(s: &Vec<char>, f: DisplayFormat) -> (r: Option<usize>)
    ensures
        r is None <==> !matches(s@, f),
        r matches Some(i) ==> is_leftmost(s@, i as int, f),
{
    let n = s.len();
    let mut i: usize = 0;
    while i < n
        invariant
            n == s@.len(),
            i <= n,
            forall|j: int| 0 <= j < i ==> !match_at(s@, j, f),
        decreases n - i,
    {
        if match_at_index(s, i, f) {
            return Some(i);
        }
        i = i + 1;
    }
    None
}

/// Whether `time_str` holds a time such as `10:00am GMT`.
pub fn is_12_hour_format(time_str: &str) -> (r: bool)
    ensures
        r == matches(time_str@, DisplayFormat::TwelveHour),
{
    let s = chars_of(time_str);
    find_match(&s, DisplayFormat::TwelveHour).is_some()
}

/// Whether `time_str` holds a time such as `12:00 GMT`.
pub fn is_24_hour_format(time_str: &str) -> (r: bool)
    ensures
        r == matches(time_str@, DisplayFormat::TwentyFourHour),
{
    let s = chars_of(time_str);
    find_match(&s, DisplayFormat::TwentyFourHour).is_some()
}

/// A time read from the input: hour 0 to 23, minute 0 to 59, the zone code as
/// written, and the format it was written in.
pub struct TimeSpec {
    pub hour: u32,
    pub minute: u32,
    pub zone: String,
    pub format: DisplayFormat,
}

/// The hour digits of a match starting at `i`, as written.
pub open spec fn hour_digits(s: Seq<char>, i: int) -> int {
    if hour_len_at(s, i) == 1 {
        digit_value(s[i])
    } else {
        10 * digit_value(s[i]) + digit_value(s[i + 1])
    }
}

pub open spec fn minute_digits(s: Seq<char>, i: int) -> int {
    let m = minute_at(s, i);
    10 * digit_value(s[m]) + digit_value(s[m + 1])
}

/// The hour on a 24-hour clock of a match starting at `i`: with `pm` the hours
/// 1 to 11 move on by twelve, `12am` is midnight, any other hour stays as written.
pub open spec fn hour_of(s: Seq<char>, i: int, f: DisplayFormat) -> int {
    let h = hour_digits(s, i);
    let pm = s[minute_at(s, i) + 2] == 'p';
    if f == DisplayFormat::TwelveHour && pm && 1 <= h < 12 {
        h + 12
    } else if f == DisplayFormat::TwelveHour && !pm && h == 12 {
        0
    } else {
        h
    }
}

/// The zone code of a match starting at `i`: all the letters after the space.
pub open spec fn zone_code_of(s: Seq<char>, i: int, f: DisplayFormat) -> Seq<char> {
    s.subrange(zone_at(s, i, f), letters_end(s, zone_at(s, i, f)))
}

/// What the match starting at `i` reads as.
pub open spec fn spec_at(t: TimeSpec, s: Seq<char>, i: int, f: DisplayFormat) -> bool {
    &&& t.format == f
    &&& t.hour == hour_of(s, i, f)
    &&& t.minute == minute_digits(s, i)
    &&& t.zone@ == zone_code_of(s, i, f)
}

impl View for TimeSpec {
    type V = (DisplayFormat, int, int, Seq<char>);

    open spec fn view(&self) -> (DisplayFormat, int, int, Seq<char>) {
        (self.format, self.hour as int, self.minute as int, self.zone@)
    }
}

/// What `s` reads as, as format, hour, minute and zone code: the first
/// twelve-hour time in it, else the first 24-hour time.
pub open spec fn parsed(s: Seq<char>) -> Option<(DisplayFormat, int, int, Seq<char>)> {
    match format_of(s) {
        Some(f) => {
            let i = choose|i: int| is_leftmost(s, i, f);
            Some((f, hour_of(s, i, f), minute_digits(s, i), zone_code_of(s, i, f)))
        },
        None => None,
    }
}

proof fn lemma_leftmost_unique(s: Seq<char>, i: int, j: int, f: DisplayFormat)
    requires
        is_leftmost(s, i, f),
        is_leftmost(s, j, f),
    ensures
        i == j,
{
    if i < j {
        assert(!match_at(s, i, f));
    } else if j < i {
        assert(!match_at(s, j, f));
    }
}

fn letters_run_end(s: &Vec<char>, k: usize) -> (r: usize)
    requires
        k <= s@.len(),
    ensures
        r as int == letters_end(s@, k as int),
        k <= r <= s@.len(),
{
    let n = s.len();
    let mut e = k;
    while e < n && is_letter_char(s[e])
        invariant
            n == s@.len(),
            k <= e <= n,
            letters_end(s@, k as int) == letters_end(s@, e as int),
        decreases n - e,
    {
        e = e + 1;
    }
    e
}

fn copy_range(s: &Vec<char>, from: usize, to: usize) -> (r: Vec<char>)
    requires
        from <= to <= s@.len(),
    ensures
        r@ == s@.subrange(from as int, to as int),
{
    let mut r: Vec<char> = Vec::new();
    let mut k = from;
    while k < to
        invariant
            from <= k <= to <= s@.len(),
            r@ == s@.subrange(from as int, k as int),
        decreases to - k,
    {
        r.push(s[k]);
        k = k + 1;
    }
    r
}

fn digit_of(c: char) -> (r: u32)
    requires
        is_digit(c),
    ensures
        r as int == digit_value(c),
        r <= 9,
{
    (c as u32) - ('0' as u32)
}

/// Reads the time at index `i`, where a match in format `f` starts.
fn read_at(s: &Vec<char>, i: usize, f: DisplayFormat) -> (t: TimeSpec)
    requires
        0 <= i < s@.len(),
        match_at(s@, i as int, f),
    ensures
        spec_at(t, s@, i as int, f),
{
    let n = s.len();
    let h = hour_len(s, i);
    assert(i + h + 1 < n);
    let written = if h == 1 {
        digit_of(s[i])
    } else {
        10 * digit_of(s[i]) + digit_of(s[i + 1])
    };
    let m = i + h + 1;
    let minute = 10 * digit_of(s[m]) + digit_of(s[m + 1]);
    let (hour, z) = match f {
        DisplayFormat::TwelveHour => {
            let pm = s[m + 2] == 'p';
            let hour = if pm && 1 <= written && written < 12 {
                written + 12
            } else if !pm && written == 12 {
                0
            } else {
                written
            };
            (hour, m + 5)
        },
        DisplayFormat::TwentyFourHour => (written, m + 3),
    };
    let e = letters_run_end(s, z);
    let zone = string_of(&copy_range(s, z, e));
    TimeSpec { hour, minute, zone, format: f }
}

/// Reads the time written in `time_str`: the first twelve-hour time in it,
/// else the first 24-hour time; `None` where there is neither.
pub fn parse_time(time_str: &str) -> (r: Option<TimeSpec>)
    ensures
        r is None <==> parsed(time_str@) is None,
        r matches Some(t) ==> parsed(time_str@) == Some(t@),
{
    let s = chars_of(time_str);
    let (found, f) = match find_match(&s, DisplayFormat::TwelveHour) {
        Some(i) => (Some(i), DisplayFormat::TwelveHour),
        None => (find_match(&s, DisplayFormat::TwentyFourHour), DisplayFormat::TwentyFourHour),
    };
    match found {
        Some(i) => {
            let t = read_at(&s, i, f);
            proof {
                let j = choose|j: int| is_leftmost(s@, j, f);
                lemma_leftmost_unique(s@, i as int, j, f);
            }
            Some(t)
        },
        None => None,
    }
}

proof fn lemma_letters_to_end(s: Seq<char>, k: int)
    requires
        0 <= k <= s.len(),
        forall|j: int| k <= j < s.len() ==> is_letter(s[j]),
    ensures
        letters_end(s, k) == s.len(),
    decreases s.len() - k,
{
    if k < s.len() {
        lemma_letters_to_end(s, k + 1);
    }
}

/// The letters `am` or `pm`.
pub open spec fn meridian_text(pm: bool) -> Seq<char> {
    if pm {
        seq!['p', 'm']
    } else {
        seq!['a', 'm']
    }
}

/// A time written as an hour 0 to 23 without leading zero, `:`, a minute in
/// two digits, `am` or `pm`, a space and a zone code of letters is
/// recognised as a twelve-hour time, and read with its minute and code, the
/// hour moved onto the 24-hour clock.
pub proof fn lemma_twelve_hour_accepted(hour: int, minute: int, pm: bool, code: Seq<char>)
    requires
        0 <= hour < 24,
        0 <= minute < 60,
        code.len() > 0,
        forall|j: int| 0 <= j < code.len() ==> is_letter(code[j]),
    ensures
        ({
            let s = plain_number(hour) + seq![':'] + two_digits(minute) + meridian_text(pm)
                + seq![' '] + code;
            let h = if pm && 1 <= hour < 12 {
                hour + 12
            } else if !pm && hour == 12 {
                0
            } else {
                hour
            };
            &&& matches(s, DisplayFormat::TwelveHour)
            &&& format_of(s) == Some(DisplayFormat::TwelveHour)
            &&& parsed(s) == Some((DisplayFormat::TwelveHour, h, minute, code))
        }),
{
    let s = plain_number(hour) + seq![':'] + two_digits(minute) + meridian_text(pm) + seq![' ']
        + code;
    let f = DisplayFormat::TwelveHour;
    let n = plain_number(hour).len() as int;
    assert(digit_value(digit_char(hour / 10)) == hour / 10);
    assert(digit_value(digit_char(hour % 10)) == hour % 10);
    assert(digit_value(digit_char(hour)) == hour);
    assert(digit_value(digit_char(minute / 10)) == minute / 10);
    assert(digit_value(digit_char(minute % 10)) == minute % 10);
    assert(hour_len_at(s, 0) == n);
    assert(zone_at(s, 0, f) == n + 6);
    assert(s.subrange(n + 6, s.len() as int) =~= code);
    lemma_letters_to_end(s, n + 6);
    assert(match_at(s, 0, f));
    assert(is_leftmost(s, 0, f));
    let i = choose|i: int| is_leftmost(s, i, f);
    lemma_leftmost_unique(s, 0, i, f);
    assert(zone_code_of(s, 0, f) =~= code);
}

/// A time written as a two-digit hour 00 to 23, `:`, a two-digit minute, a
/// space and a zone code of letters is not a twelve-hour time; it is read as
/// a 24-hour time with exactly that hour, minute and code.
pub proof fn lemma_twenty_four_hour_accepted(hour: int, minute: int, code: Seq<char>)
    requires
        0 <= hour < 24,
        0 <= minute < 60,
        code.len() > 0,
        forall|j: int| 0 <= j < code.len() ==> is_letter(code[j]),
    ensures
        ({
            let s = two_digits(hour) + seq![':'] + two_digits(minute) + seq![' '] + code;
            &&& !matches(s, DisplayFormat::TwelveHour)
            &&& matches(s, DisplayFormat::TwentyFourHour)
            &&& format_of(s) == Some(DisplayFormat::TwentyFourHour)
            &&& parsed(s) == Some((DisplayFormat::TwentyFourHour, hour, minute, code))
        }),
{
    let s = two_digits(hour) + seq![':'] + two_digits(minute) + seq![' '] + code;
    let f = DisplayFormat::TwentyFourHour;
    assert(digit_value(digit_char(hour / 10)) == hour / 10);
    assert(digit_value(digit_char(hour % 10)) == hour % 10);
    assert(digit_value(digit_char(minute / 10)) == minute / 10);
    assert(digit_value(digit_char(minute % 10)) == minute % 10);
    assert(is_digit(s[0]) && is_digit(s[1]) && s[2] == ':' && is_digit(s[3]) && is_digit(s[4]));
    assert(s[5] == ' ');
    assert forall|j: int| 6 <= j < s.len() implies s[j] == code[j - 6] && is_letter(s[j]) by {}
    assert(hour_len_at(s, 0) == 2);
    assert(s.subrange(6, s.len() as int) =~= code);
    lemma_letters_to_end(s, 6);
    assert(match_at(s, 0, f));
    assert(is_leftmost(s, 0, f));
    assert forall|i: int| 0 <= i < s.len() implies !match_at(s, i, DisplayFormat::TwelveHour) by {
        if i >= 5 {
            assert(!is_digit(s[i]));
        } else if i >= 2 {
            assert(hour_len_at(s, i) == 0);
        }
    }
    let i = choose|i: int| is_leftmost(s, i, f);
    lemma_leftmost_unique(s, 0, i, f);
    assert(zone_code_of(s, 0, f) =~= code);
}

} // verus!
