//! Turns one invocation (its argument, the preference list and today's date)
//! into the list of display items to print and the exit status.

use vstd::prelude::*;
use vstd::string::StringExecFns;
use crate::pattern::{is_letter, lemma_twenty_four_hour_accepted, parse_time, parsed, DisplayFormat};
use crate::project::local_clock;
use crate::render::{title_of, two_digits};
use crate::project::{display_times, titles_for, views_of, Day};
use crate::text::{chars_of, string_of};
use crate::zones::{
    all_zones, get_time_object_from_timezone, same_chars, to_upper, upper_of, zone_for,
    zone_table, Zone, ZONE_COUNT, lemma_codes_distinct, lemma_found_iff_listed,
    lemma_table_code_resolves, lookup_from, resolution_of,
};

verus! {

/// One display item: a title, with a subtitle on error items.
pub struct Item {
    pub title: String,
    pub subtitle: Option<String>,
}

impl View for Item {
    type V = (Seq<char>, Option<Seq<char>>);

    open spec fn view(&self) -> (Seq<char>, Option<Seq<char>>) {
        (
            self.title@,
            match self.subtitle {
                Some(s) => Some(s@),
                None => None,
            },
        )
    }
}

/// What one invocation prints, and the status it exits with.
pub struct Reply {
    pub items: Vec<Item>,
    pub status: i32,
}

pub open spec fn items_view(v: Seq<Item>) -> Seq<(Seq<char>, Option<Seq<char>>)> {
    v.map_values(|i: Item| i@)
}

pub open spec fn example_text() -> Seq<char> {
    "example: 10:34am gmt or 18:30 pst"@
}

/// One title-only item per supported code, in table order.
pub open spec fn listing() -> Seq<(Seq<char>, Option<Seq<char>>)> {
    zone_table().map_values(|z: Zone| (z.code(), None::<Seq<char>>))
}

pub open spec fn error_reply(title: Seq<char>, subtitle: Seq<char>) -> (
    Seq<(Seq<char>, Option<Seq<char>>)>,
    int,
) {
    (seq![(title, Some(subtitle))], 1)
}

/// The items and exit status for argument `arg`, preference list `prefs`
/// and today's date `on`. A missing or empty argument, an unreadable time, an
/// unknown source code, and a time that the source zone skips today each give
/// a single error item and status 1. Listing mode and a conversion give
/// title-only items and status 0; codes of `prefs` that name no zone are left
/// out.
pub open spec fn reply_of(arg: Option<Seq<char>>, prefs: Seq<Seq<char>>, on: Day) -> (
    Seq<(Seq<char>, Option<Seq<char>>)>,
    int,
) {
    if arg is None || arg->0.len() == 0 {
        error_reply("Error: Missing or empty time argument"@, example_text())
    } else if arg->0 == seq!['l', 'i', 's', 't'] || arg->0 == seq!['l', 's'] {
        (listing(), 0)
    } else {
        match parsed(arg->0) {
            None => error_reply("Invalid time format"@, example_text()),
            Some(t) => match zone_for(t.3) {
                None => error_reply(
                    "Invalid timezone"@,
                    upper_of(t.3) + " is not a valid timezone"@,
                ),
                Some(src) => match titles_for(t.0, t.1, t.2, src, prefs, on) {
                    None => error_reply(
                        "Invalid time"@,
                        upper_of(t.3) + " has no such time today"@,
                    ),
                    Some(titles) => (titles.map_values(|s: Seq<char>| (s, None::<Seq<char>>)), 0),
                },
            },
        }
    }
}

fn error_items(title: &str, subtitle: String) -> (r: Vec<Item>)
    ensures
        items_view(r@) == error_reply(title@, subtitle@).0,
{
    let r = vec![Item { title: String::from_str(title), subtitle: Some(subtitle) }];
    assert(items_view(r@) =~= error_reply(title@, subtitle@).0);
    r
}

/// One title-only item per supported zone code, in table order.
pub fn list_all_timezones() -> (r: Vec<Item>)
    ensures
        items_view(r@) == listing(),
{
    let zones = all_zones();
    let mut r: Vec<Item> = Vec::new();
    let mut k: usize = 0;
    while k < zones.len()
        invariant
            zones@ == zone_table(),
            k <= zones@.len(),
            items_view(r@) == listing().subrange(0, k as int),
        decreases zones@.len() - k,
    {
        let ghost before = r@;
        let item = Item { title: string_of(&zones[k].code_chars()), subtitle: None };
        r.push(item);
        assert(items_view(r@) =~= items_view(before).push(item@));
        k = k + 1;
        assert(items_view(r@) =~= listing().subrange(0, k as int));
    }
    assert(listing().subrange(0, k as int) =~= listing());
    r
}

fn title_items(titles: Vec<String>) -> (r: Vec<Item>)
    ensures
        items_view(r@) == views_of(titles@).map_values(|s: Seq<char>| (s, None::<Seq<char>>)),
{
    let mut r: Vec<Item> = Vec::new();
    let mut k: usize = 0;
    while k < titles.len()
        invariant
            k <= titles@.len(),
            items_view(r@) == views_of(titles@).map_values(
                |s: Seq<char>| (s, None::<Seq<char>>),
            ).subrange(0, k as int),
        decreases titles@.len() - k,
    {
        let ghost before = r@;
        let item = Item { title: titles[k].clone(), subtitle: None };
        r.push(item);
        assert(items_view(r@) =~= items_view(before).push(item@));
        k = k + 1;
        assert(items_view(r@) =~= views_of(titles@).map_values(
            |s: Seq<char>| (s, None::<Seq<char>>),
        ).subrange(0, k as int));
    }
    assert(views_of(titles@).map_values(|s: Seq<char>| (s, None::<Seq<char>>)).subrange(
        0,
        k as int,
    ) =~= views_of(titles@).map_values(|s: Seq<char>| (s, None::<Seq<char>>)));
    r
}

/// The answer to one invocation: `arg` is the time argument, if one was
/// given, `prefs` the codes of the zones to show, `on` today's date.
pub fn respond(arg: Option<&str>, prefs: &Vec<String>, on: Day) -> (r: Reply)
    ensures
        (items_view(r.items@), r.status as int) == reply_of(
            match arg {
                Some(a) => Some(a@),
                None => None,
            },
            views_of(prefs@),
            on,
        ),
{
    let a = match arg {
        Some(a) => a,
        None => {
            let items = error_items(
                "Error: Missing or empty time argument",
                String::from_str("example: 10:34am gmt or 18:30 pst"),
            );
            return Reply { items, status: 1 };
        },
    };
    let chars = chars_of(a);
    if chars.len() == 0 {
        let items = error_items(
            "Error: Missing or empty time argument",
            String::from_str("example: 10:34am gmt or 18:30 pst"),
        );
        return Reply { items, status: 1 };
    }
    if same_chars(&chars, &vec!['l', 'i', 's', 't']) || same_chars(&chars, &vec!['l', 's']) {
        return Reply { items: list_all_timezones(), status: 0 };
    }
    let t = match parse_time(a) {
        Some(t) => t,
        None => {
            let items = error_items(
                "Invalid time format",
                String::from_str("example: 10:34am gmt or 18:30 pst"),
            );
            return Reply { items, status: 1 };
        },
    };
    let source = get_time_object_from_timezone(t.zone.as_str());
    let code = to_upper(t.zone.as_str());
    if !source.found {
        let items = error_items("Invalid timezone", code.concat(" is not a valid timezone"));
        return Reply { items, status: 1 };
    }
    match display_times(t.format, t.hour, t.minute, source.zone, prefs, on) {
        Some(titles) => Reply { items: title_items(titles), status: 0 },
        None => {
            let items = error_items("Invalid time", code.concat(" has no such time today"));
            Reply { items, status: 1 }
        },
    }
}

/// Listing mode, asked for as `list` or `ls`, answers with exactly one
/// title-only item per supported code, in table order, whatever the
/// preference list and the date, and exits with status 0. The titles are
/// distinct, each is looked up to its zone, and every code that resolves has
/// its upper-case form among them.
pub proof fn lemma_listing_ignores_prefs(prefs: Seq<Seq<char>>, on: Day)
    ensures
        reply_of(Some(seq!['l', 'i', 's', 't']), prefs, on) == (listing(), 0int),
        reply_of(Some(seq!['l', 's']), prefs, on) == (listing(), 0int),
        listing().len() == ZONE_COUNT,
        forall|k: int|
            0 <= k < ZONE_COUNT ==> #[trigger] listing()[k] == (
                zone_table()[k].code(),
                None::<Seq<char>>,
            ),
        forall|j: int, k: int|
            0 <= j < k < ZONE_COUNT ==> #[trigger] listing()[j].0 != #[trigger] listing()[k].0,
        forall|k: int|
            0 <= k < ZONE_COUNT ==> lookup_from(#[trigger] listing()[k].0, 0) == Some(zone_table()[k]),
        forall|code: Seq<char>|
            #[trigger] resolution_of(code).found ==> exists|k: int|
                0 <= k < ZONE_COUNT && #[trigger] listing()[k].0 == upper_of(code),
{
    lemma_codes_distinct();
    assert forall|k: int| 0 <= k < ZONE_COUNT implies lookup_from(#[trigger] listing()[k].0, 0)
        == Some(zone_table()[k]) by {
        lemma_table_code_resolves(k);
    }
    assert forall|code: Seq<char>| #[trigger] resolution_of(code).found implies exists|k: int|
        0 <= k < ZONE_COUNT && #[trigger] listing()[k].0 == upper_of(code) by {
        lemma_found_iff_listed(code);
        let k = choose|k: int|
            0 <= k < zone_table().len() && #[trigger] zone_table()[k].code() == upper_of(code);
        assert(listing()[k].0 == upper_of(code));
    }
}

/// A 24-hour time `HH:MM code` with `code` alone as the preference list
/// answers with a single title: the wall clock that the zone database gives
/// for that instant in the same zone, in `HH:MM label` form, or the single
/// error item where the zone skips that time on that day.
pub proof fn lemma_same_zone_reply(hour: int, minute: int, code: Seq<char>, on: Day)
    requires
        0 <= hour < 24,
        0 <= minute < 60,
        code.len() > 0,
        forall|j: int| 0 <= j < code.len() ==> is_letter(code[j]),
        resolution_of(code).found,
    ensures
        ({
            let s = two_digits(hour) + seq![':'] + two_digits(minute) + seq![' '] + code;
            let z = resolution_of(code).zone;
            reply_of(Some(s), seq![code], on) == match local_clock(
                z.tz_id(),
                z.tz_id(),
                on.year as int,
                on.month as int,
                on.day as int,
                hour,
                minute,
            ) {
                Some(c) => (
                    seq![(title_of(DisplayFormat::TwentyFourHour, c.0, c.1, c.2), None::<Seq<char>>)],
                    0int,
                ),
                None => error_reply("Invalid time"@, upper_of(code) + " has no such time today"@),
            }
        }),
{
    let s = two_digits(hour) + seq![':'] + two_digits(minute) + seq![' '] + code;
    lemma_twenty_four_hour_accepted(hour, minute, code);
    assert(s[2] == ':');
    assert(s != seq!['l', 'i', 's', 't']);
    assert(s != seq!['l', 's']);
    assert(seq![code].drop_last() =~= Seq::<Seq<char>>::empty());
    assert(seq![code].last() == code);
    let z = resolution_of(code).zone;
    assert(zone_for(code) == Some(z));
    let f = DisplayFormat::TwentyFourHour;
    assert(titles_for(f, hour, minute, z, seq![code].drop_last(), on) == Some(Seq::<Seq<char>>::empty()));
    let t = titles_for(f, hour, minute, z, seq![code], on);
    match t {
        Some(titles) => {
            assert(titles.len() == 1);
            assert(titles.map_values(|x: Seq<char>| (x, None::<Seq<char>>)) =~= seq![
                (titles[0], None::<Seq<char>>),
            ]);
        },
        None => {},
    }
}

} // verus!
