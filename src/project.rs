//! Places the parsed time on today's date in its source zone and re-expresses
//! that instant in each zone of the preference list.

use vstd::prelude::*;
use chrono::{TimeZone, Timelike};
use crate::pattern::DisplayFormat;
use crate::render::{format_time, title_of};
use crate::zones::{get_time_object_from_timezone, zone_for, Zone};

verus! {

/// A calendar date.
#[derive(Clone, Copy, Debug, PartialEq, Eq, Structural)]
pub struct Day {
    pub year: i32,
    pub month: u32,
    pub day: u32,
}

/// The wall clock, as hour, minute and offset abbreviation, shown in the tz
/// database zone `dst` at the instant that is `hour:minute` on the given date
/// in zone `src`; `None` where that local time does not exist there.
pub uninterp spec fn local_clock(
    src: Seq<char>,
    dst: Seq<char>,
    year: int,
    month: int,
    day: int,
    hour: int,
    minute: int,
) -> Option<(int, int, Seq<char>)>;

/// Relies on chrono-tz's `FromStr` for `Tz` (a zone by its tz database name),
/// chrono's `TimeZone::with_ymd_and_hms` with `MappedLocalTime::earliest` (the
/// local time in `src`, the earlier of two in a fold, none in a gap),
/// `DateTime::with_timezone` (the same instant in `dst`), `Timelike::hour`
/// (0 to 23) and `Timelike::minute` (0 to 59), and the `%Z` format item (the
/// offset's abbreviation).
#[verifier::external_body]
fn clock_in(src: &str, dst: &str, on: Day, hour: u32, minute: u32) -> (r: Option<(u32, u32, String)>)
    ensures
        r matches Some(c) ==> c.0 < 24 && c.1 < 60,
        local_clock(src@, dst@, on.year as int, on.month as int, on.day as int, hour as int, minute as int)
            == (match r {
            Some(c) => Some((c.0 as int, c.1 as int, c.2@)),
            None => None,
        }),
{
    let from: chrono_tz::Tz = src.parse().ok()?;
    let to: chrono_tz::Tz = dst.parse().ok()?;
    let t = from.with_ymd_and_hms(on.year, on.month, on.day, hour, minute, 0).earliest()?;
    let t = t.with_timezone(&to);
    Some((t.hour(), t.minute(), t.format("%Z").to_string()))
}

/// The titles for the zones of `prefs`, in order, of the time `hour:minute`
/// on day `on` in zone `src`, shown in format `f`. A code that names no zone
/// is skipped; `None` where that time does not exist in `src` on that day.
pub open spec fn titles_for(
    f: DisplayFormat,
    hour: int,
    minute: int,
    src: Zone,
    prefs: Seq<Seq<char>>,
    on: Day,
) -> Option<Seq<Seq<char>>>
    decreases prefs.len(),
{
    if prefs.len() == 0 {
        Some(Seq::empty())
    } else {
        match titles_for(f, hour, minute, src, prefs.drop_last(), on) {
            None => None,
            Some(done) => match zone_for(prefs.last()) {
                None => Some(done),
                Some(z) => match local_clock(
                    src.tz_id(),
                    z.tz_id(),
                    on.year as int,
                    on.month as int,
                    on.day as int,
                    hour,
                    minute,
                ) {
                    None => None,
                    Some(c) => Some(done.push(title_of(f, c.0, c.1, c.2))),
                },
            },
        }
    }
}

proof fn lemma_failure_persists(
    f: DisplayFormat,
    hour: int,
    minute: int,
    src: Zone,
    p: Seq<Seq<char>>,
    k: int,
    on: Day,
)
    requires
        0 <= k <= p.len(),
        titles_for(f, hour, minute, src, p.subrange(0, k), on) is None,
    ensures
        titles_for(f, hour, minute, src, p, on) is None,
    decreases p.len() - k,
{
    if k < p.len() {
        assert(p.subrange(0, k + 1).drop_last() =~= p.subrange(0, k));
        lemma_failure_persists(f, hour, minute, src, p, k + 1, on);
    } else {
        assert(p.subrange(0, k) =~= p);
    }
}

pub open spec fn views_of(v: Seq<String>) -> Seq<Seq<char>> {
    v.map_values(|s: String| s@)
}

/// The titles of the time `hour:minute` of day `on` in zone `src`, shown in
/// each zone of `prefs` in turn, in format `f`.
pub fn display_times(
    f: DisplayFormat,
    hour: u32,
    minute: u32,
    src: Zone,
    prefs: &Vec<String>,
    on: Day,
) -> (r: Option<Vec<String>>)
    ensures
        titles_for(f, hour as int, minute as int, src, views_of(prefs@), on) == (match r {
            Some(v) => Some(views_of(v@)),
            None => None,
        }),
{
    let mut out: Vec<String> = Vec::new();
    let mut i: usize = 0;
    while i < prefs.len()
        invariant
            i <= prefs@.len(),
            titles_for(f, hour as int, minute as int, src, views_of(prefs@.subrange(0, i as int)), on)
                == Some(views_of(out@)),
        decreases prefs@.len() - i,
    {
        let ghost before = views_of(prefs@.subrange(0, i as int));
        let ghost next = views_of(prefs@.subrange(0, i + 1));
        assert(next.drop_last() =~= before);
        assert(next.last() == prefs@[i as int]@);
        let target = get_time_object_from_timezone(prefs[i].as_str());
        if target.found {
            match clock_in(src.tz_name(), target.zone.tz_name(), on, hour, minute) {
                Some(c) => {
                    let title = format_time(f, c.0, c.1, c.2.as_str());
                    let ghost done = out@;
                    out.push(title);
                    assert(views_of(out@) =~= views_of(done).push(title@));
                },
                None => {
                    proof {
                        assert(views_of(prefs@).subrange(0, i + 1) =~= next);
                        lemma_failure_persists(
                            f,
                            hour as int,
                            minute as int,
                            src,
                            views_of(prefs@),
                            i + 1,
                            on,
                        );
                    }
                    return None;
                },
            }
        }
        i = i + 1;
    }
    assert(prefs@.subrange(0, i as int) =~= prefs@);
    Some(out)
}

} // verus!
