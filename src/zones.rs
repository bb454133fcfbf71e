//! The fixed table of supported zone codes and the lookup that resolves a code,
//! in any letter case, to its zone.

use vstd::prelude::*;
use crate::text::{chars_of, string_of};

verus! {

/// A supported timezone, named after its tz database entry.
#[derive(Clone, Copy, Debug, PartialEq, Eq, Structural)]
pub enum Zone {
    /// Australia/Adelaide
    Adelaide,
    /// Australia/Darwin
    Darwin,
    /// Australia/Sydney
    Sydney,
    /// Australia/Queensland
    Queensland,
    /// US/Alaska
    Alaska,
    /// America/Halifax
    Halifax,
    /// Australia/Perth
    Perth,
    /// Africa/Gaborone
    Gaborone,
    /// Europe/Berlin
    Berlin,
    /// US/Central
    Central,
    /// Africa/Asmara
    Asmara,
    /// Europe/Helsinki
    Helsinki,
    /// US/Eastern
    Eastern,
    /// Europe/London
    London,
    /// Asia/Hong_Kong
    HongKong,
    /// US/Hawaii
    Hawaii,
    /// Asia/Kolkata
    Kolkata,
    /// Asia/Tokyo
    Tokyo,
    /// Asia/Seoul
    Seoul,
    /// Europe/Amsterdam
    Amsterdam,
    /// Europe/Moscow
    Moscow,
    /// US/Mountain
    Mountain,
    /// Canada/Newfoundland
    Newfoundland,
    /// Antarctica/McMurdo
    McMurdo,
    /// Asia/Karachi
    Karachi,
    /// US/Pacific
    Pacific,
    /// Africa/Johannesburg
    Johannesburg,
    /// US/Samoa
    Samoa,
    /// UTC
    Utc,
    /// Africa/Luanda
    Luanda,
    /// Europe/Lisbon
    Lisbon,
    /// Asia/Jakarta
    Jakarta,
    /// Asia/Jayapura
    Jayapura,
    /// Asia/Makassar
    Makassar,
}

/// Number of supported zone codes.
pub const ZONE_COUNT: usize = 34;

/// The supported zones, in the order in which their codes are listed.
pub open spec fn zone_table() -> Seq<Zone> {
    seq![
        Zone::Adelaide,
        Zone::Darwin,
        Zone::Sydney,
        Zone::Queensland,
        Zone::Alaska,
        Zone::Halifax,
        Zone::Perth,
        Zone::Gaborone,
        Zone::Berlin,
        Zone::Central,
        Zone::Asmara,
        Zone::Helsinki,
        Zone::Eastern,
        Zone::London,
        Zone::HongKong,
        Zone::Hawaii,
        Zone::Kolkata,
        Zone::Tokyo,
        Zone::Seoul,
        Zone::Amsterdam,
        Zone::Moscow,
        Zone::Mountain,
        Zone::Newfoundland,
        Zone::McMurdo,
        Zone::Karachi,
        Zone::Pacific,
        Zone::Johannesburg,
        Zone::Samoa,
        Zone::Utc,
        Zone::Luanda,
        Zone::Lisbon,
        Zone::Jakarta,
        Zone::Jayapura,
        Zone::Makassar
    ]
}

impl Zone {
    /// The code that names this zone.
    pub open spec fn code(self) -> Seq<char> {
        match self {
            Zone::Adelaide => seq!['A', 'C', 'D', 'T'],
            Zone::Darwin => seq!['A', 'C', 'S', 'T'],
            Zone::Sydney => seq!['A', 'E', 'D', 'T'],
            Zone::Queensland => seq!['A', 'E', 'S', 'T'],
            Zone::Alaska => seq!['A', 'K', 'S', 'T'],
            Zone::Halifax => seq!['A', 'S', 'T'],
            Zone::Perth => seq!['A', 'W', 'S', 'T'],
            Zone::Gaborone => seq!['C', 'A', 'T'],
            Zone::Berlin => seq!['C', 'E', 'T'],
            Zone::Central => seq!['C', 'S', 'T'],
            Zone::Asmara => seq!['E', 'A', 'T'],
            Zone::Helsinki => seq!['E', 'E', 'T'],
            Zone::Eastern => seq!['E', 'S', 'T'],
            Zone::London => seq!['G', 'M', 'T'],
            Zone::HongKong => seq!['H', 'K', 'T'],
            Zone::Hawaii => seq!['H', 'S', 'T'],
            Zone::Kolkata => seq!['I', 'S', 'T'],
            Zone::Tokyo => seq!['J', 'S', 'T'],
            Zone::Seoul => seq!['K', 'S', 'T'],
            Zone::Amsterdam => seq!['M', 'E', 'T'],
            Zone::Moscow => seq!['M', 'S', 'K'],
            Zone::Mountain => seq!['M', 'S', 'T'],
            Zone::Newfoundland => seq!['N', 'S', 'T'],
            Zone::McMurdo => seq!['N', 'Z', 'D', 'T'],
            Zone::Karachi => seq!['P', 'K', 'T'],
            Zone::Pacific => seq!['P', 'S', 'T'],
            Zone::Johannesburg => seq!['S', 'A', 'S', 'T'],
            Zone::Samoa => seq!['S', 'S', 'T'],
            Zone::Utc => seq!['U', 'T', 'C'],
            Zone::Luanda => seq!['W', 'A', 'T'],
            Zone::Lisbon => seq!['W', 'E', 'T'],
            Zone::Jakarta => seq!['W', 'I', 'B'],
            Zone::Jayapura => seq!['W', 'I', 'T'],
            Zone::Makassar => seq!['W', 'I', 'T', 'A'],
        }
    }

    /// The tz database name of this zone.
    pub open spec fn tz_id(self) -> Seq<char> {
        match self {
            Zone::Adelaide => "Australia/Adelaide"@,
            Zone::Darwin => "Australia/Darwin"@,
            Zone::Sydney => "Australia/Sydney"@,
            Zone::Queensland => "Australia/Queensland"@,
            Zone::Alaska => "US/Alaska"@,
            Zone::Halifax => "America/Halifax"@,
            Zone::Perth => "Australia/Perth"@,
            Zone::Gaborone => "Africa/Gaborone"@,
            Zone::Berlin => "Europe/Berlin"@,
            Zone::Central => "US/Central"@,
            Zone::Asmara => "Africa/Asmara"@,
            Zone::Helsinki => "Europe/Helsinki"@,
            Zone::Eastern => "US/Eastern"@,
            Zone::London => "Europe/London"@,
            Zone::HongKong => "Asia/Hong_Kong"@,
            Zone::Hawaii => "US/Hawaii"@,
            Zone::Kolkata => "Asia/Kolkata"@,
            Zone::Tokyo => "Asia/Tokyo"@,
            Zone::Seoul => "Asia/Seoul"@,
            Zone::Amsterdam => "Europe/Amsterdam"@,
            Zone::Moscow => "Europe/Moscow"@,
            Zone::Mountain => "US/Mountain"@,
            Zone::Newfoundland => "Canada/Newfoundland"@,
            Zone::McMurdo => "Antarctica/McMurdo"@,
            Zone::Karachi => "Asia/Karachi"@,
            Zone::Pacific => "US/Pacific"@,
            Zone::Johannesburg => "Africa/Johannesburg"@,
            Zone::Samoa => "US/Samoa"@,
            Zone::Utc => "UTC"@,
            Zone::Luanda => "Africa/Luanda"@,
            Zone::Lisbon => "Europe/Lisbon"@,
            Zone::Jakarta => "Asia/Jakarta"@,
            Zone::Jayapura => "Asia/Jayapura"@,
            Zone::Makassar => "Asia/Makassar"@,
        }
    }

    pub fn code_chars(&self) -> (r: Vec<char>)
        ensures
            r@ == self.code(),
    {
        match self {
            Zone::Adelaide => vec!['A', 'C', 'D', 'T'],
            Zone::Darwin => vec!['A', 'C', 'S', 'T'],
            Zone::Sydney => vec!['A', 'E', 'D', 'T'],
            Zone::Queensland => vec!['A', 'E', 'S', 'T'],
            Zone::Alaska => vec!['A', 'K', 'S', 'T'],
            Zone::Halifax => vec!['A', 'S', 'T'],
            Zone::Perth => vec!['A', 'W', 'S', 'T'],
            Zone::Gaborone => vec!['C', 'A', 'T'],
            Zone::Berlin => vec!['C', 'E', 'T'],
            Zone::Central => vec!['C', 'S', 'T'],
            Zone::Asmara => vec!['E', 'A', 'T'],
            Zone::Helsinki => vec!['E', 'E', 'T'],
            Zone::Eastern => vec!['E', 'S', 'T'],
            Zone::London => vec!['G', 'M', 'T'],
            Zone::HongKong => vec!['H', 'K', 'T'],
            Zone::Hawaii => vec!['H', 'S', 'T'],
            Zone::Kolkata => vec!['I', 'S', 'T'],
            Zone::Tokyo => vec!['J', 'S', 'T'],
            Zone::Seoul => vec!['K', 'S', 'T'],
            Zone::Amsterdam => vec!['M', 'E', 'T'],
            Zone::Moscow => vec!['M', 'S', 'K'],
            Zone::Mountain => vec!['M', 'S', 'T'],
            Zone::Newfoundland => vec!['N', 'S', 'T'],
            Zone::McMurdo => vec!['N', 'Z', 'D', 'T'],
            Zone::Karachi => vec!['P', 'K', 'T'],
            Zone::Pacific => vec!['P', 'S', 'T'],
            Zone::Johannesburg => vec!['S', 'A', 'S', 'T'],
            Zone::Samoa => vec!['S', 'S', 'T'],
            Zone::Utc => vec!['U', 'T', 'C'],
            Zone::Luanda => vec!['W', 'A', 'T'],
            Zone::Lisbon => vec!['W', 'E', 'T'],
            Zone::Jakarta => vec!['W', 'I', 'B'],
            Zone::Jayapura => vec!['W', 'I', 'T'],
            Zone::Makassar => vec!['W', 'I', 'T', 'A'],
        }
    }

    pub fn tz_name(&self) -> (r: &'static str)
        ensures
            r@ == self.tz_id(),
    {
        match self {
            Zone::Adelaide => "Australia/Adelaide",
            Zone::Darwin => "Australia/Darwin",
            Zone::Sydney => "Australia/Sydney",
            Zone::Queensland => "Australia/Queensland",
            Zone::Alaska => "US/Alaska",
            Zone::Halifax => "America/Halifax",
            Zone::Perth => "Australia/Perth",
            Zone::Gaborone => "Africa/Gaborone",
            Zone::Berlin => "Europe/Berlin",
            Zone::Central => "US/Central",
            Zone::Asmara => "Africa/Asmara",
            Zone::Helsinki => "Europe/Helsinki",
            Zone::Eastern => "US/Eastern",
            Zone::London => "Europe/London",
            Zone::HongKong => "Asia/Hong_Kong",
            Zone::Hawaii => "US/Hawaii",
            Zone::Kolkata => "Asia/Kolkata",
            Zone::Tokyo => "Asia/Tokyo",
            Zone::Seoul => "Asia/Seoul",
            Zone::Amsterdam => "Europe/Amsterdam",
            Zone::Moscow => "Europe/Moscow",
            Zone::Mountain => "US/Mountain",
            Zone::Newfoundland => "Canada/Newfoundland",
            Zone::McMurdo => "Antarctica/McMurdo",
            Zone::Karachi => "Asia/Karachi",
            Zone::Pacific => "US/Pacific",
            Zone::Johannesburg => "Africa/Johannesburg",
            Zone::Samoa => "US/Samoa",
            Zone::Utc => "UTC",
            Zone::Luanda => "Africa/Luanda",
            Zone::Lisbon => "Europe/Lisbon",
            Zone::Jakarta => "Asia/Jakarta",
            Zone::Jayapura => "Asia/Jayapura",
            Zone::Makassar => "Asia/Makassar",
        }
    }
}

/// All supported zones, in table order.
pub fn all_zones() -> (r: Vec<Zone>)
    ensures
        r@ == zone_table(),
{
    let r = vec![
        Zone::Adelaide,
        Zone::Darwin,
        Zone::Sydney,
        Zone::Queensland,
        Zone::Alaska,
        Zone::Halifax,
        Zone::Perth,
        Zone::Gaborone,
        Zone::Berlin,
        Zone::Central,
        Zone::Asmara,
        Zone::Helsinki,
        Zone::Eastern,
        Zone::London,
        Zone::HongKong,
        Zone::Hawaii,
        Zone::Kolkata,
        Zone::Tokyo,
        Zone::Seoul,
        Zone::Amsterdam,
        Zone::Moscow,
        Zone::Mountain,
        Zone::Newfoundland,
        Zone::McMurdo,
        Zone::Karachi,
        Zone::Pacific,
        Zone::Johannesburg,
        Zone::Samoa,
        Zone::Utc,
        Zone::Luanda,
        Zone::Lisbon,
        Zone::Jakarta,
        Zone::Jayapura,
        Zone::Makassar
    ];
    assert(r@ =~= zone_table());
    r
}

/// The upper-case form of `s`, as `str::to_uppercase` gives it.
pub uninterp spec fn upper_of(s: Seq<char>) -> Seq<char>;

/// Relies on `str::to_uppercase`: the Unicode upper-case form of `s`, which
/// depends on its characters alone.
#[verifier::external_body]
pub fn to_upper(s: &str) -> (r: String)
    ensures
        r@ == upper_of(s@),
{
    s.to_uppercase()
}

/// The first zone of the table from index `k` on whose code is `u`.
pub open spec fn lookup_from(u: Seq<char>, k: int) -> Option<Zone>
    decreases zone_table().len() - k,
{
    if 0 <= k < zone_table().len() {
        if zone_table()[k].code() == u {
            Some(zone_table()[k])
        } else {
            lookup_from(u, k + 1)
        }
    } else {
        None
    }
}

/// The zone that `code` names, in any letter case.
pub open spec fn zone_for(code: Seq<char>) -> Option<Zone> {
    lookup_from(upper_of(code), 0)
}

/// The outcome of resolving a zone code. Where `found` is false, `zone` is
/// the UTC placeholder and means nothing.
#[derive(Clone, Copy, Debug, PartialEq, Eq, Structural)]
pub struct Resolution {
    pub found: bool,
    pub zone: Zone,
}

pub open spec fn resolution_of(code: Seq<char>) -> Resolution {
    match zone_for(code) {
        Some(z) => Resolution { found: true, zone: z },
        None => Resolution { found: false, zone: Zone::Utc },
    }
}

/// Whether `a` and `b` hold the same characters.
pub fn same_chars(a: &Vec<char>, b: &Vec<char>) -> (r: bool)
    ensures
        r == (a@ == b@),
{
    if a.len() != b.len() {
        return false;
    }
    let mut i: usize = 0;
    while i < a.len()
        invariant
            a@.len() == b@.len(),
            i <= a@.len(),
            forall|j: int| 0 <= j < i ==> a@[j] == b@[j],
        decreases a@.len() - i,
    {
        if a[i] != b[i] {
            return false;
        }
        i = i + 1;
    }
    assert(a@ =~= b@);
    true
}

/// Resolves a zone code, in any letter case, against the table.
pub fn get_time_object_from_timezone(timezone: &str) -> (r: Resolution)
    ensures
        r == resolution_of(timezone@),
{
    let code = chars_of(to_upper(timezone).as_str());
    let zones = all_zones();
    let mut k: usize = 0;
    while k < zones.len()
        invariant
            zones@ == zone_table(),
            k <= zones@.len(),
            code@ == upper_of(timezone@),
            lookup_from(code@, 0) == lookup_from(code@, k as int),
        decreases zones@.len() - k,
    {
        let z = zones[k];
        if same_chars(&z.code_chars(), &code) {
            return Resolution { found: true, zone: z };
        }
        k = k + 1;
    }
    Resolution { found: false, zone: Zone::Utc }
}

proof fn lemma_lookup_finds(u: Seq<char>, j: int, k: int)
    requires
        0 <= j <= k < zone_table().len(),
        zone_table()[k].code() == u,
    ensures
        lookup_from(u, j) is Some,
    decreases k - j,
{
    if zone_table()[j].code() != u {
        lemma_lookup_finds(u, j + 1, k);
    }
}

proof fn lemma_lookup_misses(u: Seq<char>, j: int)
    requires
        0 <= j,
        forall|k: int| 0 <= k < zone_table().len() ==> zone_table()[k].code() != u,
    ensures
        lookup_from(u, j) is None,
    decreases zone_table().len() - j,
{
    if j < zone_table().len() {
        lemma_lookup_misses(u, j + 1);
    }
}

proof fn lemma_lookup_gives_match(u: Seq<char>, j: int)
    requires
        0 <= j,
    ensures
        lookup_from(u, j) matches Some(z) ==> z.code() == u && zone_table().contains(z),
    decreases zone_table().len() - j,
{
    if j < zone_table().len() && zone_table()[j].code() != u {
        lemma_lookup_gives_match(u, j + 1);
    }
}

/// The table lists each code once.
pub proof fn lemma_codes_distinct()
    ensures
        forall|j: int, k: int|
            0 <= j < k < zone_table().len() ==> zone_table()[j].code() != zone_table()[k].code(),
{
    assert forall|j: int, k: int|
        0 <= j < k < zone_table().len() implies zone_table()[j].code() != zone_table()[k].code() by {
        let a = zone_table()[j].code();
        let b = zone_table()[k].code();
        if a.len() == b.len() {
            assert(a[0] != b[0] || a[1] != b[1] || a[2] != b[2] || (a.len() == 4 && a[3] != b[3]));
        }
    }
}

/// Codes with the same upper-case form resolve alike: `pst`, `Pst` and `PST`
/// name one zone.
pub proof fn lemma_resolution_follows_upper_case(a: Seq<char>, b: Seq<char>)
    requires
        upper_of(a) == upper_of(b),
    ensures
        resolution_of(a) == resolution_of(b),
{
}

/// A code resolves exactly when its upper-case form is a code of the table,
/// and then to the zone of that entry.
pub proof fn lemma_found_iff_listed(code: Seq<char>)
    ensures
        resolution_of(code).found <==> exists|k: int|
            0 <= k < zone_table().len() && #[trigger] zone_table()[k].code() == upper_of(code),
        resolution_of(code).found ==> resolution_of(code).zone.code() == upper_of(code),
{
    let u = upper_of(code);
    lemma_lookup_gives_match(u, 0);
    if exists|k: int| 0 <= k < zone_table().len() && #[trigger] zone_table()[k].code() == u {
        let k = choose|k: int| 0 <= k < zone_table().len() && #[trigger] zone_table()[k].code() == u;
        lemma_lookup_finds(u, 0, k);
    }
    if resolution_of(code).found {
        let z = resolution_of(code).zone;
        let k = zone_table().index_of(z);
        assert(zone_table()[k].code() == u);
    }
}

/// Each code of the table, written as the table writes it, is looked up to
/// its own zone.
pub proof fn lemma_table_code_resolves(k: int)
    requires
        0 <= k < zone_table().len(),
    ensures
        lookup_from(zone_table()[k].code(), 0) == Some(zone_table()[k]),
{
    let code = zone_table()[k].code();
    lemma_codes_distinct();
    lemma_lookup_finds(code, 0, k);
    lemma_lookup_gives_match(code, 0);
    let z = lookup_from(code, 0)->0;
    let j = zone_table().index_of(z);
    assert(zone_table()[j].code() == code);
}

/// A code whose upper-case form is no code of the table does not resolve.
pub proof fn lemma_unknown_code_not_found(code: Seq<char>)
    requires
        forall|k: int| 0 <= k < zone_table().len() ==> zone_table()[k].code() != upper_of(code),
    ensures
        !resolution_of(code).found,
{
    lemma_lookup_misses(upper_of(code), 0);
}

} // verus!
