use tzconvert::pattern::{is_12_hour_format, is_24_hour_format, parse_time, DisplayFormat};
use tzconvert::project::{display_times, Day};
use tzconvert::render::format_time;
use tzconvert::reply::{list_all_timezones, respond, Reply};
use tzconvert::zones::{get_time_object_from_timezone, Zone, ZONE_COUNT};

const CODES: [&str; 34] = [
    "ACDT", "ACST", "AEDT", "AEST", "AKST", "AST", "AWST", "CAT", "CET", "CST", "EAT", "EET",
    "EST", "GMT", "HKT", "HST", "IST", "JST", "KST", "MET", "MSK", "MST", "NST", "NZDT", "PKT",
    "PST", "SAST", "SST", "UTC", "WAT", "WET", "WIB", "WIT", "WITA",
];

const EXAMPLE: &str = "example: 10:34am gmt or 18:30 pst";

fn winter() -> Day {
    Day { year: 2024, month: 1, day: 15 }
}

fn prefs(codes: &[&str]) -> Vec<String> {
    codes.iter().map(|c| c.to_string()).collect()
}

fn titles(r: &Reply) -> Vec<String> {
    r.items.iter().map(|i| i.title.clone()).collect()
}

fn single_error(r: &Reply) -> (String, String) {
    assert_eq!(r.items.len(), 1);
    (r.items[0].title.clone(), r.items[0].subtitle.clone().unwrap())
}

#[test]
fn twelve_hour_inputs_take_the_twelve_hour_path() {
    for code in CODES.iter() {
        for s in [format!("10:34am {}", code), format!("9:05pm {}", code.to_lowercase())] {
            assert!(is_12_hour_format(&s));
            let t = parse_time(&s).unwrap();
            assert_eq!(t.format, DisplayFormat::TwelveHour);
        }
    }
    let t = parse_time("10:34am gmt").unwrap();
    assert_eq!((t.hour, t.minute, t.zone.as_str()), (10, 34, "gmt"));
}

#[test]
fn meridian_moves_the_hour() {
    assert_eq!(parse_time("2:00pm pst").unwrap().hour, 14);
    assert_eq!(parse_time("2:00am pst").unwrap().hour, 2);
    assert_eq!(parse_time("12:00am utc").unwrap().hour, 0);
    assert_eq!(parse_time("12:15pm utc").unwrap().hour, 12);
    assert_eq!(parse_time("15:00pm utc").unwrap().hour, 15);
}

#[test]
fn twenty_four_hour_input() {
    let s = "18:30 pst";
    assert!(is_24_hour_format(s));
    assert!(!is_12_hour_format(s));
    let t = parse_time(s).unwrap();
    assert_eq!(t.format, DisplayFormat::TwentyFourHour);
    assert_eq!((t.hour, t.minute, t.zone.as_str()), (18, 30, "pst"));
    let t = parse_time("07:05 UTC").unwrap();
    assert_eq!((t.hour, t.minute), (7, 5));
}

#[test]
fn rejected_formats() {
    for s in ["notatime", "", "10:60 utc", "10:34amgmt", "10:34 ", "1034 gmt"] {
        assert!(!is_12_hour_format(s));
        assert!(!is_24_hour_format(s));
        assert!(parse_time(s).is_none());
    }
}

#[test]
fn first_time_in_the_string_is_read() {
    let t = parse_time("at 9:05 utc or 10:00 gmt").unwrap();
    assert_eq!((t.hour, t.minute, t.zone.as_str()), (9, 5, "utc"));
    let t = parse_time("x21:45 jst2").unwrap();
    assert_eq!((t.hour, t.minute, t.zone.as_str()), (21, 45, "jst"));
}

#[test]
fn codes_resolve_in_any_case() {
    for code in CODES.iter() {
        let upper = get_time_object_from_timezone(code);
        let lower = get_time_object_from_timezone(&code.to_lowercase());
        assert!(upper.found);
        assert_eq!(upper, lower);
    }
    assert_eq!(get_time_object_from_timezone("gMt").zone, Zone::London);
    assert_eq!(get_time_object_from_timezone("PST").zone, Zone::Pacific);
}

#[test]
fn unknown_code_is_not_found() {
    for code in ["ZZZ", "zzz", "", "GMTX", "UT"] {
        let r = get_time_object_from_timezone(code);
        assert!(!r.found);
        assert_eq!(r.zone, Zone::Utc);
    }
}

#[test]
fn listing_mode_lists_every_code() {
    for arg in ["list", "ls"] {
        for p in [vec![], prefs(&["GMT", "PST"])] {
            let r = respond(Some(arg), &p, winter());
            assert_eq!(r.status, 0);
            assert_eq!(r.items.len(), ZONE_COUNT);
            assert_eq!(titles(&r), prefs(&CODES));
            assert!(r.items.iter().all(|i| i.subtitle.is_none()));
        }
    }
    assert_eq!(list_all_timezones().len(), 34);
}

#[test]
fn utc_round_trip() {
    let r = respond(Some("12:00 UTC"), &prefs(&["UTC"]), winter());
    assert_eq!(r.status, 0);
    assert_eq!(titles(&r), vec!["12:00 UTC".to_string()]);
    assert!(r.items[0].subtitle.is_none());
}

#[test]
fn gmt_to_gmt_and_pacific() {
    let r = respond(Some("10:34am gmt"), &prefs(&["GMT", "PST"]), winter());
    assert_eq!(r.status, 0);
    assert_eq!(titles(&r), vec!["10:34am GMT".to_string(), "2:34am PST".to_string()]);
}

#[test]
fn summer_labels_come_from_the_zone_database() {
    let summer = Day { year: 2024, month: 7, day: 1 };
    let r = respond(Some("18:30 pst"), &prefs(&["PST", "GMT", "IST"]), summer);
    assert_eq!(
        titles(&r),
        vec!["18:30 PDT".to_string(), "02:30 BST".to_string(), "07:00 IST".to_string()]
    );
}

#[test]
fn invalid_time_format() {
    let r = respond(Some("notatime"), &prefs(&["GMT"]), winter());
    assert_eq!(r.status, 1);
    assert_eq!(single_error(&r), ("Invalid time format".to_string(), EXAMPLE.to_string()));
}

#[test]
fn invalid_source_timezone() {
    let r = respond(Some("10:00am zzz"), &prefs(&["GMT"]), winter());
    assert_eq!(r.status, 1);
    assert_eq!(
        single_error(&r),
        ("Invalid timezone".to_string(), "ZZZ is not a valid timezone".to_string())
    );
}

#[test]
fn missing_argument() {
    for arg in [None, Some("")] {
        let r = respond(arg, &prefs(&["GMT"]), winter());
        assert_eq!(r.status, 1);
        assert_eq!(
            single_error(&r),
            ("Error: Missing or empty time argument".to_string(), EXAMPLE.to_string())
        );
    }
}

#[test]
fn time_in_a_gap_is_reported() {
    let spring_forward = Day { year: 2024, month: 3, day: 10 };
    let r = respond(Some("2:30am pst"), &prefs(&["GMT"]), spring_forward);
    assert_eq!(r.status, 1);
    assert_eq!(
        single_error(&r),
        ("Invalid time".to_string(), "PST has no such time today".to_string())
    );
}

#[test]
fn unknown_targets_are_skipped_and_duplicates_kept() {
    let r = respond(Some("12:00 utc"), &prefs(&["EST", "nope", "est", "JST"]), winter());
    assert_eq!(r.status, 0);
    assert_eq!(
        titles(&r),
        vec!["07:00 EST".to_string(), "07:00 EST".to_string(), "21:00 JST".to_string()]
    );
    let r = respond(Some("12:00 utc"), &vec![], winter());
    assert_eq!(r.status, 0);
    assert!(r.items.is_empty());
}

#[test]
fn projection_shifts_the_clock() {
    let t = display_times(DisplayFormat::TwentyFourHour, 12, 0, Zone::Utc, &prefs(&["PST"]), winter());
    assert_eq!(t, Some(vec!["04:00 PST".to_string()]));
    let t = display_times(DisplayFormat::TwelveHour, 23, 59, Zone::Tokyo, &prefs(&["UTC"]), winter());
    assert_eq!(t, Some(vec!["2:59pm UTC".to_string()]));
}

#[test]
fn formatted_titles() {
    assert_eq!(format_time(DisplayFormat::TwelveHour, 0, 5, "UTC"), "12:05am UTC");
    assert_eq!(format_time(DisplayFormat::TwelveHour, 12, 0, "GMT"), "12:00pm GMT");
    assert_eq!(format_time(DisplayFormat::TwelveHour, 13, 7, "CET"), "1:07pm CET");
    assert_eq!(format_time(DisplayFormat::TwelveHour, 11, 59, "X"), "11:59am X");
    assert_eq!(format_time(DisplayFormat::TwentyFourHour, 7, 5, "X"), "07:05 X");
    assert_eq!(format_time(DisplayFormat::TwentyFourHour, 23, 0, "+0530"), "23:00 +0530");
}

#[test]
fn search_finds_a_time_inside_a_longer_hour() {
    let t = parse_time("24:00 utc").unwrap();
    assert_eq!((t.hour, t.minute), (4, 0));
}

#[test]
fn codes_fold_as_unicode_upper_case() {
    let cases = [("ıst", Zone::Kolkata), ("acſt", Zone::Darwin), ("pſt", Zone::Pacific)];
    for (code, zone) in cases {
        let r = get_time_object_from_timezone(code);
        assert!(r.found);
        assert_eq!(r.zone, zone);
        assert_eq!(r, get_time_object_from_timezone(&code.to_uppercase()));
    }
    let r = respond(Some("12:00 utc"), &prefs(&["ıst", "pſt"]), winter());
    assert_eq!(r.status, 0);
    assert_eq!(titles(&r), vec!["17:30 IST".to_string(), "04:00 PST".to_string()]);
}

#[test]
fn unknown_source_code_is_named_in_upper_case() {
    let r = respond(Some("18:30 xyz"), &prefs(&["GMT"]), winter());
    assert_eq!(r.status, 1);
    assert_eq!(
        single_error(&r),
        ("Invalid timezone".to_string(), "XYZ is not a valid timezone".to_string())
    );
}
