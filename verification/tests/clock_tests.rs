use feedpress::clock::{age_limit_ok, article_too_old, is_datable, parse_publication_date, BibDate, Moment};

const DAY: i64 = 86_400;

fn at(secs: i64) -> Moment {
    Moment { secs, nanos: 0 }
}

#[test]
fn parses_rfc2822_dates() {
    let p = parse_publication_date("Fri, 20 Sep 2024 14:35:19 GMT").expect("a date");
    assert_eq!(p.instant, Moment { secs: 1_726_842_919, nanos: 0 });
    assert_eq!(p.date, BibDate { year: 2024, month: 9, day: 20 });
}

#[test]
fn parses_dates_with_offsets_in_their_own_zone() {
    let p = parse_publication_date("Sat, 21 Sep 2024 01:00:00 +0200").expect("a date");
    assert_eq!(p.instant.secs, 1_726_873_200);
    assert_eq!(p.date, BibDate { year: 2024, month: 9, day: 21 });
}

#[test]
fn refuses_unreadable_dates() {
    assert!(parse_publication_date("yesterday").is_none());
    assert!(parse_publication_date("").is_none());
}

#[test]
fn articles_older_than_the_limit_are_too_old() {
    let published = at(1_700_000_000);
    assert!(!article_too_old(at(1_700_000_000 + 3 * DAY), published, 3));
    assert!(article_too_old(Moment { secs: 1_700_000_000 + 3 * DAY, nanos: 1 }, published, 3));
    assert!(article_too_old(at(1_700_000_000 + 3 * DAY + 1), published, 3));
    assert!(!article_too_old(at(1_700_000_000 - DAY), published, 0));
    assert!(article_too_old(at(1_700_000_000 + 1), published, 0));
}

#[test]
fn leap_second_counts_as_chrono_counts_it() {
    // Published during the leap second after 23:59:59 (second of day 86399).
    let published = Moment { secs: 86_399, nanos: 1_000_000_000 };
    // At midnight of the next day only no time has passed once the leap second is counted.
    assert!(!article_too_old(at(86_400), published, 0));
    assert!(article_too_old(Moment { secs: 86_400, nanos: 1 }, published, 0));
}

#[test]
fn age_limits_must_fit_a_time_span() {
    assert!(age_limit_ok(3));
    assert!(age_limit_ok(106_751_991_167));
    assert!(!age_limit_ok(106_751_991_168));
    assert!(!age_limit_ok(usize::MAX / 2));
    assert!(age_limit_ok(usize::MAX));
}

#[test]
fn shorter_limits_and_earlier_dates_are_older() {
    let now = at(1_700_000_000);
    let later = at(1_700_000_000 - 5 * DAY);
    let earlier = at(1_700_000_000 - 6 * DAY);
    assert!(article_too_old(now, later, 4));
    assert!(article_too_old(now, later, 2));
    assert!(article_too_old(now, earlier, 4));
    assert!(!article_too_old(now, later, 5));
    assert!(article_too_old(now, earlier, 5));
}

#[test]
fn datable_instants() {
    assert!(is_datable(at(0)));
    assert!(is_datable(Moment { secs: -8_000_000_000_000, nanos: 999_999_999 }));
    assert!(!is_datable(Moment { secs: 0, nanos: 1_000_000_000 }));
    assert!(!is_datable(at(8_000_000_000_001)));
}

#[test]
fn leap_seconds_can_flip_the_age_order() {
    // 23:59:60.5 on the first day and 00:00:00.2 the next, seen at 00:00:00.3
    // one day later: the earlier article counts as 86399.8 s old, the later one
    // as 86400.1 s, so only the later one is more than a day old.
    let in_leap = Moment { secs: 86_399, nanos: 1_500_000_000 };
    let after_midnight = Moment { secs: 86_400, nanos: 200_000_000 };
    let now = Moment { secs: 172_800, nanos: 300_000_000 };
    assert!(article_too_old(now, after_midnight, 1));
    assert!(!article_too_old(now, in_leap, 1));
    // A shorter limit still judges both too old.
    assert!(article_too_old(now, in_leap, 0));
    assert!(article_too_old(now, after_midnight, 0));
}
