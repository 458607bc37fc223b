//! Instants, publication dates, and the age test that keeps stale articles
//! out of an edition.

use vstd::prelude::*;
use chrono::Datelike;

verus! {

/// An instant as a UNIX timestamp: whole seconds, and nanoseconds past that
/// second (at or above one second only within a leap second).
#[derive(Clone, Copy, Debug, PartialEq, Eq, Structural)]
pub struct Moment {
    pub secs: i64,
    pub nanos: u32,
}

/// The largest number of seconds away from the epoch of an instant that can
/// be dated (years -262144 to 262143).
pub const MOMENT_SECS_BOUND: i64 = 8_400_000_000_000;

/// The number of nanoseconds in a second.
pub const NANOS_PER_SEC: u32 = 1_000_000_000;

impl Moment {
    /// A datable instant: within the calendar's range, and at most one leap
    /// second past its whole second.
    pub open spec fn wf(self) -> bool {
        &&& -MOMENT_SECS_BOUND <= self.secs <= MOMENT_SECS_BOUND
        &&& self.nanos < 2 * NANOS_PER_SEC
    }

    /// Whether the instant is datable.
    pub fn is_wf(&self) -> (ok: bool)
        ensures
            ok == self.wf(),
    {
        -MOMENT_SECS_BOUND <= self.secs && self.secs <= MOMENT_SECS_BOUND && self.nanos < 2
            * NANOS_PER_SEC
    }
}

/// A calendar date.
#[derive(Clone, Copy, Debug, PartialEq, Eq, Structural)]
pub struct BibDate {
    pub year: i32,
    /// 1 to 12.
    pub month: u32,
    /// 1 to 31.
    pub day: u32,
}

/// A parsed publication date: the instant, and the calendar date in the
/// time zone the date was written in.
#[derive(Clone, Copy, Debug, PartialEq, Eq, Structural)]
pub struct PublishedAt {
    pub instant: Moment,
    pub date: BibDate,
}

/// What chrono's RFC 2822 parser makes of a text, `None` where it refuses it.
pub uninterp spec fn rfc2822_date(text: Seq<char>) -> Option<PublishedAt>;

/// Parses an RFC 2822 date with `chrono::DateTime::parse_from_rfc2822`.
/// Trusted: the result is what that parser gives for the text (`None` where it
/// returns an error), read out as the UNIX timestamp with its sub-second
/// nanoseconds and the calendar date in the parsed offset; chrono's dates lie
/// within years -262144 to 262143, its nanoseconds below two seconds and its
/// months and days in their calendar ranges.
#[verifier::external_body]
fn parse_rfc2822(text: &str) -> (parsed: Option<PublishedAt>)
    ensures
        parsed == rfc2822_date(text@),
        parsed matches Some(p) ==> {
            &&& p.instant.wf()
            &&& 1 <= p.date.month <= 12
            &&& 1 <= p.date.day <= 31
        },
{
    match chrono::DateTime::parse_from_rfc2822(text) {
        Ok(d) => Some(
            PublishedAt {
                instant: Moment { secs: d.timestamp(), nanos: d.timestamp_subsec_nanos() },
                date: BibDate { year: d.year(), month: d.month(), day: d.day() },
            },
        ),
        Err(_) => None,
    }
}

/// Parses the publication date of an article (RFC 2822, as RSS writes it).
pub fn parse_publication_date(text: &str) -> (parsed: Option<PublishedAt>)
    ensures
        parsed == rfc2822_date(text@),
        parsed matches Some(p) ==> p.instant.wf(),
{
    parse_rfc2822(text)
}

/// The time from `earlier` to `later` in nanoseconds, counting a leap second
/// as chrono does: a leap second of the earlier instant counts as a full
/// second once the later one is at a later time of day, and one of the later
/// instant is not counted when it is at an earlier time of day.
pub open spec fn elapsed_nanos(later: Moment, earlier: Moment) -> int {
    let later_tod = later.secs % 86400;
    let earlier_tod = earlier.secs % 86400;
    let adjust: int = if later_tod > earlier_tod && earlier.nanos >= NANOS_PER_SEC {
        1
    } else if later_tod < earlier_tod && later.nanos >= NANOS_PER_SEC {
        -1
    } else {
        0
    };
    (later.secs - earlier.secs + adjust) * (NANOS_PER_SEC as int) + later.nanos - earlier.nanos
}

/// The largest number of days that a time span can hold (spans are bounded
/// by `i64::MAX` milliseconds).
pub const MAX_SPAN_DAYS: i64 = 106_751_991_167;

/// The signed number of days a configured age stands for (a `usize` beyond
/// `i64::MAX` wraps around, as a cast does).
pub open spec fn signed_days(max_age: usize) -> int {
    if max_age <= i64::MAX { max_age as int } else { max_age - 0x1_0000_0000_0000_0000 }
}

/// Whether a span of `max_age` days can be formed; no age test can be made
/// with any other.
pub open spec fn age_limit_representable(max_age: usize) -> bool {
    -MAX_SPAN_DAYS <= signed_days(max_age) <= MAX_SPAN_DAYS
}

/// Whether an article published at `published` is more than `max_age` days
/// old at `now`.
pub open spec fn too_old(now: Moment, published: Moment, max_age: usize) -> bool {
    elapsed_nanos(now, published) > signed_days(max_age) * 86400 * (NANOS_PER_SEC as int)
}

/// Whether a span of `max_age` days can be formed.
pub fn age_limit_ok(max_age: usize) -> (ok: bool)
    ensures
        ok == age_limit_representable(max_age),
{
    if (max_age as u64) <= (i64::MAX as u64) {
        max_age as i64 <= MAX_SPAN_DAYS
    } else {
        // The cast wraps: the signed value is max_age - 2^64, whose magnitude
        // is u64::MAX - max_age + 1.
        let magnitude: u64 = (u64::MAX - max_age as u64) + 1;
        assert(signed_days(max_age) == -(magnitude as int));
        magnitude <= MAX_SPAN_DAYS as u64
    }
}

/// Whether the article published at `published` is older than `max_age`
/// days at `now`, so that it is left out of the edition.
pub fn article_too_old(now: Moment, published: Moment, max_age: usize) -> (old: bool)
    requires
        now.wf(),
        published.wf(),
        age_limit_representable(max_age),
    ensures
        old == too_old(now, published, max_age),
        now.nanos < NANOS_PER_SEC && published.nanos < NANOS_PER_SEC && max_age <= MAX_SPAN_DAYS
            ==> (old <==> (now.secs - published.secs) * 1_000_000_000 + now.nanos - published.nanos
            > max_age * 86400 * 1_000_000_000),
{
    proof {
        law_too_old_counts_whole_days(now, published, max_age);
    }
    let now_tod = now.secs % 86400;
    let pub_tod = published.secs % 86400;
    let now_tod = if now_tod < 0 { now_tod + 86400 } else { now_tod };
    let pub_tod = if pub_tod < 0 { pub_tod + 86400 } else { pub_tod };
    assert(now_tod == now.secs % 86400);
    assert(pub_tod == published.secs % 86400);
    let adjust: i64 = if now_tod > pub_tod && published.nanos >= NANOS_PER_SEC {
        1
    } else if now_tod < pub_tod && now.nanos >= NANOS_PER_SEC {
        -1
    } else {
        0
    };
    let whole: i128 = (now.secs as i128) - (published.secs as i128) + (adjust as i128);
    assert(-20_000_000_000_000 <= whole <= 20_000_000_000_000);
    let scaled: i128 = whole * 1_000_000_000;
    assert(scaled == whole * 1_000_000_000) by (nonlinear_arith)
        requires
            -20_000_000_000_000 <= whole <= 20_000_000_000_000,
            scaled == whole * 1_000_000_000,
    ;
    let elapsed: i128 = scaled + (now.nanos as i128) - (published.nanos as i128);
    let days: i128 = if (max_age as u64) <= (i64::MAX as u64) {
        max_age as i128
    } else {
        -(((u64::MAX - max_age as u64) as i128) + 1)
    };
    assert(days == signed_days(max_age));
    assert(-MAX_SPAN_DAYS <= days <= MAX_SPAN_DAYS);
    let limit: i128 = days * 86_400_000_000_000;
    assert(limit == signed_days(max_age) * 86400 * 1_000_000_000) by (nonlinear_arith)
        requires
            limit == days * 86_400_000_000_000,
            days == signed_days(max_age),
    ;
    elapsed > limit
}


/// The bound on instants that can be written as calendar dates and times:
/// well inside the calendar's range, and not inside a leap second.
pub const DATABLE_SECS_BOUND: i64 = 8_000_000_000_000;

/// An instant that can be written as a calendar date and time.
pub open spec fn datable(m: Moment) -> bool {
    -DATABLE_SECS_BOUND <= m.secs <= DATABLE_SECS_BOUND && m.nanos < NANOS_PER_SEC
}

/// Whether an instant can be written as a calendar date and time.
pub fn is_datable(m: Moment) -> (ok: bool)
    ensures
        ok == datable(m),
{
    -DATABLE_SECS_BOUND <= m.secs && m.secs <= DATABLE_SECS_BOUND && m.nanos < NANOS_PER_SEC
}

/// The instant as chrono writes it in UTC with the format
/// "%Y/%m/%d %H:%M:%S UTC".
pub uninterp spec fn utc_timestamp_text(m: Moment) -> Seq<char>;

/// Writes an instant with `chrono::DateTime::<Utc>::from_timestamp` and
/// `format("%Y/%m/%d %H:%M:%S UTC")`.
/// Trusted: the text is what that formatting gives for the instant, as
/// [`utc_timestamp_text`] names it; a datable instant is always in range.
#[verifier::external_body]
pub(crate) fn format_utc_timestamp(m: Moment) -> (text: String)
    requires
        datable(m),
    ensures
        text@ == utc_timestamp_text(m),
{
    let t = chrono::DateTime::from_timestamp(m.secs, m.nanos).expect("datable instant");
    format!("{}", t.format("%Y/%m/%d %H:%M:%S UTC"))
}

/// An article too old for a longer age limit is too old for a shorter one,
/// at any instants.
pub proof fn law_too_old_is_monotone_in_limit(
    now: Moment,
    published: Moment,
    short_limit: usize,
    long_limit: usize,
)
    requires
        short_limit <= long_limit <= MAX_SPAN_DAYS,
    ensures
        too_old(now, published, long_limit) ==> too_old(now, published, short_limit),
{
    assert(signed_days(short_limit) * 86400 * 1_000_000_000 <= signed_days(long_limit) * 86400
        * 1_000_000_000) by (nonlinear_arith)
        requires
            0 <= signed_days(short_limit) <= signed_days(long_limit),
    ;
}

/// An article published before one that is too old is too old as well, when
/// none of the three instants lies inside a leap second. (With a leap second
/// the age counts as chrono counts it and the order can flip: one day and
/// 0.3 s after the midnight that follows, an article of 23:59:60.5 counts as
/// 86399.8 s old and one of 00:00:00.2 as 86400.1 s old.)
pub proof fn law_too_old_is_monotone_in_date(
    now: Moment,
    earlier: Moment,
    later: Moment,
    max_age: usize,
)
    requires
        now.nanos < NANOS_PER_SEC,
        earlier.nanos < NANOS_PER_SEC,
        later.nanos < NANOS_PER_SEC,
        earlier.secs < later.secs || (earlier.secs == later.secs && earlier.nanos <= later.nanos),
    ensures
        too_old(now, later, max_age) ==> too_old(now, earlier, max_age),
{
    assert(elapsed_nanos(now, earlier) >= elapsed_nanos(now, later)) by (nonlinear_arith)
        requires
            elapsed_nanos(now, earlier) == (now.secs - earlier.secs) * 1_000_000_000 + now.nanos
                - earlier.nanos,
            elapsed_nanos(now, later) == (now.secs - later.secs) * 1_000_000_000 + now.nanos
                - later.nanos,
            earlier.secs < later.secs || (earlier.secs == later.secs && earlier.nanos
                <= later.nanos),
            earlier.nanos < 1_000_000_000,
            later.nanos < 1_000_000_000,
    ;
}


/// Outside leap seconds, an article is too old exactly when more than
/// `max_age` whole days have passed between its publication and `now`.
pub proof fn law_too_old_counts_whole_days(now: Moment, published: Moment, max_age: usize)
    ensures
        now.nanos < NANOS_PER_SEC && published.nanos < NANOS_PER_SEC && max_age <= MAX_SPAN_DAYS
            ==> (too_old(now, published, max_age) <==> (now.secs - published.secs) * 1_000_000_000
            + now.nanos - published.nanos > max_age * 86400 * 1_000_000_000),
{
}

} // verus!
