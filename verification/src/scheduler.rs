//! The pressing schedule: whether and when the next automated pressing runs.

use vstd::prelude::*;
use std::str::FromStr;
use crate::clock::{Moment, datable};
use crate::config::{FeedConfig, FeedConfigView};

verus! {

/// What the `cron` crate makes of a schedule expression and an instant:
/// `None` where it refuses the expression, else the first firing after the
/// instant (UTC), if there is one.
pub uninterp spec fn cron_next_firing(expression: Seq<char>, after: Moment) -> Option<Option<Moment>>;

/// Parses `expression` with `<cron::Schedule as FromStr>::from_str` and takes
/// the first item of `Schedule::after` at `after` (a UTC instant made with
/// `chrono::DateTime::from_timestamp`).
/// Trusted: the result is `None` where the parser returns an error, and else
/// the first firing the schedule gives after that instant, read out as its
/// UNIX timestamp and nanoseconds, as [`cron_next_firing`] names it. A firing
/// is a whole second no earlier than one second past the instant's whole
/// second (the search starts there), so it lies in a later second.
#[verifier::external_body]
fn cron_next_after(expression: &str, after: Moment) -> (next: Option<Option<Moment>>)
    requires
        datable(after),
    ensures
        next == cron_next_firing(expression@, after),
        next matches Some(Some(t)) ==> t.secs > after.secs,
{
    let schedule = match cron::Schedule::from_str(expression) {
        Ok(s) => s,
        Err(_) => return None,
    };
    let start = chrono::DateTime::from_timestamp(after.secs, after.nanos).expect("datable instant");
    Some(
        schedule.after(&start).next().map(
            |t| Moment { secs: t.timestamp(), nanos: t.timestamp_subsec_nanos() },
        ),
    )
}

/// What the scheduler is to do.
#[derive(Clone, Copy, Debug, PartialEq, Eq, Structural)]
pub enum SchedulePlan {
    /// Scheduling is switched off in the configuration.
    Disabled,
    /// The schedule is not a readable cron expression; nothing is scheduled.
    InvalidSchedule,
    /// The schedule never fires again.
    NoUpcoming,
    /// The next pressing is due at this instant.
    Next(Moment),
}

/// The scheduler's decision for a configuration at `now`.
pub open spec fn schedule_plan_of(config: FeedConfigView, now: Moment) -> SchedulePlan {
    if !config.schedule_enabled {
        SchedulePlan::Disabled
    } else {
        match cron_next_firing(config.schedule, now) {
            None => SchedulePlan::InvalidSchedule,
            Some(None) => SchedulePlan::NoUpcoming,
            Some(Some(t)) => SchedulePlan::Next(t),
        }
    }
}

/// Runs automated pressings on the configured schedule.
pub struct Scheduler {
    pub running: bool,
}

impl Scheduler {
    /// A scheduler that is not running.
    pub fn new() -> (s: Scheduler)
        ensures
            !s.running,
    {
        Scheduler { running: false }
    }

    /// Decides, at `now`, what the schedule of `config` asks for: nothing
    /// when scheduling is off or the expression is unreadable, else the next
    /// firing.
    pub fn plan(&self, config: &FeedConfig, now: Moment) -> (plan: SchedulePlan)
        requires
            datable(now),
        ensures
            plan == schedule_plan_of(config@, now),
            plan matches SchedulePlan::Next(t) ==> t.secs > now.secs,
            !config@.schedule_enabled <==> plan == SchedulePlan::Disabled,
            config@.schedule_enabled ==> (plan is InvalidSchedule <==> cron_next_firing(
                config@.schedule,
                now,
            ) is None),
            plan matches SchedulePlan::Next(t) ==> cron_next_firing(config@.schedule, now) == Some(
                Some(t),
            ),
    {
        if !config.schedule_enabled {
            return SchedulePlan::Disabled;
        }
        match cron_next_after(config.schedule.as_str(), now) {
            None => SchedulePlan::InvalidSchedule,
            Some(None) => SchedulePlan::NoUpcoming,
            Some(Some(t)) => SchedulePlan::Next(t),
        }
    }
}


/// An enabled schedule is read at `now` itself: the plan is the cron
/// schedule's first firing after `now`, an unreadable schedule plans
/// nothing, and a disabled one is never read.
pub proof fn law_plan_reads_schedule_at_now(config: FeedConfigView, now: Moment)
    ensures
        !config.schedule_enabled <==> schedule_plan_of(config, now) == SchedulePlan::Disabled,
        config.schedule_enabled ==> (schedule_plan_of(config, now) is InvalidSchedule
            <==> cron_next_firing(config.schedule, now) is None),
        config.schedule_enabled ==> (schedule_plan_of(config, now) is NoUpcoming
            <==> cron_next_firing(config.schedule, now) == Some(None::<Moment>)),
        schedule_plan_of(config, now) matches SchedulePlan::Next(t) ==> cron_next_firing(
            config.schedule,
            now,
        ) == Some(Some(t)),
{
}

} // verus!
