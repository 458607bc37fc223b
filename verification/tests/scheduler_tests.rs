use feedpress::clock::Moment;
use feedpress::config::FeedConfig;
use feedpress::scheduler::{SchedulePlan, Scheduler};

fn config(schedule: &str, enabled: bool) -> FeedConfig {
    FeedConfig {
        show_errors: false,
        max_age: 3,
        feed_limit: 2,
        schedule: schedule.to_string(),
        schedule_enabled: enabled,
        feed: vec![],
    }
}

/// 2024-09-21 00:00:00 UTC.
const NOW: Moment = Moment { secs: 1_726_876_800, nanos: 0 };

#[test]
fn new_scheduler_is_not_running() {
    assert!(!Scheduler::new().running);
}

#[test]
fn disabled_schedule_plans_nothing() {
    let s = Scheduler::new();
    assert_eq!(s.plan(&config("0 0 6 * * *", false), NOW), SchedulePlan::Disabled);
    assert_eq!(s.plan(&config("not cron", false), NOW), SchedulePlan::Disabled);
}

#[test]
fn unreadable_schedule_plans_nothing() {
    let s = Scheduler::new();
    assert_eq!(s.plan(&config("every morning", true), NOW), SchedulePlan::InvalidSchedule);
}

#[test]
fn schedule_gives_the_next_firing() {
    let s = Scheduler::new();
    // Every day at 06:00:00 UTC.
    assert_eq!(
        s.plan(&config("0 0 6 * * *", true), NOW),
        SchedulePlan::Next(Moment { secs: 1_726_876_800 + 6 * 3600, nanos: 0 })
    );
}

#[test]
fn schedule_that_never_fires_again() {
    let s = Scheduler::new();
    assert_eq!(s.plan(&config("0 0 0 1 1 * 2020", true), NOW), SchedulePlan::NoUpcoming);
}
