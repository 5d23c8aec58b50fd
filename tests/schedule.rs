use chrono::NaiveDate;
use hinode::{hours_minutes, reconcile, CivilDate, DayEvents, LoopStep, Mode, Plan, ScheduleDecision};
use sunrise::{Coordinates, SolarDay, SolarEvent};

/// Midnight UTC at the start of 2024-06-21.
const JUNE_21_UTC: i64 = 1_718_928_000;
/// New York summer time lags UTC by four hours.
const EDT: i64 = 4 * 3600;

fn sun_events(lat: f64, lon: f64, date: CivilDate) -> Option<DayEvents> {
    let day = NaiveDate::from_ymd_opt(date.year, date.month, date.day).unwrap();
    let solar = SolarDay::new(Coordinates::new(lat, lon).unwrap(), day);
    DayEvents::from_sun(
        solar.event_time(SolarEvent::Sunrise).map(|t| t.timestamp()),
        solar.event_time(SolarEvent::Sunset).map(|t| t.timestamp()),
    )
}

fn june_21() -> CivilDate {
    CivilDate::new(2024, 6, 21).unwrap()
}

fn plan_at(now: i64, today: CivilDate) -> Plan {
    match Plan::for_today(now, today, sun_events(40.0, -74.0, today)) {
        Plan::NeedTomorrow(next) => Plan::for_tomorrow(now, sun_events(40.0, -74.0, next)),
        plan => plan,
    }
}

#[test]
fn mid_day_start_keeps_light_and_waits_for_sunset() {
    let now = JUNE_21_UTC + 12 * 3600 + EDT;
    let events = sun_events(40.0, -74.0, june_21()).unwrap();
    assert_eq!(reconcile(now, Some(events), Mode::from_query_output(b"light\n")), None);
    assert_eq!(
        plan_at(now, june_21()),
        Plan::Switch(ScheduleDecision {
            next_event: events.sunset,
            target: Mode::Light,
            offset: (events.sunset - now) as u64,
        })
    );
}

#[test]
fn pre_dawn_start_switches_to_dark_once() {
    let now = JUNE_21_UTC + 3 * 3600 + EDT;
    let events = sun_events(40.0, -74.0, june_21()).unwrap();
    let first = reconcile(now, Some(events), Mode::from_query_output(b"light"));
    assert_eq!(first, Some(Mode::Dark));
    assert_eq!(reconcile(now, Some(events), first.unwrap()), None);
    assert_eq!(
        plan_at(now, june_21()),
        Plan::Switch(ScheduleDecision {
            next_event: events.sunrise,
            target: Mode::Dark,
            offset: (events.sunrise - now) as u64,
        })
    );
}

#[test]
fn past_sunset_waits_for_tomorrows_sunrise() {
    let now = JUNE_21_UTC + 23 * 3600 + EDT;
    let today = sun_events(40.0, -74.0, june_21()).unwrap();
    assert!(now >= today.sunset);
    let tomorrow_date = CivilDate::new(2024, 6, 22).unwrap();
    assert_eq!(Plan::for_today(now, june_21(), Some(today)), Plan::NeedTomorrow(tomorrow_date));
    let tomorrow = sun_events(40.0, -74.0, tomorrow_date).unwrap();
    assert!(tomorrow.sunrise > today.sunrise + 86_000);
    assert_eq!(
        plan_at(now, june_21()),
        Plan::Switch(ScheduleDecision {
            next_event: tomorrow.sunrise,
            target: Mode::Dark,
            offset: (tomorrow.sunrise - now) as u64,
        })
    );
}

#[test]
fn sunset_instant_resolves_to_light() {
    let events = sun_events(40.0, -74.0, june_21()).unwrap();
    assert_eq!(Mode::resolve(events.sunset, events.sunrise, events.sunset), Mode::Light);
    assert_eq!(Mode::expected_at(events.sunset, events.sunrise, events.sunset), Mode::Light);
    assert_eq!(reconcile(events.sunset, Some(events), Mode::from_query_output(b"light")), None);
    assert_eq!(reconcile(events.sunset, Some(events), Mode::from_query_output(b"dark")), Some(Mode::Light));
}

#[test]
fn sun_events_are_repeatable() {
    assert_eq!(sun_events(40.0, -74.0, june_21()), sun_events(40.0, -74.0, june_21()));
}

#[test]
fn plan_before_sunrise_targets_dark() {
    let e = DayEvents::from_sun(Some(1000), Some(5000));
    assert_eq!(
        Plan::for_today(400, june_21(), e),
        Plan::Switch(ScheduleDecision { next_event: 1000, target: Mode::Dark, offset: 600 })
    );
}

#[test]
fn plan_at_sunrise_targets_light_at_sunset() {
    let e = DayEvents::from_sun(Some(1000), Some(5000));
    assert_eq!(
        Plan::for_today(1000, june_21(), e),
        Plan::Switch(ScheduleDecision { next_event: 5000, target: Mode::Light, offset: 4000 })
    );
}

#[test]
fn plan_at_sunset_needs_next_day() {
    let e = DayEvents::from_sun(Some(1000), Some(5000));
    assert_eq!(Plan::for_today(5000, june_21(), e), Plan::NeedTomorrow(CivilDate::new(2024, 6, 22).unwrap()));
}

#[test]
fn next_day_crosses_month_and_year() {
    assert_eq!(CivilDate::new(2024, 2, 28).unwrap().next_day(), CivilDate::new(2024, 2, 29).unwrap());
    assert_eq!(CivilDate::new(2023, 2, 28).unwrap().next_day(), CivilDate::new(2023, 3, 1).unwrap());
    assert_eq!(CivilDate::new(2024, 4, 30).unwrap().next_day(), CivilDate::new(2024, 5, 1).unwrap());
    assert_eq!(CivilDate::new(2024, 12, 31).unwrap().next_day(), CivilDate::new(2025, 1, 1).unwrap());
    assert_eq!(CivilDate::new(1900, 2, 28).unwrap().next_day(), CivilDate::new(1900, 3, 1).unwrap());
    assert_eq!(CivilDate::new(2000, 2, 28).unwrap().next_day(), CivilDate::new(2000, 2, 29).unwrap());
}

#[test]
fn civil_date_rejects_invalid_days() {
    assert_eq!(CivilDate::new(2023, 2, 29), None);
    assert_eq!(CivilDate::new(2024, 13, 1), None);
    assert_eq!(CivilDate::new(2024, 4, 31), None);
    assert_eq!(CivilDate::new(0, 1, 1), None);
    assert_eq!(CivilDate::new(2024, 1, 0), None);
    assert!(CivilDate::new(2024, 2, 29).is_some());
}

#[test]
fn tomorrow_plan_clamps_a_past_sunrise_to_zero() {
    let e = DayEvents::from_sun(Some(1000), Some(5000));
    assert_eq!(
        Plan::for_tomorrow(2000, e),
        Plan::Switch(ScheduleDecision { next_event: 1000, target: Mode::Dark, offset: 0 })
    );
    assert_eq!(
        Plan::for_tomorrow(900, e),
        Plan::Switch(ScheduleDecision { next_event: 1000, target: Mode::Dark, offset: 100 })
    );
}

#[test]
fn irregular_day_is_rechecked() {
    assert_eq!(DayEvents::from_sun(None, Some(5)), None);
    assert_eq!(DayEvents::from_sun(Some(5), None), None);
    assert_eq!(DayEvents::from_sun(Some(5), Some(5)), None);
    assert_eq!(Plan::for_today(0, june_21(), None), Plan::Recheck);
    assert_eq!(Plan::for_tomorrow(0, None), Plan::Recheck);
    assert_eq!(reconcile(0, None, Mode::Dark), None);
}

#[test]
fn polar_summer_has_no_regular_day() {
    assert_eq!(sun_events(78.2, 15.6, june_21()), None);
    assert_eq!(Plan::for_today(JUNE_21_UTC, june_21(), sun_events(78.2, 15.6, june_21())), Plan::Recheck);
}

#[test]
fn loop_step_switches_when_event_is_near() {
    let plan = Plan::Switch(ScheduleDecision { next_event: 1000, target: Mode::Dark, offset: 600 });
    assert_eq!(LoopStep::from_plan(&plan, 600), LoopStep { sleep_secs: 600, switch_to: Some(Mode::Dark) });
}

#[test]
fn loop_step_clamps_long_waits() {
    let plan = Plan::Switch(ScheduleDecision { next_event: 10_000, target: Mode::Light, offset: 601 });
    assert_eq!(LoopStep::from_plan(&plan, 600), LoopStep { sleep_secs: 600, switch_to: None });
    assert_eq!(LoopStep::from_plan(&Plan::Recheck, 600), LoopStep { sleep_secs: 600, switch_to: None });
}

#[test]
fn reconcile_agreeing_mode_does_nothing() {
    let e = DayEvents::from_sun(Some(1000), Some(5000));
    assert_eq!(reconcile(2000, e, Mode::Light), None);
    assert_eq!(reconcile(2000, e, Mode::Dark), Some(Mode::Light));
    assert_eq!(reconcile(5000, e, Mode::Light), None);
    assert_eq!(reconcile(5000, e, Mode::Dark), Some(Mode::Light));
    assert_eq!(reconcile(5001, e, Mode::Light), Some(Mode::Dark));
}

#[test]
fn hours_and_minutes_of_an_offset() {
    assert_eq!(hours_minutes(0), (0, 0));
    assert_eq!(hours_minutes(3599), (0, 59));
    assert_eq!(hours_minutes(3 * 3600 + 25 * 60 + 59), (3, 25));
}

#[test]
fn past_sunset_on_new_years_eve_waits_for_new_years_sunrise() {
    // 23:00 New York winter time on 2025-12-31 is 04:00 UTC on 2026-01-01.
    let now: i64 = 1_767_225_600 + 4 * 3600;
    let eve = CivilDate::new(2025, 12, 31).unwrap();
    let new_year = CivilDate::new(2026, 1, 1).unwrap();
    let today = sun_events(40.0, -74.0, eve).unwrap();
    assert!(now >= today.sunset);
    assert_eq!(Plan::for_today(now, eve, Some(today)), Plan::NeedTomorrow(new_year));
    let tomorrow = sun_events(40.0, -74.0, new_year).unwrap();
    assert!(tomorrow.sunrise > now);
    assert_eq!(
        plan_at(now, eve),
        Plan::Switch(ScheduleDecision {
            next_event: tomorrow.sunrise,
            target: Mode::Dark,
            offset: (tomorrow.sunrise - now) as u64,
        })
    );
}
