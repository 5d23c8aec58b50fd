use crate::calendar::{next_day_spec, CivilDate, MAX_YEAR};
use crate::mode::{daylight_mode_spec, resolve_mode_spec, Mode};
use vstd::prelude::*;

verus! {

/// The sunrise and sunset of one calendar day at one place, as UTC
/// timestamps in seconds.
#[derive(Clone, Copy, Debug, PartialEq, Eq, Structural)]
pub struct DayEvents {
    pub sunrise: i64,
    pub sunset: i64,
}

/// The next switch: when it is due, the mode that begins then, and how many
/// seconds remain until then, never negative.
#[derive(Clone, Copy, Debug, PartialEq, Eq, Structural)]
pub struct ScheduleDecision {
    pub next_event: i64,
    pub target: Mode,
    pub offset: u64,
}

/// What the scheduler concludes from the current moment.
#[derive(Clone, Copy, Debug, PartialEq, Eq, Structural)]
pub enum Plan {
    /// A switch is due at a known moment.
    Switch(ScheduleDecision),
    /// Today's sunset has passed; the sun events of this date, the next
    /// day, are needed to go on.
    NeedTomorrow(CivilDate),
    /// The sun does not both rise and set on the day (polar day or night):
    /// nothing is scheduled, and the situation is looked at again after the
    /// longest allowed sleep.
    Recheck,
}

/// One turn of the main loop: sleep this long, then switch to the mode given,
/// if any, and plan again.
#[derive(Clone, Copy, Debug, PartialEq, Eq, Structural)]
pub struct LoopStep {
    pub sleep_secs: u64,
    pub switch_to: Option<Mode>,
}

impl DayEvents {
    pub open spec fn wf(&self) -> bool {
        self.sunrise < self.sunset
    }

    /// The day's events when the sun both rises and sets, sunrise first;
    /// `None` for a day without sunrise or without sunset.
    pub fn from_sun(sunrise: Option<i64>, sunset: Option<i64>) -> (r: Option<DayEvents>)
        ensures
            r is Some <==> (sunrise is Some && sunset is Some && sunrise->0 < sunset->0),
            r matches Some(e) ==> e.wf() && Some(e.sunrise) == sunrise && Some(e.sunset)
                == sunset,
    {
        match (sunrise, sunset) {
            (Some(rise), Some(set)) => if rise < set {
                Some(DayEvents { sunrise: rise, sunset: set })
            } else {
                None
            },
            _ => None,
        }
    }
}

pub open spec fn events_wf(events: Option<DayEvents>) -> bool {
    events matches Some(e) ==> e.wf()
}

/// Seconds from `now` until `next`, or zero where `next` already lies behind.
pub open spec fn offset_spec(now: int, next: int) -> int {
    if next >= now {
        next - now
    } else {
        0
    }
}

pub open spec fn decision_spec(now: int, next: i64, target: Mode) -> ScheduleDecision {
    ScheduleDecision { next_event: next, target, offset: offset_spec(now, next as int) as u64 }
}

/// Before sunrise the next switch is to `Dark` at sunrise; from sunrise until
/// sunset it is to `Light` at sunset; after sunset tomorrow's sunrise is needed.
pub open spec fn plan_today_spec(now: int, today: CivilDate, events: Option<DayEvents>) -> Plan {
    match events {
        None => Plan::Recheck,
        Some(e) => if now < e.sunrise {
            Plan::Switch(decision_spec(now, e.sunrise, Mode::Dark))
        } else if now < e.sunset {
            Plan::Switch(decision_spec(now, e.sunset, Mode::Light))
        } else {
            let (y, m, d) = next_day_spec(today.year as int, today.month as int, today.day as int);
            Plan::NeedTomorrow(CivilDate { year: y as i32, month: m as u32, day: d as u32 })
        },
    }
}

/// After today's sunset the next switch is to `Dark` at tomorrow's sunrise.
pub open spec fn plan_tomorrow_spec(now: int, tomorrow: Option<DayEvents>) -> Plan {
    match tomorrow {
        None => Plan::Recheck,
        Some(e) => Plan::Switch(decision_spec(now, e.sunrise, Mode::Dark)),
    }
}

/// A switch no further away than `max_sleep` is slept towards and made; a
/// later one is approached by a sleep of `max_sleep` and a fresh plan.
pub open spec fn loop_step_spec(plan: Plan, max_sleep: u64) -> LoopStep {
    match plan {
        Plan::Switch(d) => if d.offset <= max_sleep {
            LoopStep { sleep_secs: d.offset, switch_to: Some(d.target) }
        } else {
            LoopStep { sleep_secs: max_sleep, switch_to: None }
        },
        _ => LoopStep { sleep_secs: max_sleep, switch_to: None },
    }
}

/// The correction that startup makes: the expected mode where the observed
/// one differs from it, nothing where they agree or the day has no regular
/// sunrise and sunset.
pub open spec fn reconcile_spec(now: int, events: Option<DayEvents>, observed: Mode) -> Option<
    Mode,
> {
    match events {
        None => None,
        Some(e) => {
            let expected = daylight_mode_spec(now, e.sunrise as int, e.sunset as int);
            if observed == expected {
                None
            } else {
                Some(expected)
            }
        },
    }
}

/// A decision to switch to `target` at `next`, seen from `now`.
fn decide(now: i64, next: i64, target: Mode) -> (r: ScheduleDecision)
    ensures
        r == decision_spec(now as int, next, target),
        r.offset as int == offset_spec(now as int, next as int),
{
    let offset: u64 = if next >= now {
        (next as i128 - now as i128) as u64
    } else {
        0
    };
    ScheduleDecision { next_event: next, target, offset }
}

impl Plan {
    /// Plans from `now` and the sun events of the local calendar day `today`
    /// that holds `now`.
    pub fn for_today(now: i64, today: CivilDate, events: Option<DayEvents>) -> (r: Plan)
        requires
            today.wf(),
            today.year < MAX_YEAR || today.month < 12 || today.day < 31,
            events_wf(events),
        ensures
            r == plan_today_spec(now as int, today, events),
            r matches Plan::NeedTomorrow(d) ==> d.wf(),
    {
        match events {
            None => Plan::Recheck,
            Some(e) => if now < e.sunrise {
                Plan::Switch(decide(now, e.sunrise, Mode::Dark))
            } else if now < e.sunset {
                Plan::Switch(decide(now, e.sunset, Mode::Light))
            } else {
                Plan::NeedTomorrow(today.next_day())
            },
        }
    }

    /// Plans from `now`, past today's sunset, and the sun events of the next
    /// calendar day.
    pub fn for_tomorrow(now: i64, tomorrow: Option<DayEvents>) -> (r: Plan)
        requires
            events_wf(tomorrow),
        ensures
            r == plan_tomorrow_spec(now as int, tomorrow),
    {
        match tomorrow {
            None => Plan::Recheck,
            Some(e) => Plan::Switch(decide(now, e.sunrise, Mode::Dark)),
        }
    }
}

impl LoopStep {
    /// The sleep and switch that carry out `plan`, with no sleep longer than
    /// `max_sleep` seconds.
    pub fn from_plan(plan: &Plan, max_sleep: u64) -> (r: LoopStep)
        requires
            !(plan is NeedTomorrow),
        ensures
            r == loop_step_spec(*plan, max_sleep),
            r.sleep_secs <= max_sleep,
    {
        match plan {
            Plan::Switch(d) => if d.offset <= max_sleep {
                LoopStep { sleep_secs: d.offset, switch_to: Some(d.target) }
            } else {
                LoopStep { sleep_secs: max_sleep, switch_to: None }
            },
            _ => LoopStep { sleep_secs: max_sleep, switch_to: None },
        }
    }
}

/// The mode to switch to at startup, given the mode the host reports: the
/// expected mode for `now` where the two differ, `None` where they agree or
/// the day lacks a regular sunrise and sunset.
pub fn reconcile(now: i64, events: Option<DayEvents>, observed: Mode) -> (r: Option<Mode>)
    ensures
        r == reconcile_spec(now as int, events, observed),
{
    match events {
        None => None,
        Some(e) => {
            let expected = Mode::expected_at(now, e.sunrise, e.sunset);
            if observed == expected {
                None
            } else {
                Some(expected)
            }
        },
    }
}

/// Whole hours, and the minutes left over, in `secs` seconds.
pub fn hours_minutes(secs: u64) -> (r: (u64, u64))
    ensures
        r.0 == secs / 3600,
        r.1 == (secs % 3600) / 60,
{
    (secs / 3600, (secs % 3600) / 60)
}

/// Scheduling never looks backwards: a switch planned from today's events
/// lies strictly after `now`, and its offset is the exact distance to it.
pub proof fn lemma_today_plan_ahead(now: int, today: CivilDate, events: Option<DayEvents>)
    requires
        i64::MIN <= now <= i64::MAX,
        events_wf(events),
    ensures
        plan_today_spec(now, today, events) matches Plan::Switch(d) ==> now < d.next_event
            && d.offset == d.next_event - now,
{
}

/// A switch planned after sunset is slept towards for exactly the time left
/// until tomorrow's sunrise, and for no time at all should that sunrise
/// already lie behind `now`: the offset is never negative.
pub proof fn lemma_tomorrow_plan_offset(now: int, tomorrow: Option<DayEvents>)
    requires
        i64::MIN <= now <= i64::MAX,
    ensures
        plan_tomorrow_spec(now, tomorrow) matches Plan::Switch(d) ==> d.offset as int
            == offset_spec(now, d.next_event as int) && (d.next_event >= now ==> d.offset
            == d.next_event - now) && (d.next_event < now ==> d.offset == 0),
{
}

/// Past today's sunset the scheduler never aims at today's sunrise: it asks
/// for the sun events of the following calendar day, and then switches to
/// `Dark` at tomorrow's sunrise, sleeping exactly until it when it lies ahead.
pub proof fn lemma_past_sunset_targets_tomorrow(
    now: int,
    today: CivilDate,
    events: DayEvents,
    tomorrow: DayEvents,
)
    requires
        i64::MIN <= now <= i64::MAX,
        events.wf(),
        tomorrow.wf(),
        now >= events.sunset,
    ensures
        ({
            let (y, m, d) = next_day_spec(today.year as int, today.month as int, today.day as int);
            plan_today_spec(now, today, Some(events)) == Plan::NeedTomorrow(
                CivilDate { year: y as i32, month: m as u32, day: d as u32 },
            )
        }),
        plan_tomorrow_spec(now, Some(tomorrow)) == Plan::Switch(
            decision_spec(now, tomorrow.sunrise, Mode::Dark),
        ),
        tomorrow.sunrise > now ==> decision_spec(now, tomorrow.sunrise, Mode::Dark).offset
            == tomorrow.sunrise - now,
{
}

/// No sleep is ever negative or reaches backwards: whichever plan the
/// scheduler makes from today's events (and, past sunset, tomorrow's), the
/// loop sleeps at most `max_sleep`, and when it switches it has slept exactly
/// the time left until the event, or none at all if the event already lies
/// behind `now`.
pub proof fn lemma_sleep_reaches_event(
    now: int,
    today: CivilDate,
    events: Option<DayEvents>,
    tomorrow: Option<DayEvents>,
    max_sleep: u64,
)
    requires
        i64::MIN <= now <= i64::MAX,
        events_wf(events),
        events_wf(tomorrow),
    ensures
        ({
            let plan = match plan_today_spec(now, today, events) {
                Plan::NeedTomorrow(_) => plan_tomorrow_spec(now, tomorrow),
                p => p,
            };
            let step = loop_step_spec(plan, max_sleep);
            &&& step.sleep_secs <= max_sleep
            &&& step.switch_to is Some ==> (plan matches Plan::Switch(d) && step.switch_to
                == Some(d.target) && step.sleep_secs as int == offset_spec(
                now,
                d.next_event as int,
            ))
        }),
{
}

/// The sunset instant lies on the light side for both readings of the day:
/// the resolved mode and the mode expected at startup are both `Light`.
pub proof fn lemma_sunset_instant_is_light(sunrise: int, sunset: int)
    requires
        sunrise < sunset,
    ensures
        resolve_mode_spec(sunset, sunrise, sunset) == Mode::Light,
        daylight_mode_spec(sunset, sunrise, sunset) == Mode::Light,
{
}

/// Reconciling a second time, after the host has taken the mode that the
/// first reconciliation chose (or kept the mode that needed no change),
/// makes no further switch.
pub proof fn lemma_reconcile_idempotent(now: int, events: Option<DayEvents>, observed: Mode)
    ensures
        reconcile_spec(
            now,
            events,
            match reconcile_spec(now, events, observed) {
                Some(m) => m,
                None => observed,
            },
        ) is None,
{
}

} // verus!
