//! The schedule engine's decisions: when a schedule fires, and the exact
//! sequence of zone switches and waits that one run of it performs. The
//! caller owns the clock, the timers and the delivery of each switch.
use vstd::prelude::*;

use crate::types::{days_distinct, zones_distinct, ActivePeriod, Day, Schedule, Zone};

verus! {

/// Seconds during which two consecutive zones water together when
/// staggering is on.
pub const ZONE_STAGGER_DURATION_SECS: u64 = 10;

/// Interval between two looks at the clock, in milliseconds.
pub const THREAD_POLL_MILLIS: u64 = 1000;

/// One step of a run.
#[derive(Debug, Clone, Copy, PartialEq, Eq, Structural)]
pub enum RunStep {
    /// Switch `zone` on (`activate`) or off.
    ToggleZone { zone: Zone, activate: bool },
    /// Wait this many seconds.
    Sleep { secs: u64 },
}

/// How long a period waters before the hand-over to the next zone begins.
pub open spec fn main_sleep_secs(period: ActivePeriod, stagger_zones: bool) -> u64 {
    let full = period.duration_minutes as int * 60;
    if stagger_zones {
        if full >= ZONE_STAGGER_DURATION_SECS { (full - ZONE_STAGGER_DURATION_SECS) as u64 } else { 0 }
    } else {
        full as u64
    }
}

/// The steps for period `i`: switch the first zone on; water; switch the
/// next zone on before this one goes off; with staggering, let both water
/// together for the stagger window; switch this zone off.
pub open spec fn period_steps(periods: Seq<ActivePeriod>, i: int, stagger_zones: bool) -> Seq<RunStep> {
    (if i == 0 { seq![RunStep::ToggleZone { zone: periods[i].zone, activate: true }] } else { seq![] })
        + seq![RunStep::Sleep { secs: main_sleep_secs(periods[i], stagger_zones) }]
        + (if i + 1 < periods.len() {
            seq![RunStep::ToggleZone { zone: periods[i + 1].zone, activate: true }]
        } else {
            seq![]
        })
        + (if stagger_zones { seq![RunStep::Sleep { secs: ZONE_STAGGER_DURATION_SECS }] } else { seq![] })
        + seq![RunStep::ToggleZone { zone: periods[i].zone, activate: false }]
}

/// The steps for the first `k` periods.
pub open spec fn plan_prefix(periods: Seq<ActivePeriod>, k: int, stagger_zones: bool) -> Seq<RunStep>
    decreases k,
{
    if k <= 0 {
        seq![]
    } else {
        plan_prefix(periods, k - 1, stagger_zones) + period_steps(periods, k - 1, stagger_zones)
    }
}

/// The whole run of a schedule's periods, in order.
pub open spec fn run_plan(periods: Seq<ActivePeriod>, stagger_zones: bool) -> Seq<RunStep> {
    plan_prefix(periods, periods.len() as int, stagger_zones)
}

fn push_toggle(steps: &mut Vec<RunStep>, zone: Zone, activate: bool)
    ensures
        final(steps)@ == old(steps)@.push(RunStep::ToggleZone { zone, activate }),
{
    steps.push(RunStep::ToggleZone { zone, activate });
}

/// The steps of one run over `active_periods` in their order. A switch that
/// cannot be delivered does not stop the run: the caller performs every step.
pub fn run(active_periods: &Vec<ActivePeriod>, stagger_zones: bool) -> (r: Vec<RunStep>)
    ensures
        r@ == run_plan(active_periods@, stagger_zones),
{
    let n = active_periods.len();
    let mut steps: Vec<RunStep> = Vec::new();
    let mut i: usize = 0;
    while i < n
        invariant
            n == active_periods@.len(),
            0 <= i <= n,
            steps@ == plan_prefix(active_periods@, i as int, stagger_zones),
        decreases n - i,
    {
        let period = active_periods[i];
        let ghost before = steps@;
        if i == 0 {
            push_toggle(&mut steps, period.zone, true);
        }
        let full: u64 = period.duration_minutes as u64 * 60;
        let main_secs: u64 = if stagger_zones {
            if full >= ZONE_STAGGER_DURATION_SECS { full - ZONE_STAGGER_DURATION_SECS } else { 0 }
        } else {
            full
        };
        steps.push(RunStep::Sleep { secs: main_secs });
        if i + 1 < n {
            push_toggle(&mut steps, active_periods[i + 1].zone, true);
        }
        if stagger_zones {
            steps.push(RunStep::Sleep { secs: ZONE_STAGGER_DURATION_SECS });
        }
        push_toggle(&mut steps, period.zone, false);
        assert(steps@ =~= before + period_steps(active_periods@, i as int, stagger_zones));
        i = i + 1;
    }
    steps
}

/// The zone switches among `steps`, in order.
pub open spec fn switches(steps: Seq<RunStep>) -> Seq<RunStep>
    decreases steps.len(),
{
    if steps.len() == 0 {
        seq![]
    } else if steps.last() is ToggleZone {
        switches(steps.drop_last()).push(steps.last())
    } else {
        switches(steps.drop_last())
    }
}

/// The hand-over order of a run over `periods`: the first zone on; then, in
/// turn, each next zone on and the zone before it off; last, the last zone off.
pub open spec fn handover(periods: Seq<ActivePeriod>) -> Seq<RunStep> {
    let n = periods.len() as int;
    Seq::new((2 * n) as nat, |k: int|
        if k == 0 {
            RunStep::ToggleZone { zone: periods[0].zone, activate: true }
        } else if k == 2 * n - 1 {
            RunStep::ToggleZone { zone: periods[n - 1].zone, activate: false }
        } else if k % 2 == 1 {
            RunStep::ToggleZone { zone: periods[(k + 1) / 2].zone, activate: true }
        } else {
            RunStep::ToggleZone { zone: periods[k / 2 - 1].zone, activate: false }
        })
}

proof fn lemma_switches_add(a: Seq<RunStep>, b: Seq<RunStep>)
    ensures
        switches(a + b) == switches(a) + switches(b),
    decreases b.len(),
{
    if b.len() == 0 {
        assert(a + b =~= a);
        assert(switches(a) + switches(b) =~= switches(a));
    } else {
        lemma_switches_add(a, b.drop_last());
        assert((a + b).drop_last() =~= a + b.drop_last());
        assert((a + b).last() == b.last());
        if b.last() is ToggleZone {
            assert(switches(a) + switches(b) =~= (switches(a) + switches(b.drop_last())).push(b.last()));
        } else {
            assert(switches(a) + switches(b) =~= switches(a) + switches(b.drop_last()));
        }
    }
}

proof fn lemma_switches_one(step: RunStep)
    ensures
        switches(seq![step]) == (if step is ToggleZone { seq![step] } else { seq![] }),
{
    assert(seq![step].drop_last() =~= Seq::<RunStep>::empty());
    assert(switches(Seq::<RunStep>::empty()) == Seq::<RunStep>::empty());
    if step is ToggleZone {
        assert(Seq::<RunStep>::empty().push(step) =~= seq![step]);
    }
}

proof fn lemma_switches_empty()
    ensures
        switches(Seq::<RunStep>::empty()) == Seq::<RunStep>::empty(),
{
}

proof fn lemma_period_switches(periods: Seq<ActivePeriod>, i: int, stagger_zones: bool)
    requires
        0 <= i < periods.len(),
    ensures
        switches(period_steps(periods, i, stagger_zones)) == (if i == 0 {
            seq![RunStep::ToggleZone { zone: periods[i].zone, activate: true }]
        } else {
            seq![]
        }) + (if i + 1 < periods.len() {
            seq![RunStep::ToggleZone { zone: periods[i + 1].zone, activate: true }]
        } else {
            seq![]
        }) + seq![RunStep::ToggleZone { zone: periods[i].zone, activate: false }],
{
    let a: Seq<RunStep> = if i == 0 { seq![RunStep::ToggleZone { zone: periods[i].zone, activate: true }] } else { seq![] };
    let b: Seq<RunStep> = seq![RunStep::Sleep { secs: main_sleep_secs(periods[i], stagger_zones) }];
    let c: Seq<RunStep> = if i + 1 < periods.len() {
        seq![RunStep::ToggleZone { zone: periods[i + 1].zone, activate: true }]
    } else {
        seq![]
    };
    let d: Seq<RunStep> = if stagger_zones { seq![RunStep::Sleep { secs: ZONE_STAGGER_DURATION_SECS }] } else { seq![] };
    let e: Seq<RunStep> = seq![RunStep::ToggleZone { zone: periods[i].zone, activate: false }];
    assert(period_steps(periods, i, stagger_zones) == a + b + c + d + e);
    lemma_switches_add(a + b + c + d, e);
    lemma_switches_add(a + b + c, d);
    lemma_switches_add(a + b, c);
    lemma_switches_add(a, b);
    lemma_switches_empty();
    lemma_switches_one(b[0]);
    lemma_switches_one(e[0]);
    assert(b =~= seq![b[0]]);
    assert(e =~= seq![e[0]]);
    if i == 0 {
        lemma_switches_one(a[0]);
        assert(a =~= seq![a[0]]);
    }
    if i + 1 < periods.len() {
        lemma_switches_one(c[0]);
        assert(c =~= seq![c[0]]);
    }
    if stagger_zones {
        lemma_switches_one(d[0]);
        assert(d =~= seq![d[0]]);
    }
    assert(switches(a) + switches(b) + switches(c) + switches(d) + switches(e) =~= a + c + e);
}

/// Length of the part of the hand-over order made by the first `k` periods.
spec fn handover_len(n: int, k: int) -> int {
    if k == 0 { 0 } else if k < n { 2 * k + 1 } else { 2 * n }
}

proof fn lemma_prefix_switches(periods: Seq<ActivePeriod>, k: int, stagger_zones: bool)
    requires
        0 <= k <= periods.len(),
    ensures
        switches(plan_prefix(periods, k, stagger_zones)) == handover(periods).take(
            handover_len(periods.len() as int, k),
        ),
    decreases k,
{
    let n = periods.len() as int;
    let h = handover(periods);
    if k == 0 {
        lemma_switches_empty();
        assert(h.take(0) =~= Seq::<RunStep>::empty());
    } else {
        let i = k - 1;
        lemma_prefix_switches(periods, i, stagger_zones);
        lemma_switches_add(plan_prefix(periods, i, stagger_zones), period_steps(periods, i, stagger_zones));
        lemma_period_switches(periods, i, stagger_zones);
        assert(h.take(handover_len(n, k)) =~= h.take(handover_len(n, i)) + switches(
            period_steps(periods, i, stagger_zones),
        ));
    }
}

/// The zone switches of a run come in hand-over order: the first zone on;
/// then, for each next period, its zone on before the zone before it goes
/// off; last, the last zone off. Two switches per period, whatever the
/// durations and whether staggering is on.
pub proof fn lemma_run_hands_over(periods: Seq<ActivePeriod>, stagger_zones: bool)
    ensures
        switches(run_plan(periods, stagger_zones)) == handover(periods),
        switches(run_plan(periods, stagger_zones)).len() == 2 * periods.len(),
{
    lemma_prefix_switches(periods, periods.len() as int, stagger_zones);
    let n = periods.len() as int;
    assert(handover(periods).take(handover_len(n, n)) =~= handover(periods));
}

/// What a schedule's timer does on one look at the clock.
#[derive(Debug, Clone, Copy, PartialEq, Eq, Structural)]
pub enum PollAction {
    /// The timer was told to stop: leave the loop.
    Stop,
    /// The day and minute match: run the schedule once.
    Run,
    /// Nothing to do until the next look.
    Wait,
}

pub open spec fn poll_decision(running: bool, days: Seq<Day>, start_time_minutes: u32, day: Day, minute_of_day: u32) -> PollAction {
    if !running {
        PollAction::Stop
    } else if days.contains(day) && minute_of_day == start_time_minutes {
        PollAction::Run
    } else {
        PollAction::Wait
    }
}

/// One look at the clock by a schedule's timer: stop once the stop flag
/// has been cleared, else run when today is one of the schedule's days and
/// the minute of the day is its start time. Nothing guards against a second
/// run within the same matching minute.
pub fn poll(running: bool, schedule: &Schedule, day: Day, minute_of_day: u32) -> (r: PollAction)
    ensures
        r == poll_decision(running, schedule.days@, schedule.start_time_minutes, day, minute_of_day),
{
    if !running {
        return PollAction::Stop;
    }
    let mut i: usize = 0;
    while i < schedule.days.len()
        invariant
            running,
            0 <= i <= schedule.days@.len(),
            forall|k: int| 0 <= k < i ==> schedule.days@[k] != day,
        decreases schedule.days@.len() - i,
    {
        if schedule.days[i] == day {
            assert(schedule.days@.contains(day));
            if minute_of_day == schedule.start_time_minutes {
                return PollAction::Run;
            } else {
                return PollAction::Wait;
            }
        }
        i = i + 1;
    }
    assert(!schedule.days@.contains(day));
    PollAction::Wait
}

/// Once its stop flag is cleared, a schedule's timer never starts another
/// run, whatever the schedule and the clock say; the run already under way
/// is a fixed list of steps, which the flag does not touch.
pub proof fn lemma_stopped_timer_never_fires(days: Seq<Day>, start_time_minutes: u32, day: Day, minute_of_day: u32)
    ensures
        poll_decision(false, days, start_time_minutes, day, minute_of_day) == PollAction::Stop,
{
}

/// The days with each repeat after its first occurrence left out.
pub open spec fn distinct_days(days: Seq<Day>) -> Seq<Day>
    decreases days.len(),
{
    if days.len() == 0 {
        seq![]
    } else {
        let kept = distinct_days(days.drop_last());
        if kept.contains(days.last()) { kept } else { kept.push(days.last()) }
    }
}

/// Whether a period for the same zone is among `periods`.
pub open spec fn has_zone(periods: Seq<ActivePeriod>, zone: Zone) -> bool {
    exists|k: int| 0 <= k < periods.len() && periods[k].zone == zone
}

/// The periods with each later period of an already listed zone left out.
pub open spec fn distinct_periods(periods: Seq<ActivePeriod>) -> Seq<ActivePeriod>
    decreases periods.len(),
{
    if periods.len() == 0 {
        seq![]
    } else {
        let kept = distinct_periods(periods.drop_last());
        if has_zone(kept, periods.last().zone) { kept } else { kept.push(periods.last()) }
    }
}

proof fn lemma_distinct_days_wf(days: Seq<Day>)
    ensures
        days_distinct(distinct_days(days)),
    decreases days.len(),
{
    if days.len() > 0 {
        lemma_distinct_days_wf(days.drop_last());
    }
}

proof fn lemma_distinct_periods_wf(periods: Seq<ActivePeriod>)
    ensures
        zones_distinct(distinct_periods(periods)),
    decreases periods.len(),
{
    if periods.len() > 0 {
        let kept = distinct_periods(periods.drop_last());
        lemma_distinct_periods_wf(periods.drop_last());
        if !has_zone(kept, periods.last().zone) {
            let r = kept.push(periods.last());
            assert forall|i: int, j: int| 0 <= i < j < r.len() implies r[i].zone != r[j].zone by {
                if j == r.len() - 1 {
                    assert(r[i] == kept[i]);
                }
            }
        }
    }
}

impl Schedule {
    /// A schedule from listed days and periods, read as sets: a repeated
    /// day, and a later period of an already listed zone, are left out.
    pub fn new(name: String, days: Vec<Day>, active_periods: Vec<ActivePeriod>, start_time_minutes: u32, is_active: bool) -> (r: Schedule)
        ensures
            r@.name == name@,
            r@.days == distinct_days(days@),
            r@.active_periods == distinct_periods(active_periods@),
            r@.start_time_minutes == start_time_minutes,
            r@.is_active == is_active,
            r@.wf(),
    {
        let mut kept_days: Vec<Day> = Vec::new();
        let mut i: usize = 0;
        while i < days.len()
            invariant
                0 <= i <= days@.len(),
                kept_days@ == distinct_days(days@.subrange(0, i as int)),
            decreases days@.len() - i,
        {
            let d = days[i];
            let mut seen = false;
            let mut k: usize = 0;
            while k < kept_days.len()
                invariant
                    0 <= k <= kept_days@.len(),
                    seen == (exists|m: int| 0 <= m < k && kept_days@[m] == d),
                decreases kept_days@.len() - k,
            {
                if kept_days[k] == d {
                    seen = true;
                }
                k = k + 1;
            }
            assert(days@.subrange(0, i + 1).drop_last() =~= days@.subrange(0, i as int));
            assert(seen == kept_days@.contains(d));
            if !seen {
                kept_days.push(d);
            }
            i = i + 1;
        }
        assert(days@.subrange(0, days@.len() as int) =~= days@);
        let mut kept: Vec<ActivePeriod> = Vec::new();
        let mut i: usize = 0;
        while i < active_periods.len()
            invariant
                0 <= i <= active_periods@.len(),
                kept@ == distinct_periods(active_periods@.subrange(0, i as int)),
            decreases active_periods@.len() - i,
        {
            let p = active_periods[i];
            let mut seen = false;
            let mut k: usize = 0;
            while k < kept.len()
                invariant
                    0 <= k <= kept@.len(),
                    seen == (exists|m: int| 0 <= m < k && kept@[m].zone == p.zone),
                decreases kept@.len() - k,
            {
                if kept[k].zone == p.zone {
                    seen = true;
                }
                k = k + 1;
            }
            assert(active_periods@.subrange(0, i + 1).drop_last() =~= active_periods@.subrange(0, i as int));
            assert(seen == has_zone(kept@, p.zone));
            if !seen {
                kept.push(p);
            }
            i = i + 1;
        }
        assert(active_periods@.subrange(0, active_periods@.len() as int) =~= active_periods@);
        proof {
            lemma_distinct_days_wf(days@);
            lemma_distinct_periods_wf(active_periods@);
        }
        Schedule { name, days: kept_days, active_periods: kept, start_time_minutes, is_active }
    }

    /// A copy of the schedule, equal to it field by field.
    pub fn duplicate(&self) -> (r: Schedule)
        ensures
            r@ == self@,
    {
        let mut days: Vec<Day> = Vec::new();
        let mut i: usize = 0;
        while i < self.days.len()
            invariant
                0 <= i <= self.days@.len(),
                days@ == self.days@.subrange(0, i as int),
            decreases self.days@.len() - i,
        {
            days.push(self.days[i]);
            assert(self.days@.subrange(0, i + 1) =~= self.days@.subrange(0, i as int).push(self.days@[i as int]));
            i = i + 1;
        }
        let mut periods: Vec<ActivePeriod> = Vec::new();
        let mut i: usize = 0;
        while i < self.active_periods.len()
            invariant
                0 <= i <= self.active_periods@.len(),
                periods@ == self.active_periods@.subrange(0, i as int),
            decreases self.active_periods@.len() - i,
        {
            periods.push(self.active_periods[i]);
            assert(self.active_periods@.subrange(0, i + 1) =~= self.active_periods@.subrange(0, i as int).push(self.active_periods@[i as int]));
            i = i + 1;
        }
        assert(days@ =~= self.days@);
        assert(periods@ =~= self.active_periods@);
        Schedule {
            name: self.name.clone(),
            days,
            active_periods: periods,
            start_time_minutes: self.start_time_minutes,
            is_active: self.is_active,
        }
    }
}

/// The view of each schedule of a list.
pub open spec fn schedules_view(schedules: Seq<Schedule>) -> Seq<crate::types::ScheduleView> {
    schedules.map_values(|s: Schedule| s@)
}

/// A copy of a list of schedules.
pub fn duplicate_schedules(schedules: &Vec<Schedule>) -> (r: Vec<Schedule>)
    ensures
        schedules_view(r@) == schedules_view(schedules@),
{
    let mut out: Vec<Schedule> = Vec::new();
    let mut i: usize = 0;
    while i < schedules.len()
        invariant
            0 <= i <= schedules@.len(),
            out@.len() == i,
            schedules_view(out@) == schedules_view(schedules@.subrange(0, i as int)),
        decreases schedules@.len() - i,
    {
        let s = schedules[i].duplicate();
        let ghost prev = out@;
        out.push(s);
        assert forall|k: int| 0 <= k < i + 1 implies #[trigger] schedules_view(out@)[k] == schedules_view(
            schedules@.subrange(0, i + 1),
        )[k] by {
            if k < i {
                assert(schedules_view(prev)[k] == schedules_view(schedules@.subrange(0, i as int))[k]);
                assert(out@[k] == prev[k]);
            }
        }
        assert(schedules_view(out@) =~= schedules_view(schedules@.subrange(0, i + 1)));
        i = i + 1;
    }
    assert(schedules@.subrange(0, schedules@.len() as int) =~= schedules@);
    out
}

} // verus!
