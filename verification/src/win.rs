//! Deciding that a level is won: the forecast of the released structure and
//! the countdown that follows it.
//!
//! Times are whole milliseconds on the caller's clock.

use vstd::prelude::*;
use rapier2d::geometry::{ColliderSet, NarrowPhase};
use crate::physics::{
    has_active_wall_contact, is_sensor, is_wall, new_pipeline, sensor_flag, set_rate, step, wall_touched,
    ColliderId, PhysicsWorld,
};
use crate::stage::Stage;

verus! {

/// The countdown after a release that is forecast to end at a wall.
pub const COUNTDOWN: u64 = 5000;

/// The countdown after a release that is forecast to stand.
pub const SHORT_COUNTDOWN: u64 = 500;

/// How far the forecast looks ahead: twice the long countdown.
pub const FORECAST_HORIZON: u64 = 2 * COUNTDOWN;

/// How many steps the forecast takes for each second that it looks ahead.
pub const FORECAST_RATE: u32 = 60;

/// The countdown that is running. There is at most one: the game holds it
/// in an `Option`.
#[derive(PartialEq, Eq, Structural, Clone, Copy, Debug)]
pub struct WinTimer {
    /// When the countdown ends.
    pub win_time: u64,
    /// How long the countdown lasts from its start to `win_time`.
    pub total_countdown: u64,
    /// How many collision events the world had reported when the countdown
    /// began. Any later one stops the countdown.
    pub events_seen: u64,
}

/// Why a countdown was stopped.
#[derive(PartialEq, Eq, Structural, Clone, Copy, Debug)]
pub enum WinFailure {
    /// The world reported a collision after the countdown began.
    IntersectionFound,
    /// A shape is held.
    SomethingDragged,
}

/// What a tick did to the countdown.
#[derive(PartialEq, Eq, Structural, Clone, Copy, Debug)]
pub enum TimerSignal {
    /// No countdown is running.
    Idle,
    /// The countdown was stopped and is gone; the level goes on.
    Cancelled(WinFailure),
    /// The countdown ran out and is gone: the level is won.
    LevelAdvance,
    /// The countdown runs on. Its indicator is drawn at `remaining` parts
    /// of `total`.
    Running { remaining: u64, total: u64 },
}

/// The time nearest to `t` that the clock can show.
pub open spec fn until(t: int) -> int {
    if t > u64::MAX {
        u64::MAX as int
    } else {
        t
    }
}

/// The countdown begun at `now` to last `countdown`, with `events_total`
/// collision events reported so far.
pub open spec fn timer_from(now: u64, countdown: u64, events_total: u64) -> WinTimer {
    WinTimer {
        win_time: until(now + countdown) as u64,
        total_countdown: countdown,
        events_seen: events_total,
    }
}

/// The countdown for a forecast: long where the structure is forecast to
/// meet a wall, short where it is not.
pub open spec fn countdown_for(will_collide: bool) -> u64 {
    if will_collide {
        COUNTDOWN
    } else {
        SHORT_COUNTDOWN
    }
}

/// The number of steps in a forecast that looks `horizon` milliseconds ahead
/// at `rate` steps a second, the last, partial step left out.
pub open spec fn steps_within(horizon: u64, rate: u32) -> int {
    (horizon * rate) / 1000
}

/// Why the countdown stops at this tick, if it does: a collision reported
/// since it began comes before a held shape.
pub open spec fn failure_of(timer: WinTimer, events_total: u64, any_dragged: bool) -> Option<WinFailure> {
    if events_total > timer.events_seen {
        Some(WinFailure::IntersectionFound)
    } else if any_dragged {
        Some(WinFailure::SomethingDragged)
    } else {
        None
    }
}

/// The countdown after a tick, and what the tick did to it. A countdown
/// that has reason to stop stops, even if it has run out; otherwise it ends
/// once `now` has reached its end, and runs on until then.
pub open spec fn tick_step(timer: Option<WinTimer>, now: u64, events_total: u64, any_dragged: bool) -> (
    Option<WinTimer>,
    TimerSignal,
) {
    match timer {
        None => (None, TimerSignal::Idle),
        Some(t) => match failure_of(t, events_total, any_dragged) {
            Some(failure) => (None, TimerSignal::Cancelled(failure)),
            None => if now >= t.win_time {
                (None, TimerSignal::LevelAdvance)
            } else {
                (
                    Some(t),
                    TimerSignal::Running {
                        remaining: (t.win_time - now) as u64,
                        total: t.total_countdown,
                    },
                )
            },
        },
    }
}

/// Whether a forecast is due: a drag has just ended, no countdown is
/// running and no shape is held.
pub open spec fn tower_due(drag_ended: bool, timer_runs: bool, any_dragged: bool) -> bool {
    drag_ended && !timer_runs && !any_dragged
}

impl WinTimer {
    /// Begins a countdown at `now`. Its end stops at the last time that the
    /// clock can show.
    pub fn start(now: u64, countdown: u64, events_total: u64) -> (timer: WinTimer)
        ensures
            timer == timer_from(now, countdown, events_total),
    {
        let win_time: u64 = if now > u64::MAX - countdown {
            u64::MAX
        } else {
            now + countdown
        };
        WinTimer { win_time, total_countdown: countdown, events_seen: events_total }
    }
}

/// Picks the countdown for a forecast.
pub fn select_countdown(will_collide: bool) -> (countdown: u64)
    ensures
        countdown == countdown_for(will_collide),
{
    if will_collide {
        COUNTDOWN
    } else {
        SHORT_COUNTDOWN
    }
}

/// The number of steps of a forecast, or the largest count there is where
/// that is less.
pub fn forecast_substeps(horizon: u64, rate: u32) -> (substeps: usize)
    ensures
        substeps == if steps_within(horizon, rate) > usize::MAX {
            usize::MAX as int
        } else {
            steps_within(horizon, rate)
        },
{
    assert(horizon * rate <= u64::MAX * u32::MAX) by (nonlinear_arith)
        requires
            0 <= horizon <= u64::MAX,
            0 <= rate <= u32::MAX,
    ;
    let wide: u128 = (horizon as u128 * rate as u128) / 1000;
    if wide > usize::MAX as u128 {
        usize::MAX
    } else {
        wide as usize
    }
}

/// Whether a countdown has to stop, and why.
pub fn check_for_collisions(timer: &Option<WinTimer>, events_total: u64, any_dragged: bool) -> (failure:
    Option<WinFailure>)
    ensures
        failure == match *timer {
            Some(t) => failure_of(t, events_total, any_dragged),
            None => None,
        },
{
    match timer {
        None => None,
        Some(t) => {
            if events_total > t.events_seen {
                Some(WinFailure::IntersectionFound)
            } else if any_dragged {
                Some(WinFailure::SomethingDragged)
            } else {
                None
            }
        },
    }
}

/// What a tick does to the countdown: it is stopped where there is reason
/// to stop it, even if it has run out; otherwise it ends once `now` has
/// reached its end, and runs on until then.
pub fn check_for_win(timer: &Option<WinTimer>, now: u64, events_total: u64, any_dragged: bool) -> (signal:
    TimerSignal)
    ensures
        signal == tick_step(*timer, now, events_total, any_dragged).1,
{
    match check_for_collisions(timer, events_total, any_dragged) {
        Some(failure) => TimerSignal::Cancelled(failure),
        None => match timer {
            None => TimerSignal::Idle,
            Some(t) => {
                if now >= t.win_time {
                    TimerSignal::LevelAdvance
                } else {
                    TimerSignal::Running { remaining: t.win_time - now, total: t.total_countdown }
                }
            },
        },
    }
}

/// One tick of the countdown: stops it where there is reason to, ends it
/// where it has run out, and lets it run on otherwise. A countdown that is
/// stopped or has ended is gone.
pub fn win_tick(timer: &mut Option<WinTimer>, now: u64, events_total: u64, any_dragged: bool) -> (signal:
    TimerSignal)
    ensures
        (*final(timer), signal) == tick_step(*old(timer), now, events_total, any_dragged),
{
    let signal = check_for_win(timer, now, events_total, any_dragged);
    match signal {
        TimerSignal::Cancelled(_) => {
            *timer = None;
        },
        TimerSignal::LevelAdvance => {
            *timer = None;
        },
        _ => {},
    }
    signal
}

/// Whether a collision event involves the sensor of a wall. `first` and
/// `second` say of each of its two colliders whether it is the sensor of a
/// wall, `None` standing for a collider that is gone.
pub fn handle_collision_event(first: Option<bool>, second: Option<bool>) -> (found: bool)
    ensures
        found == (first == Some(true) || second == Some(true)),
{
    let one = match first {
        Some(sensor) => sensor,
        None => false,
    };
    let other = match second {
        Some(sensor) => sensor,
        None => false,
    };
    one || other
}

/// Whether the collider is the sensor of a wall: `None` for a wall that the
/// set does not hold, and no sensor of a wall for a collider that is no
/// wall, whatever else it is.
pub open spec fn wall_sensor_flag(colliders: ColliderSet, walls: Seq<ColliderId>, collider: ColliderId) -> Option<
    bool,
> {
    if walls.contains(collider) {
        sensor_flag(colliders, collider)
    } else {
        Some(false)
    }
}

/// Whether a collision event between the two colliders involves the sensor
/// of a wall: whether one of the two is a wall and a sensor of the set.
pub open spec fn involves_wall_sensor(
    colliders: ColliderSet,
    walls: Seq<ColliderId>,
    event: (ColliderId, ColliderId),
) -> bool {
    wall_sensor_flag(colliders, walls, event.0) == Some(true) || wall_sensor_flag(
        colliders,
        walls,
        event.1,
    ) == Some(true)
}

/// Whether the collider is the sensor of a wall.
pub fn wall_sensor(colliders: &ColliderSet, walls: &Vec<ColliderId>, collider: ColliderId) -> (flag: Option<
    bool,
>)
    ensures
        flag == wall_sensor_flag(*colliders, walls@, collider),
{
    if is_wall(walls, collider) {
        is_sensor(colliders, collider)
    } else {
        Some(false)
    }
}

/// Whether one of the collision events of a step involves the sensor of a
/// wall. A collision with a sensor that is no wall does not count.
pub fn sensor_collision(colliders: &ColliderSet, walls: &Vec<ColliderId>, events: &Vec<(ColliderId, ColliderId)>) -> (found:
    bool)
    ensures
        found == exists|i: int|
            0 <= i < events@.len() && involves_wall_sensor(*colliders, walls@, #[trigger] events@[i]),
{
    let mut i: usize = 0;
    while i < events.len()
        invariant
            i <= events.len(),
            forall|j: int| 0 <= j < i ==> !involves_wall_sensor(*colliders, walls@, #[trigger] events@[j]),
        decreases events.len() - i,
    {
        let first = wall_sensor(colliders, walls, events[i].0);
        let second = wall_sensor(colliders, walls, events[i].1);
        if handle_collision_event(first, second) {
            return true;
        }
        i += 1;
    }
    false
}

/// How far a forecast has come.
#[derive(PartialEq, Eq, Structural, Clone, Copy, Debug)]
pub enum Forecast {
    /// So many steps are still to take; none so far has met the sensor of
    /// a wall.
    Stepping { left: usize },
    /// The forecast is made.
    Settled { will_collide: bool },
}

impl Forecast {
    /// A forecast of `substeps` steps before its first: one of no steps is
    /// made already, and sees nothing.
    pub open spec fn begun(substeps: usize) -> Forecast {
        if substeps == 0 {
            Forecast::Settled { will_collide: false }
        } else {
            Forecast::Stepping { left: substeps }
        }
    }

    /// The forecast after one more step, which met the sensor of a wall or
    /// did not. A step that meets one settles the forecast at once; the last step
    /// settles it either way. A settled forecast stays as it is.
    pub open spec fn after(self, sensor_met: bool) -> Forecast {
        match self {
            Forecast::Stepping { left } => if sensor_met {
                Forecast::Settled { will_collide: true }
            } else if left <= 1 {
                Forecast::Settled { will_collide: false }
            } else {
                Forecast::Stepping { left: (left - 1) as usize }
            },
            Forecast::Settled { will_collide } => self,
        }
    }

    /// The forecast after the steps whose findings are `met`, in order.
    pub open spec fn after_all(self, met: Seq<bool>) -> Forecast
        decreases met.len(),
    {
        if met.len() == 0 {
            self
        } else {
            self.after_all(met.drop_last()).after(met.last())
        }
    }

    /// Begins a forecast of `substeps` steps.
    pub fn begin(substeps: usize) -> (forecast: Forecast)
        ensures
            forecast == Forecast::begun(substeps),
    {
        if substeps == 0 {
            Forecast::Settled { will_collide: false }
        } else {
            Forecast::Stepping { left: substeps }
        }
    }

    /// Takes in what one more step found.
    pub fn observe(self, sensor_met: bool) -> (forecast: Forecast)
        ensures
            forecast == self.after(sensor_met),
    {
        match self {
            Forecast::Stepping { left } => {
                if sensor_met {
                    Forecast::Settled { will_collide: true }
                } else if left <= 1 {
                    Forecast::Settled { will_collide: false }
                } else {
                    Forecast::Stepping { left: left - 1 }
                }
            },
            Forecast::Settled { will_collide } => Forecast::Settled { will_collide },
        }
    }
}

/// A forecast through steps of which none meets the sensor of a wall counts
/// them down.
pub proof fn lemma_forecast_counts_down(substeps: usize, met: Seq<bool>)
    requires
        met.len() < substeps,
        forall|i: int| 0 <= i < met.len() ==> !met[i],
    ensures
        Forecast::begun(substeps).after_all(met) == (Forecast::Stepping {
            left: (substeps - met.len()) as usize,
        }),
    decreases met.len(),
{
    if met.len() > 0 {
        lemma_forecast_counts_down(substeps, met.drop_last());
    }
}

/// A settled forecast stays settled.
pub proof fn lemma_forecast_stays(will_collide: bool, met: Seq<bool>)
    ensures
        (Forecast::Settled { will_collide }).after_all(met) == (Forecast::Settled { will_collide }),
    decreases met.len(),
{
    if met.len() > 0 {
        lemma_forecast_stays(will_collide, met.drop_last());
    }
}

/// The forecast stops at the first step that meets the sensor of a wall,
/// and says that the structure will collide, whatever the later steps would
/// find.
pub proof fn law_forecast_stops_at_first_collision(substeps: usize, met: Seq<bool>, k: int)
    requires
        0 <= k < met.len(),
        k < substeps,
        met[k],
        forall|i: int| 0 <= i < k ==> !met[i],
    ensures
        Forecast::begun(substeps).after_all(met) == (Forecast::Settled { will_collide: true }),
        Forecast::begun(substeps).after_all(met.take(k + 1)) == (Forecast::Settled { will_collide: true }),
    decreases met.len(),
{
    let upto = met.take(k + 1);
    assert(upto.drop_last() =~= met.take(k));
    assert(upto.last() == met[k]);
    assert forall|i: int| 0 <= i < met.take(k).len() implies !met.take(k)[i] by {}
    lemma_forecast_counts_down(substeps, met.take(k));
    if met.len() == k + 1 {
        assert(met =~= upto);
    } else {
        let before = met.drop_last();
        assert(before[k] == met[k]);
        law_forecast_stops_at_first_collision(substeps, before, k);
    }
}

/// A forecast whose steps all meet no sensor of a wall says, after its
/// last step, that the structure will stand.
pub proof fn law_forecast_of_quiet_steps(substeps: usize, met: Seq<bool>)
    requires
        met.len() >= substeps,
        forall|i: int| 0 <= i < substeps ==> !met[i],
    ensures
        Forecast::begun(substeps).after_all(met) == (Forecast::Settled { will_collide: false }),
    decreases met.len(),
{
    if substeps == 0 {
        lemma_forecast_stays(false, met);
    } else if met.len() == substeps {
        let before = met.drop_last();
        assert forall|i: int| 0 <= i < before.len() implies !before[i] by {
            assert(before[i] == met[i]);
        }
        lemma_forecast_counts_down(substeps, before);
    } else {
        let before = met.drop_last();
        assert forall|i: int| 0 <= i < substeps implies !before[i] by {
            assert(before[i] == met[i]);
        }
        law_forecast_of_quiet_steps(substeps, before);
    }
}

/// Forecasts whether the world, left alone, will have something meet the
/// sensor of a wall. A copy of the world is stepped up to `substeps` times,
/// `rate` steps to the second; what each step finds goes into a `Forecast`,
/// which settles at the first step that reports a collision with the sensor
/// of a wall, or after the last. The world itself is only read.
///
/// What the steps find is the physics engine's to say: of a forecast of one
/// step or more, nothing is promised here.
pub fn check_future_collisions(world: &PhysicsWorld, rate: u32, substeps: usize) -> (will_collide: bool)
    ensures
        substeps == 0 ==> !will_collide,
{
    let mut future = world.clone();
    set_rate(&mut future, rate);
    let mut pipeline = new_pipeline();
    let mut forecast = Forecast::begin(substeps);
    loop
        invariant
            substeps == 0 ==> forecast == (Forecast::Settled { will_collide: false }),
        decreases
            (if forecast is Stepping {
                forecast->left + 1
            } else {
                0
            }),
    {
        match forecast {
            Forecast::Settled { will_collide } => {
                return will_collide;
            },
            Forecast::Stepping { left } => {
                let events = step(&mut pipeline, &mut future);
                forecast = forecast.observe(sensor_collision(future.colliders(), world.walls(), &events));
            },
        }
    }
}

/// The countdown that a tick has to begin, if any, given what the physics
/// engine found: whether a wall is in contact now, and whether the forecast
/// saw a collision with a wall.
pub fn tower_timer(
    drag_ended: bool,
    timer_runs: bool,
    any_dragged: bool,
    wall_contact: bool,
    will_collide: bool,
    now: u64,
    events_total: u64,
) -> (timer: Option<WinTimer>)
    ensures
        timer == if tower_due(drag_ended, timer_runs, any_dragged) && !wall_contact {
            Some(timer_from(now, countdown_for(will_collide), events_total))
        } else {
            None
        },
{
    if drag_ended && !timer_runs && !any_dragged && !wall_contact {
        Some(WinTimer::start(now, select_countdown(will_collide), events_total))
    } else {
        None
    }
}

/// Whether a forecast is due, as far as the game itself can tell: a drag
/// has just ended, no countdown runs and no shape is held.
pub fn tower_due_now(drag_ended: bool, timer: &Option<WinTimer>, stage: &Stage) -> (due: bool)
    ensures
        due == tower_due(drag_ended, *timer is Some, stage@.any_dragged()),
{
    drag_ended && timer.is_none() && !stage.any_dragged()
}

/// Looks, after a pass of drag ends, whether a countdown is to begin, and
/// returns it if so.
///
/// Where no forecast is due, none is made and there is no countdown. Where
/// one is due, the narrow phase of the running simulation is asked whether
/// one of its walls is in contact now; if none is, the forecast runs on a
/// copy of `world`, over the horizon and at the rate that this module
/// names, and the countdown is the long or the short one, beginning at
/// `now`. Which of the two is the physics engine's to say.
pub fn check_for_tower(
    drag_ended: bool,
    timer: &Option<WinTimer>,
    stage: &Stage,
    narrow_phase: &NarrowPhase,
    walls: &Vec<ColliderId>,
    world: &PhysicsWorld,
    now: u64,
    events_total: u64,
) -> (started: Option<WinTimer>)
    ensures
        started is Some <==> tower_due(drag_ended, *timer is Some, stage@.any_dragged()) && !wall_touched(
            *narrow_phase,
            walls@,
        ),
        started matches Some(t) ==> t == timer_from(now, COUNTDOWN, events_total) || t == timer_from(
            now,
            SHORT_COUNTDOWN,
            events_total,
        ),
{
    if !tower_due_now(drag_ended, timer, stage) {
        return None;
    }
    if has_active_wall_contact(narrow_phase, walls) {
        return None;
    }
    let substeps: usize = forecast_substeps(FORECAST_HORIZON, FORECAST_RATE);
    let will_collide = check_future_collisions(world, FORECAST_RATE, substeps);
    tower_timer(true, false, false, false, will_collide, now, events_total)
}

/// What a tick of the game shows the countdown.
#[derive(PartialEq, Eq, Structural, Clone, Copy, Debug)]
pub struct Tick {
    /// The time of the tick.
    pub now: u64,
    /// How many collision events the world has reported so far.
    pub events_total: u64,
    /// Whether a shape is held.
    pub any_dragged: bool,
}

/// The countdown after a run of ticks, and what each tick did to it.
pub open spec fn run(timer: Option<WinTimer>, ticks: Seq<Tick>) -> (Option<WinTimer>, Seq<TimerSignal>)
    decreases ticks.len(),
{
    if ticks.len() == 0 {
        (timer, Seq::empty())
    } else {
        let before = run(timer, ticks.drop_last());
        let last = ticks.last();
        let step = tick_step(before.0, last.now, last.events_total, last.any_dragged);
        (step.0, before.1.push(step.1))
    }
}

/// A tick that gives the countdown no reason to stop.
pub open spec fn quiet(timer: WinTimer, tick: Tick) -> bool {
    failure_of(timer, tick.events_total, tick.any_dragged) is None
}

/// Through quiet ticks before its end a countdown runs on.
pub proof fn lemma_run_on(timer: WinTimer, ticks: Seq<Tick>)
    requires
        forall|i: int| 0 <= i < ticks.len() ==> quiet(timer, #[trigger] ticks[i]) && ticks[i].now < timer.win_time,
    ensures
        run(Some(timer), ticks).0 == Some(timer),
        run(Some(timer), ticks).1.len() == ticks.len(),
        forall|i: int|
            0 <= i < ticks.len() ==> run(Some(timer), ticks).1[i] == (TimerSignal::Running {
                remaining: (timer.win_time - ticks[i].now) as u64,
                total: timer.total_countdown,
            }),
    decreases ticks.len(),
{
    if ticks.len() > 0 {
        let before = ticks.drop_last();
        assert forall|i: int| 0 <= i < before.len() implies quiet(timer, #[trigger] before[i])
            && before[i].now < timer.win_time by {
            assert(before[i] == ticks[i]);
        }
        lemma_run_on(timer, before);
        assert(quiet(timer, ticks[ticks.len() - 1]));
    }
}

/// What a run does to a countdown that meets its first decisive tick at
/// place `k`: it runs on before, it ends or stops there, and nothing is
/// left of it after.
proof fn lemma_run_decided(timer: WinTimer, ticks: Seq<Tick>, k: int)
    requires
        0 <= k < ticks.len(),
        forall|i: int| 0 <= i < k ==> quiet(timer, #[trigger] ticks[i]) && ticks[i].now < timer.win_time,
        !quiet(timer, ticks[k]) || ticks[k].now >= timer.win_time,
    ensures
        run(Some(timer), ticks).0 is None,
        run(Some(timer), ticks).1.len() == ticks.len(),
        forall|i: int| 0 <= i < k ==> run(Some(timer), ticks).1[i] is Running,
        run(Some(timer), ticks).1[k] == tick_step(
            Some(timer),
            ticks[k].now,
            ticks[k].events_total,
            ticks[k].any_dragged,
        ).1,
        forall|i: int| k < i < ticks.len() ==> run(Some(timer), ticks).1[i] == TimerSignal::Idle,
    decreases ticks.len(),
{
    let before = ticks.drop_last();
    if k == ticks.len() - 1 {
        assert forall|i: int| 0 <= i < before.len() implies quiet(timer, #[trigger] before[i])
            && before[i].now < timer.win_time by {
            assert(before[i] == ticks[i]);
        }
        lemma_run_on(timer, before);
    } else {
        assert forall|i: int| 0 <= i < k implies quiet(timer, #[trigger] before[i]) && before[i].now
            < timer.win_time by {
            assert(before[i] == ticks[i]);
        }
        assert(before[k] == ticks[k]);
        lemma_run_decided(timer, before, k);
    }
}

/// A countdown begun at `created` to last `countdown` ends at the first
/// tick whose time has reached `created + countdown`, where every tick up
/// to that one is quiet: that tick, and no other, signals that the level is
/// won, and the countdown is gone after it. The sum has to be a time that
/// the clock can show.
pub proof fn law_countdown_expires(created: u64, countdown: u64, events_total: u64, ticks: Seq<Tick>, k: int)
    requires
        created + countdown <= u64::MAX,
        0 <= k < ticks.len(),
        forall|i: int|
            0 <= i <= k ==> quiet(timer_from(created, countdown, events_total), #[trigger] ticks[i]),
        forall|i: int| 0 <= i < k ==> (#[trigger] ticks[i]).now < created + countdown,
        ticks[k].now >= created + countdown,
    ensures
        ({
            let (left, signals) = run(Some(timer_from(created, countdown, events_total)), ticks);
            &&& left is None
            &&& signals.len() == ticks.len()
            &&& signals[k] == TimerSignal::LevelAdvance
            &&& forall|i: int| 0 <= i < ticks.len() && i != k ==> signals[i] != TimerSignal::LevelAdvance
            &&& forall|i: int| 0 <= i < k ==> signals[i] is Running
        }),
{
    let timer = timer_from(created, countdown, events_total);
    assert(quiet(timer, ticks[k]));
    lemma_run_decided(timer, ticks, k);
}

/// A countdown that meets a reason to stop before it has run out is gone at
/// that tick, and no tick signals that the level is won: not that one, none
/// before and none after.
pub proof fn law_countdown_cancelled(created: u64, countdown: u64, events_total: u64, ticks: Seq<Tick>, j: int)
    requires
        created + countdown <= u64::MAX,
        0 <= j < ticks.len(),
        forall|i: int|
            0 <= i < j ==> quiet(timer_from(created, countdown, events_total), #[trigger] ticks[i])
                && ticks[i].now < created + countdown,
        !quiet(timer_from(created, countdown, events_total), ticks[j]),
    ensures
        ({
            let (left, signals) = run(Some(timer_from(created, countdown, events_total)), ticks);
            &&& left is None
            &&& signals.len() == ticks.len()
            &&& signals[j] is Cancelled
            &&& forall|i: int| 0 <= i < ticks.len() ==> signals[i] != TimerSignal::LevelAdvance
            &&& run(Some(timer_from(created, countdown, events_total)), ticks.take(j + 1)).0 is None
        }),
{
    let timer = timer_from(created, countdown, events_total);
    lemma_run_decided(timer, ticks, j);
    let upto = ticks.take(j + 1);
    assert forall|i: int| 0 <= i < j implies quiet(timer, #[trigger] upto[i]) && upto[i].now
        < timer.win_time by {
        assert(upto[i] == ticks[i]);
    }
    assert(upto[j] == ticks[j]);
    lemma_run_decided(timer, upto, j);
}

} // verus!
