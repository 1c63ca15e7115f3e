use equilibrium::geometry::{Arena, Point};
use equilibrium::stage::Stage;
use equilibrium::win::{
    check_for_collisions, check_for_win, forecast_substeps, handle_collision_event,
    select_countdown, tower_due_now, tower_timer, win_tick, Forecast, TimerSignal, WinFailure,
    WinTimer, COUNTDOWN, FORECAST_HORIZON, FORECAST_RATE, SHORT_COUNTDOWN,
};

#[test]
fn countdowns_have_their_design_values() {
    assert_eq!(COUNTDOWN, 5000);
    assert_eq!(SHORT_COUNTDOWN, 500);
    assert_eq!(FORECAST_HORIZON, 2 * COUNTDOWN);
    assert_eq!(forecast_substeps(FORECAST_HORIZON, FORECAST_RATE), 600);
}

#[test]
fn forecast_substeps_leaves_out_the_partial_step() {
    assert_eq!(forecast_substeps(1016, 60), 60);
    assert_eq!(forecast_substeps(1017, 60), 61);
    assert_eq!(forecast_substeps(0, 60), 0);
    assert_eq!(forecast_substeps(u64::MAX, u32::MAX), usize::MAX);
}

#[test]
fn long_countdown_for_a_forecast_collision_short_otherwise() {
    assert_eq!(select_countdown(true), 5000);
    assert_eq!(select_countdown(false), 500);
}

#[test]
fn timer_starts_at_now_plus_countdown() {
    assert_eq!(
        WinTimer::start(1200, 500, 9),
        WinTimer { win_time: 1700, total_countdown: 500, events_seen: 9 }
    );
    assert_eq!(WinTimer::start(u64::MAX - 3, 500, 0).win_time, u64::MAX);
}

#[test]
fn collision_after_the_start_stops_the_countdown() {
    let timer = Some(WinTimer::start(1000, 5000, 4));
    assert_eq!(check_for_collisions(&timer, 4, false), None);
    assert_eq!(check_for_collisions(&timer, 5, false), Some(WinFailure::IntersectionFound));
    assert_eq!(check_for_collisions(&timer, 4, true), Some(WinFailure::SomethingDragged));
    assert_eq!(check_for_collisions(&timer, 5, true), Some(WinFailure::IntersectionFound));
    assert_eq!(check_for_collisions(&None, 5, true), None);
}

#[test]
fn countdown_runs_then_expires() {
    let timer = Some(WinTimer::start(1000, 500, 0));
    assert_eq!(check_for_win(&timer, 1000, 0, false), TimerSignal::Running { remaining: 500, total: 500 });
    assert_eq!(check_for_win(&timer, 1375, 0, false), TimerSignal::Running { remaining: 125, total: 500 });
    assert_eq!(check_for_win(&timer, 1499, 0, false), TimerSignal::Running { remaining: 1, total: 500 });
    assert_eq!(check_for_win(&timer, 1500, 0, false), TimerSignal::LevelAdvance);
    assert_eq!(check_for_win(&timer, 9000, 0, false), TimerSignal::LevelAdvance);
    assert_eq!(check_for_win(&None, 9000, 0, false), TimerSignal::Idle);
    assert_eq!(check_for_win(&None, 9000, 5, true), TimerSignal::Idle);
}

#[test]
fn a_countdown_that_has_run_out_is_still_stopped_by_a_collision_or_a_drag() {
    let timer = Some(WinTimer::start(1000, 500, 3));
    assert_eq!(
        check_for_win(&timer, 1500, 4, false),
        TimerSignal::Cancelled(WinFailure::IntersectionFound)
    );
    assert_eq!(
        check_for_win(&timer, 9000, 3, true),
        TimerSignal::Cancelled(WinFailure::SomethingDragged)
    );
    assert_eq!(
        check_for_win(&timer, 1200, 4, true),
        TimerSignal::Cancelled(WinFailure::IntersectionFound)
    );
    assert_eq!(check_for_win(&timer, 1500, 3, false), TimerSignal::LevelAdvance);
    // looking changes nothing
    assert_eq!(timer, Some(WinTimer { win_time: 1500, total_countdown: 500, events_seen: 3 }));
}

#[test]
fn timer_expires_at_the_first_tick_at_or_after_its_end() {
    let mut timer = Some(WinTimer::start(1000, 500, 3));
    assert_eq!(win_tick(&mut timer, 1016, 3, false), TimerSignal::Running { remaining: 484, total: 500 });
    assert_eq!(win_tick(&mut timer, 1490, 3, false), TimerSignal::Running { remaining: 10, total: 500 });
    assert!(timer.is_some());
    assert_eq!(win_tick(&mut timer, 1506, 3, false), TimerSignal::LevelAdvance);
    assert_eq!(timer, None);
    assert_eq!(win_tick(&mut timer, 1522, 3, false), TimerSignal::Idle);
}

#[test]
fn contact_before_the_end_despawns_the_timer_without_a_win() {
    let mut timer = Some(WinTimer::start(1000, 5000, 3));
    assert_eq!(win_tick(&mut timer, 2000, 3, false), TimerSignal::Running { remaining: 4000, total: 5000 });
    assert_eq!(win_tick(&mut timer, 3000, 4, false), TimerSignal::Cancelled(WinFailure::IntersectionFound));
    assert_eq!(timer, None);
    assert_eq!(win_tick(&mut timer, 7000, 4, false), TimerSignal::Idle);
}

#[test]
fn drag_before_the_end_despawns_the_timer_without_a_win() {
    let mut timer = Some(WinTimer::start(1000, 500, 3));
    assert_eq!(win_tick(&mut timer, 1100, 3, true), TimerSignal::Cancelled(WinFailure::SomethingDragged));
    assert_eq!(timer, None);
}

#[test]
fn a_reason_to_stop_beats_the_end_of_the_countdown() {
    let mut timer = Some(WinTimer::start(1000, 500, 3));
    assert_eq!(win_tick(&mut timer, 1500, 3, true), TimerSignal::Cancelled(WinFailure::SomethingDragged));
    assert_eq!(timer, None);
}

#[test]
fn collision_event_counts_when_a_collider_is_a_sensor() {
    assert!(handle_collision_event(Some(true), Some(false)));
    assert!(handle_collision_event(Some(false), Some(true)));
    assert!(handle_collision_event(None, Some(true)));
    assert!(!handle_collision_event(Some(false), Some(false)));
    assert!(!handle_collision_event(None, None));
    assert!(!handle_collision_event(Some(false), None));
}

#[test]
fn tower_timer_needs_an_ended_drag_no_timer_no_drag_and_no_wall_contact() {
    let long = Some(WinTimer { win_time: 6000, total_countdown: 5000, events_seen: 2 });
    let short = Some(WinTimer { win_time: 1500, total_countdown: 500, events_seen: 2 });
    assert_eq!(tower_timer(true, false, false, false, true, 1000, 2), long);
    assert_eq!(tower_timer(true, false, false, false, false, 1000, 2), short);
    assert_eq!(tower_timer(false, false, false, false, false, 1000, 2), None);
    assert_eq!(tower_timer(true, true, false, false, false, 1000, 2), None);
    assert_eq!(tower_timer(true, false, true, false, false, 1000, 2), None);
    assert_eq!(tower_timer(true, false, false, true, false, 1000, 2), None);
}

#[test]
fn forecast_of_no_steps_is_settled_from_the_start() {
    assert_eq!(Forecast::begin(0), Forecast::Settled { will_collide: false });
    assert_eq!(Forecast::begin(3), Forecast::Stepping { left: 3 });
}

#[test]
fn forecast_stops_at_the_first_step_that_meets_a_sensor() {
    let forecast = Forecast::begin(600).observe(false).observe(false);
    assert_eq!(forecast, Forecast::Stepping { left: 598 });
    let forecast = forecast.observe(true);
    assert_eq!(forecast, Forecast::Settled { will_collide: true });
    assert_eq!(forecast.observe(false), Forecast::Settled { will_collide: true });
}

#[test]
fn forecast_of_quiet_steps_settles_after_the_last() {
    let forecast = Forecast::begin(2).observe(false);
    assert_eq!(forecast, Forecast::Stepping { left: 1 });
    let forecast = forecast.observe(false);
    assert_eq!(forecast, Forecast::Settled { will_collide: false });
    assert_eq!(forecast.observe(true), Forecast::Settled { will_collide: false });
    assert_eq!(Forecast::begin(1).observe(true), Forecast::Settled { will_collide: true });
}

#[test]
fn a_forecast_is_due_after_an_ended_drag_with_no_timer_and_no_drag() {
    let stage = Stage::new(Arena::window(), 330);
    assert!(tower_due_now(true, &None, &stage));
    assert!(!tower_due_now(false, &None, &stage));
    assert!(!tower_due_now(true, &Some(WinTimer::start(0, 500, 0)), &stage));
    let mut held = Stage::new(Arena::window(), 330);
    held.add_shape(1, Point::new(0, 0));
    equilibrium::draggable::on_drag_start(
        &mut held,
        false,
        &equilibrium::events::DragStartEvent {
            drag_source: equilibrium::source::DragSource::Mouse,
            position: Point::new(0, 0),
        },
        &vec![equilibrium::events::Hit { entity: 1, translation: Point::new(0, 0), rotation: 0 }],
    );
    assert!(!tower_due_now(true, &None, &held));
}
