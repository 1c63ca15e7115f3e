use equilibrium::level::{
    skip_tutorial, ChangeLevelEvent, GameLevel, LevelType, SaveStep, SavedData, CHALLENGE_SHAPES,
    INFINITE_SHAPES, TUTORIAL_LEVELS,
};
use equilibrium::text::decimal_text;

fn saved(tutorial_finished: bool, beat_todays_challenge: bool, challenge_streak: usize) -> SavedData {
    SavedData { tutorial_finished, beat_todays_challenge, challenge_streak }
}

fn level(shapes: usize, level_type: LevelType) -> GameLevel {
    GameLevel { shapes, level_type }
}

#[test]
fn default_level_is_the_first_of_the_tutorial() {
    assert_eq!(GameLevel::default(), level(1, LevelType::Tutorial));
}

#[test]
fn level_constants() {
    assert_eq!(TUTORIAL_LEVELS, 4);
    assert_eq!(CHALLENGE_SHAPES, 10);
    assert_eq!(INFINITE_SHAPES, 5);
}

#[test]
fn decimal_text_writes_numbers_out() {
    assert_eq!(decimal_text(0), "0");
    assert_eq!(decimal_text(7), "7");
    assert_eq!(decimal_text(10), "10");
    assert_eq!(decimal_text(1234567890), "1234567890");
    assert_eq!(decimal_text(usize::MAX), usize::MAX.to_string());
}

#[test]
fn tutorial_hints() {
    assert_eq!(level(1, LevelType::Tutorial).get_text(false), Some("move the shape".to_string()));
    assert_eq!(
        level(2, LevelType::Tutorial).get_text(true),
        Some("build a tower with all the shapes".to_string())
    );
    assert_eq!(
        level(3, LevelType::Tutorial).get_text(false),
        Some("the locked shape can be unlocked".to_string())
    );
    assert_eq!(
        level(4, LevelType::Tutorial).get_text(true),
        Some("Rotate with your finger".to_string())
    );
    assert_eq!(
        level(4, LevelType::Tutorial).get_text(false),
        Some("Rotate with the mousewheel, or Q/E".to_string())
    );
    assert_eq!(level(5, LevelType::Tutorial).get_text(false), None);
    assert_eq!(level(0, LevelType::Tutorial).get_text(false), None);
}

#[test]
fn hints_of_the_other_levels() {
    assert_eq!(level(7, LevelType::Infinite).get_text(false), None);
    assert_eq!(level(10, LevelType::Challenge).get_text(true), Some("Daily Challenge".to_string()));
    assert_eq!(
        level(11, LevelType::ChallengeComplete(12)).get_text(false),
        Some("Congratulations. Your streak is 12!".to_string())
    );
    assert_eq!(
        level(11, LevelType::ChallengeComplete(0)).get_text(false),
        Some("Congratulations. Your streak is 0!".to_string())
    );
}

#[test]
fn screenshot_titles() {
    assert_eq!(
        level(3, LevelType::Tutorial).screenshot_title("2023-02-14"),
        Some("Equilibrium Tutorial 3".to_string())
    );
    assert_eq!(
        level(25, LevelType::Infinite).screenshot_title("2023-02-14"),
        Some("Equilibrium Infinite 25".to_string())
    );
    assert_eq!(
        level(10, LevelType::Challenge).screenshot_title("2023-02-14"),
        Some("Equilibrium Challenge 2023-02-14".to_string())
    );
    assert_eq!(level(11, LevelType::ChallengeComplete(2)).screenshot_title("2023-02-14"), None);
}

#[test]
fn next_walks_through_the_tutorial() {
    let s = saved(false, false, 0);
    assert_eq!(ChangeLevelEvent::Next.apply(&level(1, LevelType::Tutorial), &s), level(2, LevelType::Tutorial));
    assert_eq!(ChangeLevelEvent::Next.apply(&level(3, LevelType::Tutorial), &s), level(4, LevelType::Tutorial));
    assert_eq!(ChangeLevelEvent::Next.save_step(&level(3, LevelType::Tutorial)), None);
}

#[test]
fn after_the_tutorial_comes_the_challenge_or_the_infinite_game() {
    let l = level(4, LevelType::Tutorial);
    assert_eq!(ChangeLevelEvent::Next.save_step(&l), Some(SaveStep::TutorialFinished));
    assert_eq!(ChangeLevelEvent::Next.apply(&l, &saved(true, false, 0)), level(10, LevelType::Challenge));
    assert_eq!(ChangeLevelEvent::Next.apply(&l, &saved(true, true, 3)), level(5, LevelType::Infinite));
    let l = level(9, LevelType::Tutorial);
    assert_eq!(ChangeLevelEvent::Next.apply(&l, &saved(true, true, 3)), level(10, LevelType::Infinite));
}

#[test]
fn next_in_the_infinite_game_adds_a_shape() {
    let s = saved(true, true, 3);
    assert_eq!(ChangeLevelEvent::Next.apply(&level(5, LevelType::Infinite), &s), level(6, LevelType::Infinite));
    assert_eq!(ChangeLevelEvent::Next.save_step(&level(5, LevelType::Infinite)), None);
    assert_eq!(
        ChangeLevelEvent::Next.apply(&level(usize::MAX, LevelType::Infinite), &s),
        level(usize::MAX, LevelType::Infinite)
    );
}

#[test]
fn won_challenge_shows_the_streak() {
    let l = level(10, LevelType::Challenge);
    assert_eq!(ChangeLevelEvent::Next.save_step(&l), Some(SaveStep::ChallengeBeaten));
    assert_eq!(
        ChangeLevelEvent::Next.apply(&l, &saved(true, true, 4)),
        level(11, LevelType::ChallengeComplete(4))
    );
    assert_eq!(
        ChangeLevelEvent::Next.apply(&level(11, LevelType::ChallengeComplete(4)), &saved(true, true, 9)),
        level(12, LevelType::ChallengeComplete(4))
    );
    assert_eq!(ChangeLevelEvent::Next.save_step(&level(11, LevelType::ChallengeComplete(4))), None);
}

#[test]
fn reset_and_starts() {
    let s = saved(true, true, 4);
    let l = level(8, LevelType::Infinite);
    assert_eq!(ChangeLevelEvent::ResetLevel.apply(&l, &s), l);
    assert_eq!(ChangeLevelEvent::StartTutorial.apply(&l, &s), level(1, LevelType::Tutorial));
    assert_eq!(ChangeLevelEvent::StartInfinite.apply(&l, &s), level(5, LevelType::Infinite));
    assert_eq!(ChangeLevelEvent::StartChallenge.apply(&l, &s), level(10, LevelType::Challenge));
    assert_eq!(ChangeLevelEvent::StartChallenge.save_step(&l), None);
    assert_eq!(ChangeLevelEvent::ResetLevel.save_step(&level(4, LevelType::Tutorial)), None);
}

#[test]
fn game_begins_where_the_player_left_off() {
    assert_eq!(skip_tutorial(&saved(false, false, 0)), ChangeLevelEvent::StartTutorial);
    assert_eq!(skip_tutorial(&saved(false, true, 0)), ChangeLevelEvent::StartTutorial);
    assert_eq!(skip_tutorial(&saved(true, false, 0)), ChangeLevelEvent::StartChallenge);
    assert_eq!(skip_tutorial(&saved(true, true, 0)), ChangeLevelEvent::StartInfinite);
}

#[test]
fn record_notes_the_steps() {
    assert_eq!(saved(false, false, 0).record(SaveStep::TutorialFinished), saved(true, false, 0));
    assert_eq!(saved(true, false, 2).record(SaveStep::ChallengeBeaten), saved(true, true, 3));
    assert_eq!(saved(true, true, 3).record(SaveStep::ChallengeBeaten), saved(true, true, 3));
    assert_eq!(
        saved(true, false, usize::MAX).record(SaveStep::ChallengeBeaten),
        saved(true, true, usize::MAX)
    );
}

#[test]
fn a_new_day_asks_for_a_new_win_and_a_missed_day_ends_the_streak() {
    assert_eq!(saved(true, true, 3).begin_day(true, false), saved(true, true, 3));
    assert_eq!(saved(true, true, 3).begin_day(false, true), saved(true, false, 3));
    assert_eq!(saved(true, true, 3).begin_day(false, false), saved(true, false, 0));
    assert_eq!(saved(false, false, 0).begin_day(false, false), saved(false, false, 0));
}
