//! The levels, the steps from one to the next, and what is written on
//! the screen for each.

use vstd::prelude::*;
use vstd::string::StringExecFns;
use crate::text::{decimal, decimal_text};

verus! {

/// The kind of a level.
#[derive(PartialEq, Eq, Structural, Clone, Copy, Debug)]
pub enum LevelType {
    Tutorial,
    Infinite,
    Challenge,
    /// The day's challenge is won; the number is the streak of days.
    ChallengeComplete(usize),
}

/// A level: how many shapes it has and of what kind it is.
#[derive(PartialEq, Eq, Structural, Clone, Copy, Debug)]
pub struct GameLevel {
    pub shapes: usize,
    pub level_type: LevelType,
}

/// A request to change the level.
#[derive(PartialEq, Eq, Structural, Clone, Copy, Debug)]
pub enum ChangeLevelEvent {
    Next,
    ResetLevel,
    StartTutorial,
    StartInfinite,
    StartChallenge,
}

/// What the player's saved record says once the change of level has been
/// written to it.
#[derive(PartialEq, Eq, Structural, Clone, Copy, Debug)]
pub struct SavedData {
    /// Whether the tutorial has been played through.
    pub tutorial_finished: bool,
    /// Whether today's challenge has been won.
    pub beat_todays_challenge: bool,
    /// For how many days in a row the challenge has been won.
    pub challenge_streak: usize,
}

/// What a change of level has to write to the saved record before the next
/// level is chosen.
#[derive(PartialEq, Eq, Structural, Clone, Copy, Debug)]
pub enum SaveStep {
    /// The tutorial has been played through.
    TutorialFinished,
    /// Today's challenge has been won.
    ChallengeBeaten,
}

/// The number of the last level of the tutorial.
pub const TUTORIAL_LEVELS: usize = 4;

/// The number of shapes of a daily challenge.
pub const CHALLENGE_SHAPES: usize = 10;

/// The number of shapes with which the infinite game begins.
pub const INFINITE_SHAPES: usize = 5;

/// One more than `n`, or `n` where there is no more.
pub open spec fn one_more(n: usize) -> usize {
    if n < usize::MAX {
        (n + 1) as usize
    } else {
        n
    }
}

impl SavedData {
    /// The record with a step written to it. The end of the tutorial is
    /// noted; a won challenge is noted and adds a day to the streak, unless
    /// today's challenge was won before.
    pub open spec fn with(self, step: SaveStep) -> SavedData {
        match step {
            SaveStep::TutorialFinished => SavedData { tutorial_finished: true, ..self },
            SaveStep::ChallengeBeaten => if self.beat_todays_challenge {
                self
            } else {
                SavedData {
                    beat_todays_challenge: true,
                    challenge_streak: one_more(self.challenge_streak),
                    ..self
                }
            },
        }
    }

    /// The record as a day begins with it. A challenge won today stays
    /// won; otherwise today's challenge is still to win, and the streak
    /// goes on only from a win of the day before.
    pub open spec fn on_day(self, won_today: bool, won_yesterday: bool) -> SavedData {
        if won_today {
            self
        } else {
            SavedData {
                beat_todays_challenge: false,
                challenge_streak: if won_yesterday {
                    self.challenge_streak
                } else {
                    0
                },
                ..self
            }
        }
    }

    /// Brings the record to the day. `won_today` and `won_yesterday` say
    /// whether the challenge was last won today, or the day before.
    pub fn begin_day(&self, won_today: bool, won_yesterday: bool) -> (saved: SavedData)
        ensures
            saved == self.on_day(won_today, won_yesterday),
    {
        if won_today {
            *self
        } else {
            SavedData {
                tutorial_finished: self.tutorial_finished,
                beat_todays_challenge: false,
                challenge_streak: if won_yesterday {
                    self.challenge_streak
                } else {
                    0
                },
            }
        }
    }

    /// Writes a step to the record.
    pub fn record(&self, step: SaveStep) -> (saved: SavedData)
        ensures
            saved == self.with(step),
    {
        match step {
            SaveStep::TutorialFinished => SavedData {
                tutorial_finished: true,
                beat_todays_challenge: self.beat_todays_challenge,
                challenge_streak: self.challenge_streak,
            },
            SaveStep::ChallengeBeaten => {
                if self.beat_todays_challenge {
                    *self
                } else {
                    SavedData {
                        tutorial_finished: self.tutorial_finished,
                        beat_todays_challenge: true,
                        challenge_streak: if self.challenge_streak < usize::MAX {
                            self.challenge_streak + 1
                        } else {
                            self.challenge_streak
                        },
                    }
                }
            },
        }
    }
}

impl GameLevel {
    /// The level that a new game begins at: the first of the tutorial.
    pub open spec fn first() -> GameLevel {
        GameLevel { shapes: 1, level_type: LevelType::Tutorial }
    }

    /// The hint written on the screen while this level is played, if it has
    /// one. `is_touch` says whether the player uses a touch screen.
    pub open spec fn hint(self, is_touch: bool) -> Option<Seq<char>> {
        match self.level_type {
            LevelType::Tutorial => if self.shapes == 1 {
                Some("move the shape"@)
            } else if self.shapes == 2 {
                Some("build a tower with all the shapes"@)
            } else if self.shapes == 3 {
                Some("the locked shape can be unlocked"@)
            } else if self.shapes == 4 {
                if is_touch {
                    Some("Rotate with your finger"@)
                } else {
                    Some("Rotate with the mousewheel, or Q/E"@)
                }
            } else {
                None
            },
            LevelType::Infinite => None,
            LevelType::Challenge => Some("Daily Challenge"@),
            LevelType::ChallengeComplete(streak) => Some(
                "Congratulations. Your streak is "@ + decimal(streak as nat) + "!"@,
            ),
        }
    }

    /// The title of the picture taken when this level is won, if one is
    /// taken. `today` is the day's date, written out.
    pub open spec fn picture_title(self, today: Seq<char>) -> Option<Seq<char>> {
        match self.level_type {
            LevelType::Tutorial => Some("Equilibrium Tutorial "@ + decimal(self.shapes as nat)),
            LevelType::Infinite => Some("Equilibrium Infinite "@ + decimal(self.shapes as nat)),
            LevelType::Challenge => Some("Equilibrium Challenge "@ + today),
            LevelType::ChallengeComplete(_) => None,
        }
    }

    /// The hint to write on the screen while this level is played.
    pub fn get_text(&self, is_touch: bool) -> (text: Option<String>)
        ensures
            match text {
                Some(t) => self.hint(is_touch) == Some(t@),
                None => self.hint(is_touch) is None,
            },
    {
        match self.level_type {
            LevelType::Tutorial => {
                if self.shapes == 1 {
                    Some(String::from_str("move the shape"))
                } else if self.shapes == 2 {
                    Some(String::from_str("build a tower with all the shapes"))
                } else if self.shapes == 3 {
                    Some(String::from_str("the locked shape can be unlocked"))
                } else if self.shapes == 4 {
                    if is_touch {
                        Some(String::from_str("Rotate with your finger"))
                    } else {
                        Some(String::from_str("Rotate with the mousewheel, or Q/E"))
                    }
                } else {
                    None
                }
            },
            LevelType::Infinite => None,
            LevelType::Challenge => Some(String::from_str("Daily Challenge")),
            LevelType::ChallengeComplete(streak) => {
                let mut text = String::from_str("Congratulations. Your streak is ");
                let number = decimal_text(streak);
                text.append(number.as_str());
                text.append("!");
                Some(text)
            },
        }
    }

    /// The title of the picture to take when this level is won.
    pub fn screenshot_title(&self, today: &str) -> (title: Option<String>)
        ensures
            match title {
                Some(t) => self.picture_title(today@) == Some(t@),
                None => self.picture_title(today@) is None,
            },
    {
        match self.level_type {
            LevelType::Tutorial => {
                let mut title = String::from_str("Equilibrium Tutorial ");
                let number = decimal_text(self.shapes);
                title.append(number.as_str());
                Some(title)
            },
            LevelType::Infinite => {
                let mut title = String::from_str("Equilibrium Infinite ");
                let number = decimal_text(self.shapes);
                title.append(number.as_str());
                Some(title)
            },
            LevelType::Challenge => {
                let mut title = String::from_str("Equilibrium Challenge ");
                title.append(today);
                Some(title)
            },
            LevelType::ChallengeComplete(_) => None,
        }
    }
}

impl Default for GameLevel {
    fn default() -> (level: GameLevel)
        ensures
            level == GameLevel::first(),
    {
        GameLevel { shapes: 1, level_type: LevelType::Tutorial }
    }
}

impl ChangeLevelEvent {
    /// What this change of level has to write to the saved record first: the
    /// end of the tutorial when its last level is won, a won challenge when
    /// the challenge is won.
    pub open spec fn to_save(self, level: GameLevel) -> Option<SaveStep> {
        if self == ChangeLevelEvent::Next && level.level_type == LevelType::Tutorial && level.shapes
            >= TUTORIAL_LEVELS {
            Some(SaveStep::TutorialFinished)
        } else if self == ChangeLevelEvent::Next && level.level_type == LevelType::Challenge {
            Some(SaveStep::ChallengeBeaten)
        } else {
            None
        }
    }

    /// The level that this change leads to from `level`, given the saved
    /// record as it stands after `to_save`.
    ///
    /// The next level has one shape more. After the tutorial's last level
    /// comes the day's challenge, or the infinite game where the challenge
    /// is won already. A won challenge goes on as a completed challenge,
    /// which shows the streak.
    pub open spec fn leads_to(self, level: GameLevel, saved: SavedData) -> GameLevel {
        match self {
            ChangeLevelEvent::Next => match level.level_type {
                LevelType::Tutorial => if level.shapes >= TUTORIAL_LEVELS {
                    if saved.beat_todays_challenge {
                        GameLevel { shapes: one_more(level.shapes), level_type: LevelType::Infinite }
                    } else {
                        GameLevel { shapes: CHALLENGE_SHAPES, level_type: LevelType::Challenge }
                    }
                } else {
                    GameLevel { shapes: one_more(level.shapes), level_type: LevelType::Tutorial }
                },
                LevelType::Infinite => GameLevel {
                    shapes: one_more(level.shapes),
                    level_type: LevelType::Infinite,
                },
                LevelType::Challenge => GameLevel {
                    shapes: one_more(level.shapes),
                    level_type: LevelType::ChallengeComplete(saved.challenge_streak),
                },
                LevelType::ChallengeComplete(streak) => GameLevel {
                    shapes: one_more(level.shapes),
                    level_type: LevelType::ChallengeComplete(streak),
                },
            },
            ChangeLevelEvent::ResetLevel => level,
            ChangeLevelEvent::StartTutorial => GameLevel { shapes: 1, level_type: LevelType::Tutorial },
            ChangeLevelEvent::StartInfinite => GameLevel {
                shapes: INFINITE_SHAPES,
                level_type: LevelType::Infinite,
            },
            ChangeLevelEvent::StartChallenge => GameLevel {
                shapes: CHALLENGE_SHAPES,
                level_type: LevelType::Challenge,
            },
        }
    }

    /// What to write to the saved record before `apply` is called.
    pub fn save_step(&self, level: &GameLevel) -> (step: Option<SaveStep>)
        ensures
            step == self.to_save(*level),
    {
        match self {
            ChangeLevelEvent::Next => match level.level_type {
                LevelType::Tutorial => {
                    if level.shapes >= TUTORIAL_LEVELS {
                        Some(SaveStep::TutorialFinished)
                    } else {
                        None
                    }
                },
                LevelType::Challenge => Some(SaveStep::ChallengeBeaten),
                _ => None,
            },
            _ => None,
        }
    }

    /// The level that this change leads to.
    #[must_use]
    pub fn apply(&self, level: &GameLevel, saved: &SavedData) -> (next: GameLevel)
        ensures
            next == self.leads_to(*level, *saved),
    {
        let more: usize = if level.shapes < usize::MAX {
            level.shapes + 1
        } else {
            level.shapes
        };
        match self {
            ChangeLevelEvent::Next => match level.level_type {
                LevelType::Tutorial => {
                    if level.shapes >= TUTORIAL_LEVELS {
                        if saved.beat_todays_challenge {
                            GameLevel { shapes: more, level_type: LevelType::Infinite }
                        } else {
                            GameLevel { shapes: CHALLENGE_SHAPES, level_type: LevelType::Challenge }
                        }
                    } else {
                        GameLevel { shapes: more, level_type: LevelType::Tutorial }
                    }
                },
                LevelType::Infinite => GameLevel { shapes: more, level_type: LevelType::Infinite },
                LevelType::Challenge => GameLevel {
                    shapes: more,
                    level_type: LevelType::ChallengeComplete(saved.challenge_streak),
                },
                LevelType::ChallengeComplete(streak) => GameLevel {
                    shapes: more,
                    level_type: LevelType::ChallengeComplete(streak),
                },
            },
            ChangeLevelEvent::ResetLevel => *level,
            ChangeLevelEvent::StartTutorial => GameLevel { shapes: 1, level_type: LevelType::Tutorial },
            ChangeLevelEvent::StartInfinite => GameLevel {
                shapes: INFINITE_SHAPES,
                level_type: LevelType::Infinite,
            },
            ChangeLevelEvent::StartChallenge => GameLevel {
                shapes: CHALLENGE_SHAPES,
                level_type: LevelType::Challenge,
            },
        }
    }
}

/// The change of level that the game begins with: the tutorial for a player
/// who has not finished it, the infinite game for one who has won today's
/// challenge, the challenge otherwise.
pub fn skip_tutorial(saved: &SavedData) -> (event: ChangeLevelEvent)
    ensures
        event == if !saved.tutorial_finished {
            ChangeLevelEvent::StartTutorial
        } else if saved.beat_todays_challenge {
            ChangeLevelEvent::StartInfinite
        } else {
            ChangeLevelEvent::StartChallenge
        },
{
    if saved.tutorial_finished {
        if saved.beat_todays_challenge {
            ChangeLevelEvent::StartInfinite
        } else {
            ChangeLevelEvent::StartChallenge
        }
    } else {
        ChangeLevelEvent::StartTutorial
    }
}

} // verus!
