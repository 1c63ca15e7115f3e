//! The menu: its buttons and what a press does.

use vstd::prelude::*;
use crate::level::ChangeLevelEvent;

verus! {

/// A button of the menu.
#[derive(PartialEq, Eq, Structural, Clone, Copy, Debug)]
pub enum MenuButton {
    ToggleMenu,
    ResetLevel,
    GoFullscreen,
    Tutorial,
    Infinite,
    DailyChallenge,
    DownloadImage,
}

/// The menu, shown or hidden.
#[derive(PartialEq, Eq, Structural, Clone, Copy, Debug)]
pub struct MainMenu {
    pub is_visible: bool,
}

/// What the pointer does to a button.
#[derive(PartialEq, Eq, Structural, Clone, Copy, Debug)]
pub enum Interaction {
    Clicked,
    Hovered,
    /// The pointer is elsewhere.
    Idle,
}

/// The colour of a button: one for each interaction.
#[derive(PartialEq, Eq, Structural, Clone, Copy, Debug)]
pub enum ButtonColor {
    Normal,
    Hovered,
    Pressed,
}

/// What a press asks of the game, beyond showing or hiding the menu.
#[derive(PartialEq, Eq, Structural, Clone, Copy, Debug)]
pub enum MenuAction {
    /// Fill the screen.
    Fullscreen,
    /// Change the level.
    ChangeLevel(ChangeLevelEvent),
    /// Hand out the picture of the last level won.
    DownloadImage,
}

impl MenuButton {
    /// The character of the icon font that stands on the button.
    pub open spec fn glyph(self) -> char {
        match self {
            MenuButton::ToggleMenu => '\u{f0c9}',
            MenuButton::ResetLevel => '\u{e800}',
            MenuButton::GoFullscreen => '\u{f0b2}',
            MenuButton::Tutorial => '\u{e801}',
            MenuButton::Infinite => '\u{e802}',
            MenuButton::DailyChallenge => '\u{e803}',
            MenuButton::DownloadImage => '\u{e804}',
        }
    }

    /// What a press of the button asks of the game.
    pub open spec fn action(self) -> Option<MenuAction> {
        match self {
            MenuButton::ToggleMenu => None,
            MenuButton::ResetLevel => Some(MenuAction::ChangeLevel(ChangeLevelEvent::ResetLevel)),
            MenuButton::GoFullscreen => Some(MenuAction::Fullscreen),
            MenuButton::Tutorial => Some(MenuAction::ChangeLevel(ChangeLevelEvent::StartTutorial)),
            MenuButton::Infinite => Some(MenuAction::ChangeLevel(ChangeLevelEvent::StartInfinite)),
            MenuButton::DailyChallenge => Some(
                MenuAction::ChangeLevel(ChangeLevelEvent::StartChallenge),
            ),
            MenuButton::DownloadImage => Some(MenuAction::DownloadImage),
        }
    }

    /// The text on the button: one character of the icon font.
    pub fn text(&self) -> (text: &'static str)
        ensures
            text@ == seq![self.glyph()],
    {
        proof {
            reveal_strlit("\u{f0c9}");
            reveal_strlit("\u{e800}");
            reveal_strlit("\u{f0b2}");
            reveal_strlit("\u{e801}");
            reveal_strlit("\u{e802}");
            reveal_strlit("\u{e803}");
            reveal_strlit("\u{e804}");
        }
        let text = match self {
            MenuButton::ToggleMenu => "\u{f0c9}",
            MenuButton::ResetLevel => "\u{e800}",
            MenuButton::GoFullscreen => "\u{f0b2}",
            MenuButton::Tutorial => "\u{e801}",
            MenuButton::Infinite => "\u{e802}",
            MenuButton::DailyChallenge => "\u{e803}",
            MenuButton::DownloadImage => "\u{e804}",
        };
        assert(text@ =~= seq![self.glyph()]);
        text
    }
}

/// The colour of a button under an interaction.
pub open spec fn color_under(interaction: Interaction) -> ButtonColor {
    match interaction {
        Interaction::Clicked => ButtonColor::Pressed,
        Interaction::Hovered => ButtonColor::Hovered,
        Interaction::Idle => ButtonColor::Normal,
    }
}

/// Whether the menu shows after an interaction with a button: a click on the
/// toggle turns it over, a click on any other button hides it, anything else
/// leaves it.
pub open spec fn visible_after(visible: bool, interaction: Interaction, button: MenuButton) -> bool {
    if interaction == Interaction::Clicked {
        button == MenuButton::ToggleMenu && !visible
    } else {
        visible
    }
}

/// Handles an interaction with a button: colours the button, shows or hides
/// the menu, and returns what a click asks of the game.
pub fn button_system(interaction: Interaction, button: MenuButton, menu: &mut MainMenu) -> (r: (
    ButtonColor,
    Option<MenuAction>,
))
    ensures
        r.0 == color_under(interaction),
        r.1 == if interaction == Interaction::Clicked {
            button.action()
        } else {
            None
        },
        final(menu).is_visible == visible_after(old(menu).is_visible, interaction, button),
{
    match interaction {
        Interaction::Clicked => {
            let action = match button {
                MenuButton::ToggleMenu => {
                    menu.is_visible = !menu.is_visible;
                    None
                },
                MenuButton::GoFullscreen => Some(MenuAction::Fullscreen),
                MenuButton::Tutorial => Some(MenuAction::ChangeLevel(ChangeLevelEvent::StartTutorial)),
                MenuButton::Infinite => Some(MenuAction::ChangeLevel(ChangeLevelEvent::StartInfinite)),
                MenuButton::DailyChallenge => Some(
                    MenuAction::ChangeLevel(ChangeLevelEvent::StartChallenge),
                ),
                MenuButton::ResetLevel => Some(MenuAction::ChangeLevel(ChangeLevelEvent::ResetLevel)),
                MenuButton::DownloadImage => Some(MenuAction::DownloadImage),
            };
            match button {
                MenuButton::ToggleMenu => {},
                _ => {
                    menu.is_visible = false;
                },
            }
            (ButtonColor::Pressed, action)
        },
        Interaction::Hovered => (ButtonColor::Hovered, None),
        Interaction::Idle => (ButtonColor::Normal, None),
    }
}

/// The buttons of the menu, top to bottom. The toggle is not among them: it
/// stands beside the menu.
pub fn menu_buttons() -> (buttons: Vec<MenuButton>)
    ensures
        buttons@ == seq![
            MenuButton::ResetLevel,
            MenuButton::Tutorial,
            MenuButton::Infinite,
            MenuButton::DailyChallenge,
            MenuButton::DownloadImage,
        ],
{
    let mut buttons: Vec<MenuButton> = Vec::new();
    buttons.push(MenuButton::ResetLevel);
    buttons.push(MenuButton::Tutorial);
    buttons.push(MenuButton::Infinite);
    buttons.push(MenuButton::DailyChallenge);
    buttons.push(MenuButton::DownloadImage);
    assert(buttons@ =~= seq![
        MenuButton::ResetLevel,
        MenuButton::Tutorial,
        MenuButton::Infinite,
        MenuButton::DailyChallenge,
        MenuButton::DownloadImage,
    ]);
    buttons
}

} // verus!
