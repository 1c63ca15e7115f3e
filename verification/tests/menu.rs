use equilibrium::level::ChangeLevelEvent;
use equilibrium::menu::{
    button_system, menu_buttons, ButtonColor, Interaction, MainMenu, MenuAction, MenuButton,
};

#[test]
fn button_texts_are_glyphs_of_the_icon_font() {
    assert_eq!(MenuButton::ToggleMenu.text(), "\u{f0c9}");
    assert_eq!(MenuButton::ResetLevel.text(), "\u{e800}");
    assert_eq!(MenuButton::GoFullscreen.text(), "\u{f0b2}");
    assert_eq!(MenuButton::Tutorial.text(), "\u{e801}");
    assert_eq!(MenuButton::Infinite.text(), "\u{e802}");
    assert_eq!(MenuButton::DailyChallenge.text(), "\u{e803}");
    assert_eq!(MenuButton::DownloadImage.text(), "\u{e804}");
}

#[test]
fn menu_lists_its_buttons_top_to_bottom() {
    assert_eq!(
        menu_buttons(),
        vec![
            MenuButton::ResetLevel,
            MenuButton::Tutorial,
            MenuButton::Infinite,
            MenuButton::DailyChallenge,
            MenuButton::DownloadImage,
        ]
    );
}

#[test]
fn toggle_turns_the_menu_over() {
    let mut menu = MainMenu { is_visible: false };
    assert_eq!(
        button_system(Interaction::Clicked, MenuButton::ToggleMenu, &mut menu),
        (ButtonColor::Pressed, None)
    );
    assert!(menu.is_visible);
    button_system(Interaction::Clicked, MenuButton::ToggleMenu, &mut menu);
    assert!(!menu.is_visible);
}

#[test]
fn click_on_a_button_of_the_menu_acts_and_hides_the_menu() {
    let cases = [
        (MenuButton::ResetLevel, MenuAction::ChangeLevel(ChangeLevelEvent::ResetLevel)),
        (MenuButton::Tutorial, MenuAction::ChangeLevel(ChangeLevelEvent::StartTutorial)),
        (MenuButton::Infinite, MenuAction::ChangeLevel(ChangeLevelEvent::StartInfinite)),
        (MenuButton::DailyChallenge, MenuAction::ChangeLevel(ChangeLevelEvent::StartChallenge)),
        (MenuButton::DownloadImage, MenuAction::DownloadImage),
        (MenuButton::GoFullscreen, MenuAction::Fullscreen),
    ];
    for (button, action) in cases {
        let mut menu = MainMenu { is_visible: true };
        assert_eq!(
            button_system(Interaction::Clicked, button, &mut menu),
            (ButtonColor::Pressed, Some(action))
        );
        assert!(!menu.is_visible);
    }
}

#[test]
fn hover_and_rest_only_colour_the_button() {
    let mut menu = MainMenu { is_visible: true };
    assert_eq!(
        button_system(Interaction::Hovered, MenuButton::Tutorial, &mut menu),
        (ButtonColor::Hovered, None)
    );
    assert!(menu.is_visible);
    assert_eq!(
        button_system(Interaction::Idle, MenuButton::ToggleMenu, &mut menu),
        (ButtonColor::Normal, None)
    );
    assert!(menu.is_visible);
}
