//! Phases of the program and the buttons of its menu.

use vstd::prelude::*;

verus! {

/// The coarse mode the program is in.
#[derive(Clone, Copy, Debug, PartialEq, Eq, Structural)]
pub enum Phase {
    /// The opening screen; it gives way to play by itself.
    Splash,
    /// A menu shown before play.
    Menu,
    /// A game is running.
    Playing,
    /// The ship was lost; the menu is up.
    GameOver,
}

/// The menu page that is shown.
#[derive(Clone, Copy, Debug, PartialEq, Eq, Structural)]
pub enum MenuState {
    Main,
    Settings,
    SettingsDisplay,
    SettingsSound,
    /// No menu is shown.
    Disabled,
}

/// What a menu button stands for.
#[derive(Clone, Copy, Debug, PartialEq, Eq, Structural)]
pub enum MenuButtonAction {
    Play,
    Settings,
    SettingsDisplay,
    SettingsSound,
    BackToMainMenu,
    BackToSettings,
    Quit,
}

/// What the pointer does to a button.
#[derive(Clone, Copy, Debug, PartialEq, Eq, Structural)]
pub enum Interaction {
    Pressed,
    Hovered,
    Idle,
}

/// The look of a button.
#[derive(Clone, Copy, Debug, PartialEq, Eq, Structural)]
pub enum ButtonShade {
    Normal,
    Hovered,
    HoveredPressed,
    Pressed,
}

/// What a button press asks the program to do.
#[derive(Clone, Copy, Debug, PartialEq, Eq, Structural)]
pub enum MenuCommand {
    /// Nothing: the button was not pressed.
    Stay,
    /// Start a new game.
    Play,
    /// Show the given menu page.
    Show(MenuState),
    /// Leave the program.
    Quit,
}

/// The look of a button under `interaction`; `selected` tells whether the
/// button marks the option currently chosen.
pub open spec fn shade_of(interaction: Interaction, selected: bool) -> ButtonShade {
    match (interaction, selected) {
        (Interaction::Pressed, _) => ButtonShade::Pressed,
        (Interaction::Idle, true) => ButtonShade::Pressed,
        (Interaction::Hovered, true) => ButtonShade::HoveredPressed,
        (Interaction::Hovered, false) => ButtonShade::Hovered,
        (Interaction::Idle, false) => ButtonShade::Normal,
    }
}

/// The menu page that a button leads to, for the buttons that lead to one.
pub open spec fn page_of(action: MenuButtonAction) -> Option<MenuState> {
    match action {
        MenuButtonAction::Settings => Some(MenuState::Settings),
        MenuButtonAction::SettingsDisplay => Some(MenuState::SettingsDisplay),
        MenuButtonAction::SettingsSound => Some(MenuState::SettingsSound),
        MenuButtonAction::BackToMainMenu => Some(MenuState::Main),
        MenuButtonAction::BackToSettings => Some(MenuState::Settings),
        MenuButtonAction::Play => None,
        MenuButtonAction::Quit => None,
    }
}

/// What `interaction` on the button for `action` asks for.
pub open spec fn command_of(interaction: Interaction, action: MenuButtonAction) -> MenuCommand {
    if interaction != Interaction::Pressed {
        MenuCommand::Stay
    } else {
        match action {
            MenuButtonAction::Quit => MenuCommand::Quit,
            MenuButtonAction::Play => MenuCommand::Play,
            _ => MenuCommand::Show(page_of(action).unwrap()),
        }
    }
}

/// Chooses the look of a button.
pub fn button_shade(interaction: Interaction, selected: bool) -> (shade: ButtonShade)
    ensures
        shade == shade_of(interaction, selected),
{
    match interaction {
        Interaction::Pressed => ButtonShade::Pressed,
        Interaction::Hovered => if selected {
            ButtonShade::HoveredPressed
        } else {
            ButtonShade::Hovered
        },
        Interaction::Idle => if selected {
            ButtonShade::Pressed
        } else {
            ButtonShade::Normal
        },
    }
}

/// Turns what the pointer does to a button into a command. Only a press
/// asks for anything.
pub fn menu_command(interaction: Interaction, action: MenuButtonAction) -> (command: MenuCommand)
    ensures
        command == command_of(interaction, action),
        command matches MenuCommand::Show(page) ==> page != MenuState::Disabled,
{
    match interaction {
        Interaction::Pressed => match action {
            MenuButtonAction::Quit => MenuCommand::Quit,
            MenuButtonAction::Play => MenuCommand::Play,
            MenuButtonAction::Settings => MenuCommand::Show(MenuState::Settings),
            MenuButtonAction::SettingsDisplay => MenuCommand::Show(MenuState::SettingsDisplay),
            MenuButtonAction::SettingsSound => MenuCommand::Show(MenuState::SettingsSound),
            MenuButtonAction::BackToMainMenu => MenuCommand::Show(MenuState::Main),
            MenuButtonAction::BackToSettings => MenuCommand::Show(MenuState::Settings),
        },
        _ => MenuCommand::Stay,
    }
}

} // verus!
