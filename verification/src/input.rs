//! Keys, and what each of them does to the game.

use crate::unit::player::{accelerated, decelerated, Player, PlayerView};
use vstd::prelude::*;

verus! {

/// The keys the game tells apart.
#[derive(Clone, Copy, Debug, PartialEq, Eq, Structural)]
pub enum KeyCode {
    Left,
    Right,
    Up,
    Down,
    Esc,
    Char(char),
    Other,
}

/// What happened to a key.
#[derive(Clone, Copy, Debug, PartialEq, Eq, Structural)]
pub enum KeyEventKind {
    Press,
    Repeat,
    Release,
}

/// The modifier set that holds the control key and nothing else.
pub const CONTROL: u8 = 2;

/// A key event: the key, the set of modifier keys held with it (one bit
/// each, shift lowest, then control, then alt), and what happened to it.
#[derive(Clone, Copy, Debug, PartialEq, Eq, Structural)]
pub struct KeyEvent {
    pub code: KeyCode,
    pub modifiers: u8,
    pub kind: KeyEventKind,
}

/// Something the terminal reported.
#[derive(Clone, Copy, Debug, PartialEq, Eq, Structural)]
pub enum Event {
    Key(KeyEvent),
    Other,
}

/// What a key asks of the game.
#[derive(Clone, Copy, Debug, PartialEq, Eq, Structural)]
pub enum Action {
    TurnLeft,
    TurnRight,
    Accelerate,
    Decelerate,
    ToggleNoclip,
    ToggleSpeed,
    ToggleInvincibility,
    Quit,
    Nothing,
}

/// The action bound to a key.
pub open spec fn binding(key: KeyEvent) -> Action {
    match key.code {
        KeyCode::Left => Action::TurnLeft,
        KeyCode::Right => Action::TurnRight,
        KeyCode::Up => Action::Accelerate,
        KeyCode::Down => Action::Decelerate,
        KeyCode::Esc => Action::Quit,
        KeyCode::Char(c) => if c == 'n' {
            Action::ToggleNoclip
        } else if c == 's' {
            Action::ToggleSpeed
        } else if c == 'u' {
            Action::ToggleInvincibility
        } else if c == 'q' {
            Action::Quit
        } else if c == 'c' && key.modifiers == 2 {
            Action::Quit
        } else {
            Action::Nothing
        },
        KeyCode::Other => Action::Nothing,
    }
}

/// The player after an action.
pub open spec fn acted(player: PlayerView, action: Action) -> PlayerView {
    match action {
        Action::TurnLeft => PlayerView { position: player.position.rotated(-1), ..player },
        Action::TurnRight => PlayerView { position: player.position.rotated(1), ..player },
        Action::Accelerate => PlayerView {
            speed: accelerated(player.speed as int, player.speedlimit) as i32,
            ..player
        },
        Action::Decelerate => PlayerView {
            speed: decelerated(player.speed as int, player.speedlimit) as i32,
            ..player
        },
        Action::ToggleNoclip => PlayerView { noclip: !player.noclip, ..player },
        Action::ToggleSpeed => PlayerView { speedlimit: !player.speedlimit, ..player },
        Action::ToggleInvincibility => PlayerView {
            invincibility: !player.invincibility,
            ..player
        },
        Action::Quit => player,
        Action::Nothing => player,
    }
}

/// The key press in an event, if it is one. Anything else the terminal
/// reports, a key's release or repeat included, counts for nothing.
pub fn key_press(event: Event) -> (key: Option<KeyEvent>)
    ensures
        key == match event {
            Event::Key(k) => if k.kind == KeyEventKind::Press {
                Some(k)
            } else {
                None
            },
            Event::Other => None,
        },
{
    match event {
        Event::Key(k) => {
            if k.kind == KeyEventKind::Press {
                Some(k)
            } else {
                None
            }
        },
        Event::Other => None,
    }
}

/// The action bound to a key.
pub fn action_of(key: KeyEvent) -> (action: Action)
    ensures
        action == binding(key),
{
    match key.code {
        KeyCode::Left => Action::TurnLeft,
        KeyCode::Right => Action::TurnRight,
        KeyCode::Up => Action::Accelerate,
        KeyCode::Down => Action::Decelerate,
        KeyCode::Esc => Action::Quit,
        KeyCode::Char(c) => {
            if c == 'n' {
                Action::ToggleNoclip
            } else if c == 's' {
                Action::ToggleSpeed
            } else if c == 'u' {
                Action::ToggleInvincibility
            } else if c == 'q' {
                Action::Quit
            } else if c == 'c' && key.modifiers == CONTROL {
                Action::Quit
            } else {
                Action::Nothing
            }
        },
        KeyCode::Other => Action::Nothing,
    }
}

/// Carries out what a key asks: it steers the player or raises `quit`.
/// A key without a binding changes nothing, and `quit` is never lowered.
pub fn handle_key_event(key: KeyEvent, player: &mut Player, quit: &mut bool)
    ensures
        final(player)@ == acted(old(player)@, binding(key)),
        *final(quit) == (*old(quit) || binding(key) == Action::Quit),
{
    match action_of(key) {
        Action::TurnLeft => player.turn_left(),
        Action::TurnRight => player.turn_right(),
        Action::Accelerate => player.accelerate(),
        Action::Decelerate => player.decelerate(),
        Action::ToggleNoclip => player.toggle_noclip(),
        Action::ToggleSpeed => player.toggle_speed(),
        Action::ToggleInvincibility => player.toggle_invincibility(),
        Action::Quit => {
            *quit = true;
        },
        Action::Nothing => {},
    }
}

} // verus!
