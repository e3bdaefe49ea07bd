use gridchase::input::{
    action_of, handle_key_event, key_press, Action, Event, KeyCode, KeyEvent, KeyEventKind, CONTROL,
};
use gridchase::point::Heading;
use gridchase::traits::Position;
use gridchase::unit::Player;

fn press(code: KeyCode) -> KeyEvent {
    KeyEvent { code, modifiers: 0, kind: KeyEventKind::Press }
}

fn handled(code: KeyCode, modifiers: u8) -> (Player, bool) {
    let mut player = Player::default();
    let mut quit = false;
    handle_key_event(KeyEvent { code, modifiers, kind: KeyEventKind::Press }, &mut player, &mut quit);
    (player, quit)
}

#[test]
fn arrow_keys_steer_the_player() {
    let (p, quit) = handled(KeyCode::Left, 0);
    assert_eq!(p.position().direction, Heading { dx: 7_061, dy: -7_061, sector: 7 });
    assert!(!quit);
    let (p, quit) = handled(KeyCode::Right, 0);
    assert_eq!(p.position().direction, Heading { dx: 7_061, dy: 7_061, sector: 1 });
    assert!(!quit);
    let (p, quit) = handled(KeyCode::Up, 0);
    assert_eq!(p.speed(), 1_000);
    assert!(!quit);
    let (p, quit) = handled(KeyCode::Down, 0);
    assert_eq!(p.speed(), 0);
    assert!(!quit);
}

#[test]
fn down_key_brakes_a_moving_player() {
    let mut player = Player::builder().speed(3_000).build();
    let mut quit = false;
    handle_key_event(press(KeyCode::Down), &mut player, &mut quit);
    assert_eq!(player.speed(), 2_000);
}

#[test]
fn letter_keys_flip_the_toggles() {
    let (p, _) = handled(KeyCode::Char('n'), 0);
    assert!(p.noclip());
    let (mut p, _) = handled(KeyCode::Char('s'), 0);
    for _ in 0..12 {
        p.accelerate();
    }
    assert_eq!(p.speed(), 12_000);
    let (mut p, _) = handled(KeyCode::Char('u'), 0);
    p.take_damage(5);
    assert_eq!(p.health(), 10);
}

#[test]
fn quit_keys_raise_the_flag() {
    assert!(handled(KeyCode::Char('q'), 0).1);
    assert!(handled(KeyCode::Esc, 0).1);
    assert!(handled(KeyCode::Char('c'), CONTROL).1);
    assert_eq!(CONTROL, 2);
}

#[test]
fn plain_c_and_c_with_other_modifiers_do_nothing() {
    assert!(!handled(KeyCode::Char('c'), 0).1);
    assert!(!handled(KeyCode::Char('c'), 1).1);
    assert!(!handled(KeyCode::Char('c'), CONTROL | 1).1);
    assert!(!handled(KeyCode::Char('c'), 4).1);
}

#[test]
fn unbound_keys_change_nothing() {
    for code in [KeyCode::Other, KeyCode::Char('x'), KeyCode::Char('N'), KeyCode::Char('Q')] {
        let (p, quit) = handled(code, 0);
        let fresh = Player::default();
        assert!(!quit);
        assert_eq!(p.position(), fresh.position());
        assert_eq!(p.speed(), fresh.speed());
        assert_eq!(p.health(), fresh.health());
        assert_eq!(p.noclip(), fresh.noclip());
    }
}

#[test]
fn a_raised_quit_flag_stays_raised() {
    let mut player = Player::default();
    let mut quit = true;
    handle_key_event(press(KeyCode::Up), &mut player, &mut quit);
    assert!(quit);
    handle_key_event(press(KeyCode::Other), &mut player, &mut quit);
    assert!(quit);
}

#[test]
fn every_key_has_its_action() {
    assert_eq!(action_of(press(KeyCode::Left)), Action::TurnLeft);
    assert_eq!(action_of(press(KeyCode::Right)), Action::TurnRight);
    assert_eq!(action_of(press(KeyCode::Up)), Action::Accelerate);
    assert_eq!(action_of(press(KeyCode::Down)), Action::Decelerate);
    assert_eq!(action_of(press(KeyCode::Char('n'))), Action::ToggleNoclip);
    assert_eq!(action_of(press(KeyCode::Char('s'))), Action::ToggleSpeed);
    assert_eq!(action_of(press(KeyCode::Char('u'))), Action::ToggleInvincibility);
    assert_eq!(action_of(press(KeyCode::Char('q'))), Action::Quit);
    assert_eq!(action_of(press(KeyCode::Esc)), Action::Quit);
    assert_eq!(action_of(press(KeyCode::Char('c'))), Action::Nothing);
    assert_eq!(action_of(press(KeyCode::Other)), Action::Nothing);
}

#[test]
fn only_key_presses_count() {
    let key = press(KeyCode::Up);
    assert_eq!(key_press(Event::Key(key)), Some(key));
    let release = KeyEvent { kind: KeyEventKind::Release, ..key };
    assert_eq!(key_press(Event::Key(release)), None);
    let repeat = KeyEvent { kind: KeyEventKind::Repeat, ..key };
    assert_eq!(key_press(Event::Key(repeat)), None);
    assert_eq!(key_press(Event::Other), None);
}
