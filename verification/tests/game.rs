use gridchase::fixed::UNIT;
use gridchase::game::{find_free_cell, on_wall, Game, GameBuilder, InitError, Step};
use gridchase::input::{KeyCode, KeyEvent, KeyEventKind};
use gridchase::point::Point2d;
use gridchase::traits::Position;
use gridchase::ui::{Color, Command, Glyph};
use gridchase::unit::{Collectible, Enemy, Wall};

const TICK: u64 = 50_000_000;

fn ring(width: u16, height: u16) -> Vec<Wall> {
    let mut walls = Vec::new();
    for x in 0..width {
        walls.push(Wall::new(x, 0));
        walls.push(Wall::new(x, height - 1));
    }
    for y in 0..height {
        walls.push(Wall::new(0, y));
        walls.push(Wall::new(width - 1, y));
    }
    walls
}

fn cells(walls: &Vec<Wall>) -> Vec<(u16, u16)> {
    walls.iter().map(|w| Position::<u16>::position(w)).map(|p| (p.x, p.y)).collect()
}

fn facing(x: i64, y: i64, sector: i8) -> Point2d<i64> {
    let mut p = Point2d::new(x, y);
    for _ in 0..sector {
        p.update_direction(1);
    }
    p
}

fn enemy_at(x: i64, y: i64, speed: i32) -> Enemy {
    let mut e = Enemy::with_speed(speed);
    e.set_position(Point2d::new(x, y));
    e
}

fn press(code: KeyCode) -> Option<KeyEvent> {
    Some(KeyEvent { code, modifiers: 0, kind: KeyEventKind::Press })
}

fn arena() -> GameBuilder {
    Game::builder().width(10).height(10).walls(ring(10, 10)).enemies(vec![])
}

#[test]
fn a_new_game_has_the_default_configuration() {
    for game in [Game::new(), Game::default(), Game::builder().build(), GameBuilder::new().build()] {
        assert_eq!(game.score(), 0);
        assert!(!game.quit_requested());
        assert!(!game.is_over());
        assert_eq!(game.walls().len(), 0);
        assert_eq!(game.enemies().len(), 3);
        assert_eq!(game.player().health(), 10);
        assert_eq!(game.player().speed(), 0);
        assert_eq!(game.player().position(), Point2d::new(30 * UNIT, 15 * UNIT));
        assert_eq!(game.collectible().position(), Point2d::new(0u16, 0u16));
    }
}

#[test]
fn the_builder_hands_its_settings_to_the_game() {
    let game = Game::builder()
        .width(20)
        .height(12)
        .player_starting_health(3)
        .player_starting_speed(5_000)
        .player_starting_position(facing(4 * UNIT, 5 * UNIT, 2))
        .n_random_walls(7)
        .update_interval(70_000_000)
        .enemies(vec![enemy_at(UNIT, UNIT, 500)])
        .walls(vec![Wall::new(5, 5), Wall::new(6, 6)])
        .collectible(Collectible::new(9, 9))
        .build();
    assert_eq!(game.player().health(), 3);
    assert_eq!(game.player().speed(), 5_000);
    assert_eq!(game.player().position(), facing(4 * UNIT, 5 * UNIT, 2));
    assert_eq!(cells(game.walls()), vec![(5, 5), (6, 6)]);
    assert_eq!(game.enemies().len(), 1);
    assert_eq!(game.enemies()[0].position(), Point2d::new(UNIT, UNIT));
    assert_eq!(game.collectible().position(), Point2d::new(9u16, 9u16));
}

#[test]
fn the_default_game_waits_fifty_milliseconds_a_tick() {
    let mut game = Game::new();
    assert_eq!(game.advance(0, None), Step::Poll(50_000_000));
    let mut slow = Game::builder().update_interval(70_000_000).build();
    assert_eq!(slow.advance(0, None), Step::Poll(70_000_000));
}

#[test]
fn init_builds_the_ring_rows_first_then_columns() {
    let mut game = Game::builder().width(5).height(4).walls(vec![Wall::new(2, 2)]).build();
    assert_eq!(game.init(), Ok(()));
    assert_eq!(
        cells(game.walls()),
        vec![
            (2, 2),
            (0, 0),
            (0, 3),
            (1, 0),
            (1, 3),
            (2, 0),
            (2, 3),
            (3, 0),
            (3, 3),
            (4, 0),
            (4, 3),
            (0, 0),
            (4, 0),
            (0, 1),
            (4, 1),
            (0, 2),
            (4, 2),
            (0, 3),
            (4, 3),
        ]
    );
}

#[test]
fn init_scatters_walls_enemies_and_the_collectible_inside_the_ring() {
    for _ in 0..20 {
        let mut game = Game::builder().n_random_walls(30).height(40).build();
        assert_eq!(game.init(), Ok(()));
        let walls = cells(game.walls());
        assert_eq!(walls.len(), 2 * 80 + 2 * 40 + 30);
        for (x, y) in &walls[2 * 80 + 2 * 40..] {
            assert!((1..79).contains(x) && (1..39).contains(y));
        }
        assert_eq!(game.enemies().len(), 3);
        for enemy in game.enemies() {
            let at = enemy.position();
            assert!((UNIT..79 * UNIT).contains(&at.x) && (UNIT..39 * UNIT).contains(&at.y));
            assert_eq!(at.direction.sector, 0);
        }
        let c = game.collectible().position();
        assert!((1..79).contains(&c.x) && (1..39).contains(&c.y));
        assert!(!walls.contains(&(c.x, c.y)));
        assert!(!on_wall(game.walls(), c));
        assert_eq!(game.score(), 0);
        assert_eq!(game.player().health(), 10);
    }
}

#[test]
fn init_makes_the_terminal_ready() {
    let mut game = Game::new();
    assert_eq!(game.init(), Ok(()));
    assert_eq!(
        game.take_commands(),
        vec![
            Command::EnableRawMode,
            Command::SetBackgroundColor(Color::Black),
            Command::Clear,
            Command::Hide,
        ]
    );
    assert_eq!(game.take_commands(), vec![]);
}

#[test]
fn init_refuses_a_grid_without_an_inside() {
    for (width, height) in [(0, 0), (2, 10), (10, 2), (1, 1), (2, 2), (0, 48), (80, 0)] {
        let mut game = Game::builder().width(width).height(height).n_random_walls(4).build();
        assert_eq!(game.init(), Err(InitError::GridTooSmall));
        assert_eq!(game.walls().len(), 0);
        assert_eq!(game.take_commands(), vec![]);
        assert_eq!(game.enemies()[0].position(), Point2d::new(0i64, 0i64));
    }
}

#[test]
fn init_refuses_an_inside_that_is_all_walls() {
    let mut game = Game::builder().width(3).height(3).walls(vec![Wall::new(1, 1)]).build();
    assert_eq!(game.init(), Err(InitError::NoFreeCell));
    assert_eq!(game.walls().len(), 1 + 6 + 6);
    assert_eq!(game.take_commands(), vec![]);
    assert_eq!(game.collectible().position(), Point2d::new(0u16, 0u16));
    let mut full = Game::builder().width(3).height(3).n_random_walls(1).build();
    assert_eq!(full.init(), Err(InitError::NoFreeCell));
}

#[test]
fn init_accepts_the_smallest_grid_with_one_free_cell() {
    let mut game = Game::builder().width(3).height(3).build();
    assert_eq!(game.init(), Ok(()));
    assert_eq!(game.collectible().position(), Point2d::new(1u16, 1u16));
    for enemy in game.enemies() {
        let at = enemy.position();
        assert!((UNIT..2 * UNIT).contains(&at.x) && (UNIT..2 * UNIT).contains(&at.y));
    }
}

#[test]
fn a_wall_is_found_only_in_its_own_cell() {
    let walls = vec![Wall::new(1, 2), Wall::new(3, 4)];
    assert!(on_wall(&walls, Point2d::new(1u16, 2u16)));
    assert!(on_wall(&walls, Point2d::new(3u16, 4u16)));
    assert!(!on_wall(&walls, Point2d::new(2u16, 1u16)));
    assert!(!on_wall(&vec![], Point2d::new(0u16, 0u16)));
    let mut turned = Point2d::new(1u16, 2u16);
    turned.direction.sector = 3;
    assert!(!on_wall(&walls, turned));
}

#[test]
fn the_first_free_cell_goes_row_by_row() {
    assert_eq!(find_free_cell(&vec![], 5, 5), Some(Point2d::new(1u16, 1u16)));
    let walls = vec![Wall::new(1, 1), Wall::new(2, 1), Wall::new(3, 1), Wall::new(1, 2)];
    assert_eq!(find_free_cell(&walls, 5, 5), Some(Point2d::new(2u16, 2u16)));
    assert_eq!(find_free_cell(&walls, 5, 3), None);
    assert_eq!(find_free_cell(&vec![], 2, 9), None);
    assert_eq!(find_free_cell(&vec![], 9, 2), None);
}

#[test]
fn relocation_never_lands_on_a_wall() {
    let mut walls = ring(6, 5);
    for (x, y) in [(1, 1), (2, 1), (3, 1), (4, 1), (1, 2), (3, 2), (1, 3), (2, 3), (4, 3)] {
        walls.push(Wall::new(x, y));
    }
    let mut game = Game::builder().width(6).height(5).walls(walls).build();
    let mut seen = Vec::new();
    for _ in 0..300 {
        game.relocate();
        let c = game.collectible().position();
        assert!(!on_wall(game.walls(), c));
        assert!([(2, 2), (4, 2), (3, 3)].contains(&(c.x, c.y)));
        assert_eq!(c.direction.sector, 0);
        seen.push((c.x, c.y));
    }
    assert!(seen.contains(&(2, 2)) && seen.contains(&(4, 2)) && seen.contains(&(3, 3)));
}

#[test]
fn relocation_finds_the_single_free_cell_of_a_large_grid() {
    let mut walls = Vec::new();
    for x in 1..59 {
        for y in 1..59 {
            if (x, y) != (41, 17) {
                walls.push(Wall::new(x, y));
            }
        }
    }
    let mut game = Game::builder().width(60).height(60).walls(walls).build();
    game.relocate();
    assert_eq!(game.collectible().position(), Point2d::new(41u16, 17u16));
}

#[test]
fn relocation_without_room_leaves_the_collectible() {
    let mut game = Game::builder()
        .width(3)
        .height(3)
        .walls(vec![Wall::new(1, 1)])
        .collectible(Collectible::new(7, 7))
        .build();
    game.relocate();
    assert_eq!(game.collectible().position(), Point2d::new(7u16, 7u16));
    let mut small = Game::builder().width(2).height(2).collectible(Collectible::new(7, 7)).build();
    small.relocate();
    assert_eq!(small.collectible().position(), Point2d::new(7u16, 7u16));
}

#[test]
fn a_wall_ahead_stops_the_player() {
    let mut game = arena()
        .player_starting_position(facing(1_500_000_000_000, 2 * UNIT, 4))
        .player_starting_speed(10_000)
        .build();
    game.update();
    assert_eq!(game.player().position(), facing(1_500_000_000_000, 2 * UNIT, 4));
    assert_eq!(game.player().speed(), 10_000);
}

#[test]
fn no_clip_takes_the_player_through_the_wall() {
    let mut game = arena()
        .player_starting_position(facing(1_500_000_000_000, 2 * UNIT, 4))
        .player_starting_speed(10_000)
        .build();
    assert_eq!(game.advance(0, press(KeyCode::Char('n'))), Step::Poll(TICK));
    game.update();
    assert_eq!(game.player().position(), facing(500_000_000_000, 2 * UNIT, 4));
    game.update();
    assert_eq!(game.player().position(), facing(-500_000_000_000, 2 * UNIT, 4));
}

#[test]
fn a_free_cell_ahead_lets_the_player_step() {
    let mut game = arena()
        .player_starting_position(facing(1_500_000_000_000, 2 * UNIT, 0))
        .player_starting_speed(10_000)
        .build();
    game.update();
    assert_eq!(game.player().position(), facing(2_500_000_000_000, 2 * UNIT, 0));
}

#[test]
fn one_accelerate_and_one_tick() {
    let mut game = arena()
        .enemies(vec![enemy_at(5 * UNIT, 5 * UNIT, 5_000)])
        .player_starting_position(Point2d::new(2 * UNIT, 2 * UNIT))
        .build();
    assert_eq!(game.advance(0, press(KeyCode::Up)), Step::Poll(TICK));
    assert_eq!(game.player().speed(), 1_000);
    assert_eq!(game.player().position(), Point2d::new(2 * UNIT, 2 * UNIT));
    assert_eq!(game.advance(TICK + 1, None), Step::Render);
    assert_eq!(game.player().speed(), 1_000);
    assert_eq!(game.player().position(), Point2d::new(2_100_000_000_000i64, 2_000_000_000_000i64));
    let at = game.enemies()[0].position();
    assert_eq!((at.x, at.y), (4_652_488_951_577, 4_640_505_811_976));
    let unit = UNIT as f64;
    let (ex, ey) = (at.x as f64 / unit, at.y as f64 / unit);
    let length = (2.9f64 * 2.9 + 3.0 * 3.0).sqrt();
    assert!((ex - (5.0 - 0.5 * 2.9 / length)).abs() < 1e-9);
    assert!((ey - (5.0 - 0.5 * 3.0 / length)).abs() < 1e-9);
    let moved = ((ex - 5.0).powi(2) + (ey - 5.0).powi(2)).sqrt();
    assert!((moved - 0.5).abs() < 1e-9);
    let left = ((ex - 2.1).powi(2) + (ey - 2.0).powi(2)).sqrt();
    assert!((left - (length - 0.5)).abs() < 1e-9 * length.max(1.0));
    assert_eq!(game.score(), 0);
    assert_eq!(game.player().health(), 10);
    assert_eq!(game.collectible().position(), Point2d::new(0u16, 0u16));
}

#[test]
fn reaching_the_collectible_scores_and_moves_it() {
    for _ in 0..50 {
        let mut game = arena()
            .player_starting_position(Point2d::new(2 * UNIT, 2 * UNIT))
            .player_starting_speed(6_000)
            .collectible(Collectible::new(3, 2))
            .build();
        game.update();
        assert_eq!(game.score(), 1);
        assert_eq!(game.player().position(), Point2d::new(2_600_000_000_000i64, 2_000_000_000_000i64));
        let c = game.collectible().position();
        assert!((1..9).contains(&c.x) && (1..9).contains(&c.y));
        assert!(!on_wall(game.walls(), c));
    }
}

#[test]
fn the_collectible_is_taken_by_the_nearest_cell_not_the_cell_ahead() {
    let mut game = arena()
        .player_starting_position(Point2d::new(2 * UNIT, 2 * UNIT))
        .player_starting_speed(4_000)
        .collectible(Collectible::new(3, 2))
        .build();
    game.update();
    assert_eq!(game.score(), 0);
    assert_eq!(game.collectible().position(), Point2d::new(3u16, 2u16));
    game.update();
    assert_eq!(game.score(), 1);
}

#[test]
fn a_stopped_player_on_the_collectible_scores_every_tick() {
    let mut game = Game::builder()
        .width(3)
        .height(3)
        .walls(vec![Wall::new(1, 1)])
        .enemies(vec![])
        .player_starting_position(Point2d::new(UNIT, UNIT))
        .collectible(Collectible::new(1, 1))
        .build();
    game.update();
    game.update();
    assert_eq!(game.score(), 2);
    assert_eq!(game.collectible().position(), Point2d::new(1u16, 1u16));
}

#[test]
fn every_enemy_in_the_player_cell_deals_one_point() {
    let mut game = arena()
        .player_starting_position(Point2d::new(4 * UNIT, 4 * UNIT))
        .enemies(vec![
            enemy_at(4 * UNIT, 4 * UNIT, 5_000),
            enemy_at(4 * UNIT + 600_000_000_000, 4 * UNIT, 2_000),
            enemy_at(4 * UNIT + 700_000_000_000, 4 * UNIT, 1_000),
            enemy_at(7 * UNIT, 7 * UNIT, 5_000),
        ])
        .build();
    game.update();
    // the first stands on the player, the second comes within half a cell,
    // the third and fourth stay further away
    assert_eq!(game.enemies()[0].position(), Point2d::new(4 * UNIT, 4 * UNIT));
    assert_eq!(game.enemies()[1].position(), Point2d::new(4 * UNIT + 400_000_000_000, 4 * UNIT));
    assert_eq!(game.enemies()[2].position(), Point2d::new(4 * UNIT + 600_000_000_000, 4 * UNIT));
    assert_eq!(game.player().health(), 8);
    game.update();
    // the third now stands at four and a half cells, which is nearest to five
    assert_eq!(game.enemies()[2].position(), Point2d::new(4 * UNIT + 500_000_000_000, 4 * UNIT));
    assert_eq!(game.player().health(), 6);
    game.update();
    assert_eq!(game.player().health(), 3);
}

#[test]
fn damage_ends_at_zero_and_ends_the_game() {
    let mut game = arena()
        .player_starting_health(3)
        .player_starting_position(Point2d::new(4 * UNIT, 4 * UNIT))
        .enemies(vec![enemy_at(4 * UNIT, 4 * UNIT, 0), enemy_at(4 * UNIT, 4 * UNIT, 0)])
        .build();
    assert_eq!(game.advance(TICK + 1, None), Step::Render);
    assert_eq!(game.player().health(), 1);
    assert!(!game.is_over());
    game.take_commands();
    assert_eq!(game.advance(TICK + 1, None), Step::Finish);
    assert_eq!(game.player().health(), 0);
    assert!(game.is_over());
    let commands = game.take_commands();
    assert_eq!(commands[0], Command::Clear);
    assert_eq!(
        &commands[commands.len() - 5..],
        &[
            Command::ResetColor,
            Command::Clear,
            Command::MoveTo(0, 0),
            Command::Show,
            Command::DisableRawMode,
        ]
    );
}

#[test]
fn an_invincible_player_takes_no_damage() {
    let mut game = arena()
        .player_starting_position(Point2d::new(4 * UNIT, 4 * UNIT))
        .enemies(vec![enemy_at(4 * UNIT, 4 * UNIT, 0)])
        .build();
    game.advance(0, press(KeyCode::Char('u')));
    game.update();
    game.update();
    assert_eq!(game.player().health(), 10);
    game.advance(0, press(KeyCode::Char('u')));
    game.update();
    assert_eq!(game.player().health(), 9);
}

#[test]
fn enemies_chase_the_place_the_player_has_just_reached() {
    let mut game = arena()
        .player_starting_position(Point2d::new(2 * UNIT, 2 * UNIT))
        .player_starting_speed(10_000)
        .enemies(vec![enemy_at(3 * UNIT, 6 * UNIT, 10_000)])
        .build();
    game.update();
    assert_eq!(game.player().position(), Point2d::new(3 * UNIT, 2 * UNIT));
    assert_eq!(game.enemies()[0].position(), Point2d::new(3 * UNIT, 5 * UNIT));
}

#[test]
fn the_tick_lasts_until_the_interval_has_passed() {
    let mut game = arena().player_starting_speed(1_000).build();
    let start = game.player().position();
    assert_eq!(game.advance(0, None), Step::Poll(TICK));
    assert_eq!(game.advance(20_000_000, None), Step::Poll(30_000_000));
    assert_eq!(game.advance(TICK, None), Step::Poll(0));
    assert_eq!(game.player().position(), start);
    assert_eq!(game.take_commands(), vec![]);
    assert_eq!(game.advance(TICK + 1, None), Step::Render);
    assert_ne!(game.player().position(), start);
    assert_eq!(game.advance(u64::MAX, None), Step::Render);
}

#[test]
fn a_key_is_dealt_with_before_the_time_is_looked_at() {
    let mut game = arena().player_starting_position(Point2d::new(2 * UNIT, 2 * UNIT)).build();
    assert_eq!(game.advance(TICK + 1, press(KeyCode::Up)), Step::Render);
    assert_eq!(game.player().speed(), 1_000);
    assert_eq!(game.player().position(), Point2d::new(2_100_000_000_000i64, 2 * UNIT));
}

#[test]
fn quitting_ends_the_game_after_the_tick_is_played() {
    let mut game = arena()
        .player_starting_position(Point2d::new(2 * UNIT, 2 * UNIT))
        .player_starting_speed(1_000)
        .build();
    assert_eq!(game.advance(10, press(KeyCode::Char('q'))), Step::Poll(TICK - 10));
    assert!(game.quit_requested());
    assert!(game.is_over());
    assert_eq!(game.advance(20, press(KeyCode::Up)), Step::Poll(TICK - 20));
    assert_eq!(game.advance(TICK + 1, None), Step::Finish);
    assert_eq!(game.player().position(), Point2d::new(2_200_000_000_000i64, 2 * UNIT));
    let commands = game.take_commands();
    assert_eq!(commands[commands.len() - 1], Command::DisableRawMode);
}

#[test]
fn start_lets_a_living_player_play() {
    let mut game = arena().build();
    assert_eq!(game.start(), Step::Render);
    assert_eq!(game.take_commands(), vec![]);
}

#[test]
fn start_ends_a_game_that_is_already_over() {
    let mut game = arena().player_starting_health(0).build();
    assert!(game.is_over());
    assert_eq!(game.start(), Step::Finish);
    assert_eq!(
        game.take_commands(),
        vec![
            Command::ResetColor,
            Command::Clear,
            Command::MoveTo(0, 0),
            Command::Show,
            Command::DisableRawMode,
        ]
    );
}

#[test]
fn the_frame_shows_walls_player_enemies_and_collectible_in_that_order() {
    let mut game = Game::builder()
        .walls(vec![Wall::new(1, 2), Wall::new(3, 4)])
        .enemies(vec![enemy_at(5 * UNIT + 500_000_000_000, 6 * UNIT, 0), enemy_at(-UNIT, 0, 0)])
        .player_starting_health(2)
        .player_starting_position(Point2d::new(7 * UNIT + 499_999_999_999, 8 * UNIT))
        .collectible(Collectible::new(9, 10))
        .build();
    game.draw();
    assert_eq!(
        game.take_commands(),
        vec![
            Command::Clear,
            Command::MoveTo(1, 2),
            Command::Print(Glyph::Wall),
            Command::MoveTo(3, 4),
            Command::Print(Glyph::Wall),
            Command::MoveTo(7, 8),
            Command::Print(Glyph::Player('😱')),
            Command::MoveTo(6, 6),
            Command::Print(Glyph::Enemy),
            Command::MoveTo(0, 0),
            Command::Print(Glyph::Enemy),
            Command::MoveTo(9, 10),
            Command::Print(Glyph::Collectible),
            Command::MoveTo(0, 50),
            Command::Print(Glyph::Hud { score: 0, health: 2, speed: 0 }),
        ]
    );
}

#[test]
fn the_status_line_stays_on_the_screen_of_the_tallest_grid() {
    for (height, row) in [(0u16, 2u16), (65_533, 65_535), (65_534, 65_535), (65_535, 65_535)] {
        let mut game = Game::builder().height(height).enemies(vec![]).build();
        game.draw();
        let commands = game.take_commands();
        assert_eq!(commands[commands.len() - 2], Command::MoveTo(0, row));
    }
}

#[test]
fn a_full_game_runs_to_its_end() {
    let mut game = Game::builder()
        .width(12)
        .height(12)
        .n_random_walls(5)
        .player_starting_health(2)
        .player_starting_position(Point2d::new(6 * UNIT, 6 * UNIT))
        .enemies(vec![Enemy::with_speed(9_000), Enemy::with_speed(7_000)])
        .build();
    assert_eq!(game.init(), Ok(()));
    assert_eq!(game.start(), Step::Render);
    let mut ticks = 0;
    loop {
        let c = game.collectible().position();
        assert!(!on_wall(game.walls(), c));
        match game.advance(TICK + 1, None) {
            Step::Render => ticks += 1,
            Step::Finish => break,
            Step::Poll(_) => unreachable!(),
        }
        assert!(ticks < 1_000);
    }
    assert_eq!(game.player().health(), 0);
    assert!(!game.player().is_alive());
}
