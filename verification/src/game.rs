//! The game itself: how it is set up, what one tick does, and how it is
//! driven from one report of the outside world to the next.

use crate::fixed::UNIT;
use crate::ui::prepare_commands;
use crate::unit::enemy::pursued;
use crate::hud::Hud;
use crate::input::{acted, binding, handle_key_event, Action, KeyEvent};
use crate::ui::draw::{drawn, expression};
use crate::ui::{restore_commands, Glyph};
use crate::point::Point2d;
use crate::random::thread_rng;
use crate::traits::Position;
use crate::ui::draw::Draw;
use crate::ui::{Command, UI};
use crate::unit::enemy::EnemyView;
use crate::unit::player::{PlayerBuilderView, PlayerView};
use crate::unit::{Collectible, Enemy, Player, PlayerBuilder, Wall};
use rand::rngs::ThreadRng;
use vstd::prelude::*;

verus! {

/// How many random draws a relocation makes before it searches the grid
/// cell by cell.
pub const DRAWS: u32 = 1_000;

/// The cells that a list of walls fills, in the order of the list.
pub open spec fn wall_cells(walls: Seq<Wall>) -> Seq<Point2d<u16>> {
    walls.map_values(|w: Wall| w@)
}

/// What a list of enemies is, as plain values.
pub open spec fn enemy_views(enemies: Seq<Enemy>) -> Seq<EnemyView> {
    enemies.map_values(|e: Enemy| e@)
}

/// Whether `cell` lies inside the outermost ring of a grid of the given
/// size, and faces sector 0 as every cell does.
pub open spec fn interior(width: u16, height: u16, cell: Point2d<u16>) -> bool {
    &&& 1 <= cell.x < width - 1
    &&& 1 <= cell.y < height - 1
    &&& cell == Point2d::<u16>::at(cell.x, cell.y)
}

/// Whether some cell inside the outermost ring is free of walls.
pub open spec fn has_room(width: u16, height: u16, walls: Seq<Point2d<u16>>) -> bool {
    exists|cell: Point2d<u16>| interior(width, height, cell) && !walls.contains(cell)
}

/// The walls of the top and bottom rows in the first `n` columns, column by
/// column, top before bottom.
pub open spec fn rows(height: u16, n: int) -> Seq<Point2d<u16>> {
    Seq::new(
        (2 * n) as nat,
        |i: int|
            if i % 2 == 0 {
                Point2d::<u16>::at((i / 2) as u16, 0)
            } else {
                Point2d::<u16>::at((i / 2) as u16, (height - 1) as u16)
            },
    )
}

/// The walls of the left and right columns in the first `n` rows, row by
/// row, left before right.
pub open spec fn columns(width: u16, n: int) -> Seq<Point2d<u16>> {
    Seq::new(
        (2 * n) as nat,
        |i: int|
            if i % 2 == 0 {
                Point2d::<u16>::at(0, (i / 2) as u16)
            } else {
                Point2d::<u16>::at((width - 1) as u16, (i / 2) as u16)
            },
    )
}

/// The ring of walls around a grid: its rows, then its columns. The four
/// corners occur twice.
pub open spec fn ring(width: u16, height: u16) -> Seq<Point2d<u16>> {
    rows(height, width as int) + columns(width, height as int)
}

/// Whether `enemy` is `before` put somewhere inside the outermost ring of
/// the grid, facing sector 0.
pub open spec fn scattered(width: u16, height: u16, enemy: EnemyView, before: EnemyView) -> bool {
    &&& enemy.speed == before.speed
    &&& enemy.position == Point2d::<i64>::at(enemy.position.x, enemy.position.y)
    &&& 1_000_000_000_000 <= enemy.position.x < (width - 1) * 1_000_000_000_000
    &&& 1_000_000_000_000 <= enemy.position.y < (height - 1) * 1_000_000_000_000
}

/// How many of `enemies` stand nearest to the cell that `spot` stands
/// nearest to.
pub open spec fn hits(enemies: Seq<EnemyView>, spot: Point2d<i64>) -> nat
    decreases enemies.len(),
{
    if enemies.len() == 0 {
        0
    } else {
        hits(enemies.drop_last(), spot) + if enemies.last().position.rounded() == spot.rounded() {
            1nat
        } else {
            0nat
        }
    }
}

/// The health left after `hits` blows of one point each.
pub open spec fn damaged(health: u8, invincibility: bool, hits: nat) -> u8 {
    if invincibility {
        health
    } else if health >= hits {
        (health - hits) as u8
    } else {
        0
    }
}

/// The instructions that show a list of walls, in the order of the list.
pub open spec fn walls_drawn(walls: Seq<Point2d<u16>>) -> Seq<Command>
    decreases walls.len(),
{
    if walls.len() == 0 {
        Seq::empty()
    } else {
        walls_drawn(walls.drop_last()) + drawn(walls.last().x, walls.last().y, Glyph::Wall)
    }
}

/// The instructions that show a list of enemies, in the order of the list.
pub open spec fn enemies_drawn(enemies: Seq<EnemyView>) -> Seq<Command>
    decreases enemies.len(),
{
    if enemies.len() == 0 {
        Seq::empty()
    } else {
        enemies_drawn(enemies.drop_last()) + drawn(
            enemies.last().position.x,
            enemies.last().position.y,
            Glyph::Enemy,
        )
    }
}

/// The row of the status line: the second row below the grid, or the last
/// row there is.
pub open spec fn hud_row(height: u16) -> u16 {
    if height + 2 > u16::MAX {
        u16::MAX
    } else {
        (height + 2) as u16
    }
}

/// What the driver of the game is to do next.
#[derive(Clone, Copy, Debug, PartialEq, Eq, Structural)]
pub enum Step {
    /// Wait for a key for at most this many nanoseconds, then report back
    /// with the key, if one came, and the time since the tick began.
    Poll(u64),
    /// A tick is over: carry out the instructions that wait, start the
    /// clock of the next tick and report back at once.
    Render,
    /// The game is over: carry out the instructions that wait and stop.
    Finish,
}

/// Why a game could not be set up.
#[derive(Clone, Copy, Debug, PartialEq, Eq, Structural)]
pub enum InitError {
    /// The grid is less than three cells wide or high, so that its ring of
    /// walls leaves nothing inside.
    GridTooSmall,
    /// Walls fill every cell inside the ring.
    NoFreeCell,
}

/// Whether a wall of `walls` fills `cell`.
pub fn on_wall(walls: &Vec<Wall>, cell: Point2d<u16>) -> (hit: bool)
    ensures
        hit == wall_cells(walls@).contains(cell),
{
    let mut i: usize = 0;
    while i < walls.len()
        invariant
            0 <= i <= walls.len(),
            forall|j: int| 0 <= j < i ==> wall_cells(walls@)[j] != cell,
        decreases walls.len() - i,
    {
        let filled: Point2d<u16> = Position::<u16>::position(&walls[i]);
        if filled == cell {
            assert(wall_cells(walls@)[i as int] == cell);
            return true;
        }
        i += 1;
    }
    false
}

/// The first cell inside the outermost ring that no wall fills, going row
/// by row, or nothing if there is no such cell.
pub fn find_free_cell(walls: &Vec<Wall>, width: u16, height: u16) -> (found: Option<Point2d<u16>>)
    ensures
        match found {
            Some(cell) => {
                &&& interior(width, height, cell)
                &&& !wall_cells(walls@).contains(cell)
                &&& forall|other: Point2d<u16>|
                    interior(width, height, other) && (other.y < cell.y || (other.y == cell.y
                        && other.x < cell.x)) ==> #[trigger] wall_cells(walls@).contains(other)
            },
            None => !has_room(width, height, wall_cells(walls@)),
        },
{
    if width < 3 || height < 3 {
        return None;
    }
    let mut y: u16 = 1;
    while y < height - 1
        invariant
            width >= 3,
            height >= 3,
            1 <= y <= height - 1,
            forall|cell: Point2d<u16>|
                interior(width, height, cell) && cell.y < y ==> #[trigger] wall_cells(
                    walls@,
                ).contains(cell),
        decreases height - y,
    {
        let mut x: u16 = 1;
        while x < width - 1
            invariant
                width >= 3,
                height >= 3,
                1 <= y < height - 1,
                1 <= x <= width - 1,
                forall|cell: Point2d<u16>|
                    interior(width, height, cell) && cell.y < y ==> #[trigger] wall_cells(
                        walls@,
                    ).contains(cell),
                forall|cell: Point2d<u16>|
                    interior(width, height, cell) && cell.y == y && cell.x < x
                        ==> #[trigger] wall_cells(walls@).contains(cell),
            decreases width - x,
        {
            let cell = Point2d::new(x, y);
            if !on_wall(walls, cell) {
                return Some(cell);
            }
            x += 1;
        }
        y += 1;
    }
    None
}

/// What a game is, as plain values.
pub struct GameView {
    pub height: u16,
    pub width: u16,
    pub score: u32,
    pub enemies: Seq<EnemyView>,
    pub n_random_walls: u16,
    pub walls: Seq<Point2d<u16>>,
    pub collectible: Point2d<u16>,
    pub player: PlayerView,
    pub pending: Seq<Command>,
    pub update_interval: u64,
    pub quit: bool,
}

impl GameView {
    /// Whether `self` is `before` with the ring and the random walls
    /// added: the walls it had, then the ring, then `n_random_walls` walls
    /// inside the ring.
    pub open spec fn walled_from(self, before: GameView) -> bool {
        let base = before.walls.len() + 2 * before.width + 2 * before.height;
        &&& self.walls.len() == base + before.n_random_walls
        &&& self.walls.subrange(0, base) == before.walls + ring(before.width, before.height)
        &&& forall|i: int|
            base <= i < self.walls.len() ==> interior(
                before.width,
                before.height,
                #[trigger] self.walls[i],
            )
    }

    /// Whether `self` is `before` set up for play: walled, with every
    /// enemy scattered, the collectible on a free cell inside the ring,
    /// and the terminal about to be made ready.
    pub open spec fn started_from(self, before: GameView) -> bool {
        &&& self.walled_from(before)
        &&& self.enemies.len() == before.enemies.len()
        &&& forall|i: int|
            0 <= i < self.enemies.len() ==> scattered(
                before.width,
                before.height,
                #[trigger] self.enemies[i],
                before.enemies[i],
            )
        &&& interior(before.width, before.height, self.collectible)
        &&& !self.walls.contains(self.collectible)
        &&& self.pending == before.pending + prepare_commands()
        &&& self == (GameView {
            walls: self.walls,
            enemies: self.enemies,
            collectible: self.collectible,
            pending: self.pending,
            ..before
        })
    }

    /// The instructions that show the game: the screen is cleared, then
    /// come the walls, the player, the enemies, the collectible and the
    /// status line.
    pub open spec fn frame(self) -> Seq<Command> {
        seq![Command::Clear] + walls_drawn(self.walls) + drawn(
            self.player.position.x,
            self.player.position.y,
            Glyph::Player(expression(self.player.health)),
        ) + enemies_drawn(self.enemies) + drawn(
            self.collectible.x,
            self.collectible.y,
            Glyph::Collectible,
        ) + drawn(
            0u16,
            hud_row(self.height),
            Glyph::Hud {
                score: self.score,
                health: self.player.health,
                speed: self.player.speed,
            },
        )
    }

    /// Whether the game has ended: the player is dead or a key has asked
    /// for the end.
    pub open spec fn over(self) -> bool {
        self.player.health == 0 || self.quit
    }

    /// The game after a key, if one came.
    pub open spec fn keyed(self, key: Option<KeyEvent>) -> GameView {
        match key {
            Some(k) => GameView {
                player: acted(self.player, binding(k)),
                quit: self.quit || binding(k) == Action::Quit,
                ..self
            },
            None => self,
        }
    }

    /// Whether `self` and `step` are what `before` comes to when the
    /// driver reports `key` at `elapsed` nanoseconds into the tick. While
    /// the tick lasts, only the key is dealt with. Once it is over, the
    /// game is played one tick on and shown, and it goes on unless it has
    /// ended, in which case the terminal is given back.
    pub open spec fn advanced_from(
        self,
        before: GameView,
        elapsed: u64,
        key: Option<KeyEvent>,
        step: Step,
    ) -> bool {
        let keyed = before.keyed(key);
        if elapsed <= keyed.update_interval {
            &&& step == Step::Poll((keyed.update_interval - elapsed) as u64)
            &&& self == keyed
        } else {
            let ticked = GameView { pending: keyed.pending, ..self };
            &&& ticked.updated_from(keyed)
            &&& if ticked.over() {
                &&& step == Step::Finish
                &&& self.pending == keyed.pending + ticked.frame() + restore_commands()
            } else {
                &&& step == Step::Render
                &&& self.pending == keyed.pending + ticked.frame()
            }
        }
    }

    /// Whether a wall stops the player's next step.
    pub open spec fn blocked(self) -> bool {
        &&& !self.player.noclip
        &&& self.walls.contains(self.player.position.moved(self.player.speed as int).cell())
    }

    /// Where the player stands after its step.
    pub open spec fn stepped(self) -> Point2d<i64> {
        if self.blocked() {
            self.player.position
        } else {
            self.player.position.moved(self.player.speed as int)
        }
    }

    /// Whether the player's step takes it to the collectible.
    pub open spec fn collects(self) -> bool {
        self.stepped().rounded().cell() == self.collectible
    }

    /// Whether `self` is `before` one tick later.
    pub open spec fn updated_from(self, before: GameView) -> bool {
        let spot = before.stepped();
        &&& self.player == (PlayerView {
            position: spot,
            health: damaged(
                before.player.health,
                before.player.invincibility,
                hits(self.enemies, spot),
            ),
            ..before.player
        })
        &&& self.enemies.len() == before.enemies.len()
        &&& forall|i: int|
            0 <= i < self.enemies.len() ==> #[trigger] self.enemies[i] == (EnemyView {
                position: pursued(
                    before.enemies[i].position,
                    before.enemies[i].speed as int,
                    spot,
                ),
                ..before.enemies[i]
            })
        &&& if before.collects() {
            &&& self.score == if before.score < u32::MAX {
                (before.score + 1) as u32
            } else {
                before.score
            }
            &&& if has_room(before.width, before.height, before.walls) {
                &&& interior(before.width, before.height, self.collectible)
                &&& !self.walls.contains(self.collectible)
            } else {
                self.collectible == before.collectible
            }
        } else {
            &&& self.score == before.score
            &&& self.collectible == before.collectible
        }
        &&& self == (GameView {
            player: self.player,
            enemies: self.enemies,
            score: self.score,
            collectible: self.collectible,
            ..before
        })
    }
}

/// A collectible that lies off the walls still does after a tick, as long
/// as some cell inside the ring is free.
pub proof fn lemma_collectible_stays_free(before: GameView, after: GameView)
    requires
        after.updated_from(before),
        has_room(before.width, before.height, before.walls),
        !before.walls.contains(before.collectible),
    ensures
        !after.walls.contains(after.collectible),
{
}

/// A wall ahead stops a player without no-clip where it stands; with
/// no-clip, and wherever no wall is ahead, the player takes its step.
pub proof fn lemma_collision_gating(before: GameView, after: GameView)
    requires
        after.updated_from(before),
    ensures
        ({
            let player = before.player;
            let ahead = player.position.moved(player.speed as int);
            if before.walls.contains(ahead.cell()) && !player.noclip {
                after.player.position == player.position
            } else {
                after.player.position == ahead
            }
        }),
{
}

/// The game: the grid, all that is on it, the score, and the terminal
/// instructions that wait to be carried out.
pub struct Game {
    height: u16,
    width: u16,
    score: u32,
    enemies: Vec<Enemy>,
    n_random_walls: u16,
    walls: Vec<Wall>,
    collectible: Collectible,
    player: Player,
    ui: UI,
    rng: ThreadRng,
    update_interval: u64,
    quit: bool,
}

impl View for Game {
    type V = GameView;

    closed spec fn view(&self) -> GameView {
        GameView {
            height: self.height,
            width: self.width,
            score: self.score,
            enemies: enemy_views(self.enemies@),
            n_random_walls: self.n_random_walls,
            walls: wall_cells(self.walls@),
            collectible: self.collectible@,
            player: self.player@,
            pending: self.ui@,
            update_interval: self.update_interval,
            quit: self.quit,
        }
    }
}

/// What a game under construction is, as plain values.
pub struct GameBuilderView {
    pub height: u16,
    pub width: u16,
    pub n_random_walls: u16,
    pub update_interval: u64,
    pub player: PlayerBuilderView,
    pub collectible: Point2d<u16>,
    pub enemies: Seq<EnemyView>,
    pub walls: Seq<Point2d<u16>>,
}

impl GameBuilderView {
    /// The game this builder stands for.
    pub open spec fn built(self) -> GameView {
        GameView {
            height: self.height,
            width: self.width,
            score: 0,
            enemies: self.enemies,
            n_random_walls: self.n_random_walls,
            walls: self.walls,
            collectible: self.collectible,
            player: self.player.built(),
            pending: Seq::empty(),
            update_interval: self.update_interval,
            quit: false,
        }
    }
}

/// The settings a game is made from.
pub struct GameBuilder {
    height: u16,
    width: u16,
    n_random_walls: u16,
    update_interval: u64,
    player_builder: PlayerBuilder,
    collectible: Collectible,
    enemies: Vec<Enemy>,
    walls: Vec<Wall>,
}

impl View for GameBuilder {
    type V = GameBuilderView;

    closed spec fn view(&self) -> GameBuilderView {
        GameBuilderView {
            height: self.height,
            width: self.width,
            n_random_walls: self.n_random_walls,
            update_interval: self.update_interval,
            player: self.player_builder@,
            collectible: self.collectible@,
            enemies: enemy_views(self.enemies@),
            walls: wall_cells(self.walls@),
        }
    }
}

impl GameBuilder {
    /// The builder every construction starts from: a grid 80 wide and 48
    /// high without walls, a tick of fifty milliseconds, the initial
    /// player, the collectible in cell `(0, 0)`, and three enemies in cell
    /// `(0, 0)` with speeds of six, five and four tenths.
    pub open spec fn initial() -> GameBuilderView {
        GameBuilderView {
            height: 48,
            width: 80,
            n_random_walls: 0,
            update_interval: 50_000_000,
            player: PlayerBuilder::initial(),
            collectible: Point2d::<u16>::at(0, 0),
            enemies: seq![
                EnemyView { position: Point2d::<i64>::at(0, 0), speed: 6_000 },
                EnemyView { position: Point2d::<i64>::at(0, 0), speed: 5_000 },
                EnemyView { position: Point2d::<i64>::at(0, 0), speed: 4_000 },
            ],
            walls: Seq::empty(),
        }
    }

    /// The builder with the default settings.
    pub fn new() -> (b: Self)
        ensures
            b@ == Self::initial(),
    {
        let mut enemies: Vec<Enemy> = Vec::new();
        enemies.push(Enemy::with_speed(6_000));
        enemies.push(Enemy::with_speed(5_000));
        enemies.push(Enemy::with_speed(4_000));
        let b = Self {
            height: 48,
            width: 80,
            player_builder: PlayerBuilder::new(),
            collectible: Collectible::default(),
            n_random_walls: 0,
            update_interval: 50_000_000,
            enemies,
            walls: Vec::new(),
        };
        assert(b@.enemies =~= Self::initial().enemies);
        assert(b@.walls =~= Self::initial().walls);
        b
    }

    /// Sets the width of the grid, in cells.
    pub fn width(self, width: u16) -> (b: Self)
        ensures
            b@ == (GameBuilderView { width, ..self@ }),
    {
        let mut builder = self;
        builder.width = width;
        builder
    }

    /// Sets the height of the grid, in cells.
    pub fn height(self, height: u16) -> (b: Self)
        ensures
            b@ == (GameBuilderView { height, ..self@ }),
    {
        let mut builder = self;
        builder.height = height;
        builder
    }

    /// Sets the health the player starts with.
    pub fn player_starting_health(self, health: u8) -> (b: Self)
        ensures
            b@ == (GameBuilderView {
                player: PlayerBuilderView { health, ..self@.player },
                ..self@
            }),
    {
        let mut builder = self;
        builder.player_builder = builder.player_builder.health(health);
        builder
    }

    /// Sets the speed the player starts with, in ten-thousandths of a cell
    /// a tick.
    pub fn player_starting_speed(self, speed: i32) -> (b: Self)
        ensures
            b@ == (GameBuilderView {
                player: PlayerBuilderView { speed, ..self@.player },
                ..self@
            }),
    {
        let mut builder = self;
        builder.player_builder = builder.player_builder.speed(speed);
        builder
    }

    /// Sets where the player starts and which way it faces.
    pub fn player_starting_position(self, position: Point2d<i64>) -> (b: Self)
        ensures
            b@ == (GameBuilderView {
                player: PlayerBuilderView { position: position.clamped(), ..self@.player },
                ..self@
            }),
    {
        let mut builder = self;
        builder.player_builder = builder.player_builder.position(position);
        builder
    }

    /// Sets how many walls are scattered inside the ring when the game is
    /// set up.
    pub fn n_random_walls(self, n_random_walls: u16) -> (b: Self)
        ensures
            b@ == (GameBuilderView { n_random_walls, ..self@ }),
    {
        let mut builder = self;
        builder.n_random_walls = n_random_walls;
        builder
    }

    /// Sets the length of a tick, in nanoseconds.
    pub fn update_interval(self, update_interval: u64) -> (b: Self)
        ensures
            b@ == (GameBuilderView { update_interval, ..self@ }),
    {
        let mut builder = self;
        builder.update_interval = update_interval;
        builder
    }

    /// Sets the enemies. Each keeps the speed it was made with.
    pub fn enemies(self, enemies: Vec<Enemy>) -> (b: Self)
        ensures
            b@ == (GameBuilderView { enemies: enemy_views(enemies@), ..self@ }),
    {
        let mut builder = self;
        builder.enemies = enemies;
        builder
    }

    /// Sets the walls that stand before the game is set up.
    pub fn walls(self, walls: Vec<Wall>) -> (b: Self)
        ensures
            b@ == (GameBuilderView { walls: wall_cells(walls@), ..self@ }),
    {
        let mut builder = self;
        builder.walls = walls;
        builder
    }

    /// Sets where the collectible lies at the start.
    pub fn collectible(self, collectible: Collectible) -> (b: Self)
        ensures
            b@ == (GameBuilderView { collectible: collectible@, ..self@ }),
    {
        let mut builder = self;
        builder.collectible = collectible;
        builder
    }

    /// The game with these settings, not yet set up: no score, no key
    /// pressed, nothing waiting for the terminal.
    pub fn build(self) -> (g: Game)
        ensures
            g@ == self@.built(),
    {
        Game {
            height: self.height,
            width: self.width,
            n_random_walls: self.n_random_walls,
            update_interval: self.update_interval,
            enemies: self.enemies,
            walls: self.walls,
            collectible: self.collectible,
            player: self.player_builder.build(),
            ui: UI::new(),
            rng: thread_rng(),
            score: 0,
            quit: false,
        }
    }
}

impl Game {
    /// The game with the default settings.
    pub fn new() -> (g: Self)
        ensures
            g@ == GameBuilder::initial().built(),
    {
        Self::builder().build()
    }

    /// The builder with the default settings.
    pub fn builder() -> (b: GameBuilder)
        ensures
            b@ == GameBuilder::initial(),
    {
        GameBuilder::new()
    }

    /// How many times the collectible has been picked up.
    pub fn score(&self) -> (score: u32)
        ensures
            score == self@.score,
    {
        self.score
    }

    /// The player.
    pub fn player(&self) -> (player: &Player)
        ensures
            player@ == self@.player,
    {
        &self.player
    }

    /// The enemies.
    pub fn enemies(&self) -> (enemies: &Vec<Enemy>)
        ensures
            enemy_views(enemies@) == self@.enemies,
    {
        &self.enemies
    }

    /// The walls.
    pub fn walls(&self) -> (walls: &Vec<Wall>)
        ensures
            wall_cells(walls@) == self@.walls,
    {
        &self.walls
    }

    /// The collectible.
    pub fn collectible(&self) -> (collectible: &Collectible)
        ensures
            collectible@ == self@.collectible,
    {
        &self.collectible
    }

    /// Whether a key has asked for the game to end.
    pub fn quit_requested(&self) -> (quit: bool)
        ensures
            quit == self@.quit,
    {
        self.quit
    }

    /// Sets the game up for play: builds the ring of walls, scatters the
    /// random walls and the enemies inside it, puts the collectible on a
    /// free cell and queues the instructions that make the terminal ready.
    /// A grid too small to have an inside is refused untouched; one whose
    /// inside the walls fill is refused with its walls in place.
    pub fn init(&mut self) -> (r: Result<(), InitError>)
        ensures
            match r {
                Ok(_) => {
                    &&& old(self)@.width >= 3
                    &&& old(self)@.height >= 3
                    &&& final(self)@.started_from(old(self)@)
                },
                Err(InitError::GridTooSmall) => {
                    &&& old(self)@.width < 3 || old(self)@.height < 3
                    &&& final(self)@ == old(self)@
                },
                Err(InitError::NoFreeCell) => {
                    &&& old(self)@.width >= 3
                    &&& old(self)@.height >= 3
                    &&& final(self)@.walled_from(old(self)@)
                    &&& !has_room(old(self)@.width, old(self)@.height, final(self)@.walls)
                    &&& final(self)@ == (GameView { walls: final(self)@.walls, ..old(self)@ })
                },
            },
    {
        if self.width < 3 || self.height < 3 {
            return Err(InitError::GridTooSmall);
        }
        let ghost before = self@;
        let mut x: u16 = 0;
        while x < self.width
            invariant
                0 <= x <= self.width,
                self.height >= 3,
                self@ == (GameView { walls: self@.walls, ..before }),
                self@.walls =~= before.walls + rows(before.height, x as int),
            decreases self.width - x,
        {
            let ghost cells = wall_cells(self.walls@);
            self.walls.push(Wall::new(x, 0));
            self.walls.push(Wall::new(x, self.height - 1));
            proof {
                assert(wall_cells(self.walls@) =~= cells.push(Point2d::<u16>::at(x, 0)).push(
                    Point2d::<u16>::at(x, (self.height - 1) as u16),
                ));
            }
            x += 1;
        }
        let mut y: u16 = 0;
        while y < self.height
            invariant
                0 <= y <= self.height,
                self.width >= 3,
                self@ == (GameView { walls: self@.walls, ..before }),
                self@.walls =~= before.walls + rows(before.height, before.width as int) + columns(
                    before.width,
                    y as int,
                ),
            decreases self.height - y,
        {
            let ghost cells = wall_cells(self.walls@);
            self.walls.push(Wall::new(0, y));
            self.walls.push(Wall::new(self.width - 1, y));
            proof {
                assert(wall_cells(self.walls@) =~= cells.push(Point2d::<u16>::at(0, y)).push(
                    Point2d::<u16>::at((self.width - 1) as u16, y),
                ));
            }
            y += 1;
        }
        let ghost base = before.walls.len() + 2 * before.width + 2 * before.height;
        let mut n: u16 = 0;
        while n < self.n_random_walls
            invariant
                0 <= n <= self.n_random_walls,
                self.width >= 3,
                self.height >= 3,
                self@ == (GameView { walls: self@.walls, ..before }),
                self@.walls.len() == base + n,
                base == before.walls.len() + 2 * before.width + 2 * before.height,
                forall|i: int|
                    0 <= i < base ==> #[trigger] self@.walls[i] == (before.walls + ring(
                        before.width,
                        before.height,
                    ))[i],
                forall|i: int|
                    base <= i < self@.walls.len() ==> interior(
                        before.width,
                        before.height,
                        #[trigger] self@.walls[i],
                    ),
            decreases self.n_random_walls - n,
        {
            let ghost cells = wall_cells(self.walls@);
            let mut wall = Wall::default();
            Position::<u16>::set_rand_position(
                &mut wall,
                &mut self.rng,
                1..self.width - 1,
                1..self.height - 1,
            );
            self.walls.push(wall);
            proof {
                assert forall|i: int| base <= i < self@.walls.len() implies interior(
                    before.width,
                    before.height,
                    #[trigger] self@.walls[i],
                ) by {
                    if i < cells.len() {
                        assert(self@.walls[i] == cells[i]);
                    }
                }
                assert forall|i: int| 0 <= i < base implies #[trigger] self@.walls[i] == (before.walls
                    + ring(before.width, before.height))[i] by {
                    assert(self@.walls[i] == cells[i]);
                }
            }
            n += 1;
        }
        assert(self@.walls.subrange(0, base) =~= before.walls + ring(before.width, before.height));
        if find_free_cell(&self.walls, self.width, self.height).is_none() {
            return Err(InitError::NoFreeCell);
        }
        let x_end: i64 = (self.width - 1) as i64 * UNIT;
        let y_end: i64 = (self.height - 1) as i64 * UNIT;
        let ghost walled = self@;
        let mut i: usize = 0;
        while i < self.enemies.len()
            invariant
                0 <= i <= self.enemies.len(),
                self.width >= 3,
                self.height >= 3,
                x_end == (self.width - 1) * UNIT,
                y_end == (self.height - 1) * UNIT,
                self@ == (GameView { enemies: self@.enemies, ..walled }),
                walled.width == before.width,
                walled.height == before.height,
                self@.enemies.len() == before.enemies.len(),
                forall|j: int|
                    0 <= j < i ==> scattered(
                        before.width,
                        before.height,
                        #[trigger] self@.enemies[j],
                        before.enemies[j],
                    ),
                forall|j: int|
                    i <= j < self.enemies.len() ==> #[trigger] self@.enemies[j]
                        == before.enemies[j],
            decreases self.enemies.len() - i,
        {
            let ghost prior = self@.enemies;
            let ghost enemy = self.enemies@[i as int];
            self.enemies[i].set_rand_position(&mut self.rng, UNIT..x_end, UNIT..y_end);
            proof {
                assert forall|j: int| 0 <= j < i + 1 implies scattered(
                    before.width,
                    before.height,
                    #[trigger] self@.enemies[j],
                    before.enemies[j],
                ) by {
                    assert(j < i ==> self@.enemies[j] == prior[j]);
                    assert(prior[i as int] == enemy@);
                }
                assert forall|j: int|
                    i + 1 <= j < self.enemies.len() implies #[trigger] self@.enemies[j]
                    == before.enemies[j] by {
                    assert(self@.enemies[j] == prior[j]);
                }
            }
            i += 1;
        }
        self.relocate();
        self.ui.prepare();
        Ok(())
    }

    /// Plays one tick: the player steps forward unless a wall stops it,
    /// picks the collectible up if it has reached it, every enemy steps
    /// toward the player, and every enemy that has reached the player's
    /// cell deals one point of damage.
    pub fn update(&mut self)
        ensures
            final(self)@.updated_from(old(self)@),
    {
        let ghost before = self@;
        let next = self.player.forward_position();
        if !on_wall(&self.walls, next) || self.player.noclip() {
            self.player.move_forward();
        }
        let here = self.player.position().round().to_u16();
        if here == self.collectible.position() {
            if self.score < u32::MAX {
                self.score += 1;
            }
            self.relocate();
        }
        let ghost spot = before.stepped();
        let ghost mid = self@;
        let mut i: usize = 0;
        while i < self.enemies.len()
            invariant
                0 <= i <= self.enemies.len(),
                self@ == (GameView { enemies: self@.enemies, ..mid }),
                mid.player.position == spot,
                self@.enemies.len() == before.enemies.len(),
                forall|j: int|
                    0 <= j < i ==> #[trigger] self@.enemies[j] == (EnemyView {
                        position: pursued(
                            before.enemies[j].position,
                            before.enemies[j].speed as int,
                            spot,
                        ),
                        ..before.enemies[j]
                    }),
                forall|j: int|
                    i <= j < self.enemies.len() ==> #[trigger] self@.enemies[j]
                        == before.enemies[j],
            decreases self.enemies.len() - i,
        {
            let ghost prior = self@.enemies;
            self.enemies[i].move_towards_player(&self.player);
            proof {
                assert forall|j: int|
                    0 <= j < i + 1 implies #[trigger] self@.enemies[j] == (EnemyView {
                    position: pursued(
                        before.enemies[j].position,
                        before.enemies[j].speed as int,
                        spot,
                    ),
                    ..before.enemies[j]
                }) by {
                    assert(j < i ==> self@.enemies[j] == prior[j]);
                    assert(prior[i as int] == before.enemies[i as int]);
                }
                assert forall|j: int|
                    i + 1 <= j < self.enemies.len() implies #[trigger] self@.enemies[j]
                    == before.enemies[j] by {
                    assert(self@.enemies[j] == prior[j]);
                }
            }
            i += 1;
        }
        let ghost moved = self@;
        let spot_cell = self.player.position().round();
        let mut k: usize = 0;
        while k < self.enemies.len()
            invariant
                0 <= k <= self.enemies.len(),
                spot_cell == spot.rounded(),
                self@ == (GameView { player: self@.player, ..moved }),
                self@.player == (PlayerView {
                    health: damaged(
                        mid.player.health,
                        mid.player.invincibility,
                        hits(moved.enemies.take(k as int), spot),
                    ),
                    ..mid.player
                }),
            decreases self.enemies.len() - k,
        {
            if self.enemies[k].position().round() == spot_cell {
                self.player.take_damage(1);
            }
            proof {
                assert(moved.enemies.take(k + 1).drop_last() =~= moved.enemies.take(k as int));
            }
            k += 1;
        }
        proof {
            assert(moved.enemies.take(self.enemies.len() as int) =~= moved.enemies);
        }
    }

    /// Queues the instructions that show the game as it is.
    pub fn draw(&mut self)
        ensures
            final(self)@ == (GameView {
                pending: old(self)@.pending + old(self)@.frame(),
                ..old(self)@
            }),
    {
        let ghost before = self@;
        self.ui.clear();
        let mut buffer: Vec<Command> = Vec::new();
        let mut i: usize = 0;
        while i < self.walls.len()
            invariant
                0 <= i <= self.walls.len(),
                self@ == (GameView { pending: before.pending.push(Command::Clear), ..before }),
                buffer@ == walls_drawn(before.walls.take(i as int)),
            decreases self.walls.len() - i,
        {
            self.walls[i].draw(&mut buffer);
            proof {
                assert(before.walls.take(i + 1).drop_last() =~= before.walls.take(i as int));
            }
            i += 1;
        }
        proof {
            assert(before.walls.take(self.walls.len() as int) =~= before.walls);
        }
        self.player.draw(&mut buffer);
        let ghost prefix = buffer@;
        let mut k: usize = 0;
        while k < self.enemies.len()
            invariant
                0 <= k <= self.enemies.len(),
                self@ == (GameView { pending: before.pending.push(Command::Clear), ..before }),
                buffer@ == prefix + enemies_drawn(before.enemies.take(k as int)),
            decreases self.enemies.len() - k,
        {
            self.enemies[k].draw(&mut buffer);
            proof {
                assert(before.enemies.take(k + 1).drop_last() =~= before.enemies.take(k as int));
            }
            k += 1;
        }
        proof {
            assert(before.enemies.take(self.enemies.len() as int) =~= before.enemies);
        }
        self.collectible.draw(&mut buffer);
        let row: u16 = if self.height > u16::MAX - 2 {
            u16::MAX
        } else {
            self.height + 2
        };
        Hud::new(self.score, &self.player, row).draw(&mut buffer);
        proof {
            assert(before.pending.push(Command::Clear) + buffer@ =~= before.pending
                + before.frame());
        }
        self.ui.queue(buffer);
    }

    /// Whether the game has ended.
    pub fn is_over(&self) -> (over: bool)
        ensures
            over == self@.over(),
    {
        !self.player.is_alive() || self.quit
    }

    /// Opens the play: a game that has not ended goes into its first
    /// tick; one that has ended gives the terminal back at once.
    pub fn start(&mut self) -> (step: Step)
        ensures
            step == if old(self)@.over() {
                Step::Finish
            } else {
                Step::Render
            },
            final(self)@ == (GameView {
                pending: if old(self)@.over() {
                    old(self)@.pending + restore_commands()
                } else {
                    old(self)@.pending
                },
                ..old(self)@
            }),
    {
        if self.is_over() {
            self.ui.restore();
            Step::Finish
        } else {
            Step::Render
        }
    }

    /// Takes the game one report of the driver further: `key` is the key
    /// that came while it waited, if any, and `elapsed` the nanoseconds
    /// since the tick began.
    pub fn advance(&mut self, elapsed: u64, key: Option<KeyEvent>) -> (step: Step)
        ensures
            final(self)@.advanced_from(old(self)@, elapsed, key, step),
    {
        match key {
            Some(k) => {
                handle_key_event(k, &mut self.player, &mut self.quit);
            },
            None => {},
        }
        if elapsed <= self.update_interval {
            return Step::Poll(self.update_interval - elapsed);
        }
        self.update();
        self.draw();
        if self.is_over() {
            self.ui.restore();
            Step::Finish
        } else {
            Step::Render
        }
    }

    /// Moves the collectible to a cell inside the outermost ring that no
    /// wall fills: one drawn at random, or, after `DRAWS` draws that all
    /// fell on walls, the first free one. Where no such cell exists the
    /// collectible stays.
    pub fn relocate(&mut self)
        ensures
            final(self)@ == (GameView { collectible: final(self)@.collectible, ..old(self)@ }),
            has_room(old(self)@.width, old(self)@.height, old(self)@.walls) ==> {
                &&& interior(old(self)@.width, old(self)@.height, final(self)@.collectible)
                &&& !final(self)@.walls.contains(final(self)@.collectible)
            },
            !has_room(old(self)@.width, old(self)@.height, old(self)@.walls)
                ==> final(self)@.collectible == old(self)@.collectible,
    {
        if self.width < 3 || self.height < 3 {
            return ;
        }
        let mut draws: u32 = 0;
        while draws < DRAWS
            invariant
                self.width >= 3,
                self.height >= 3,
                self@ == old(self)@,
            decreases DRAWS - draws,
        {
            let mut candidate = Collectible::default();
            candidate.set_rand_position(&mut self.rng, 1..self.width - 1, 1..self.height - 1);
            if !on_wall(&self.walls, candidate.position()) {
                self.collectible = candidate;
                return ;
            }
            draws += 1;
        }
        match find_free_cell(&self.walls, self.width, self.height) {
            Some(cell) => {
                self.collectible.set_position(cell);
            },
            None => {},
        }
    }

    /// Hands over the terminal instructions that wait, and leaves none.
    pub fn take_commands(&mut self) -> (commands: Vec<Command>)
        ensures
            commands@ == old(self)@.pending,
            final(self)@ == (GameView { pending: Seq::empty(), ..old(self)@ }),
    {
        self.ui.take()
    }
}

/// The game with the default settings.
impl Default for Game {
    fn default() -> (g: Self)
        ensures
            g@ == GameBuilder::initial().built(),
    {
        Self::builder().build()
    }
}

} // verus!
