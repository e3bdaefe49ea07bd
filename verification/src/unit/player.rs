//! The player.

use crate::fixed::{clamp, UNIT};
use crate::point::{Heading, Point2d};
use crate::traits::Position;
use vstd::prelude::*;

verus! {

/// One tenth, in ten-thousandths: the amount by which the speed changes.
pub const SPEED_STEP: i32 = 1_000;

/// One, in ten-thousandths: the top of the limited speed range.
pub const SPEED_LIMIT: i32 = 10_000;

/// What a player is, as plain values.
pub struct PlayerView {
    pub position: Point2d<i64>,
    pub speed: i32,
    pub health: u8,
    pub noclip: bool,
    pub speedlimit: bool,
    pub invincibility: bool,
}

/// The speed after one press of the accelerator.
pub open spec fn accelerated(speed: int, speedlimit: bool) -> int {
    if speed <= 9_000 || !speedlimit {
        if speed + 1_000 > i32::MAX {
            i32::MAX as int
        } else {
            speed + 1_000
        }
    } else {
        10_000
    }
}

/// The speed after one press of the brake.
pub open spec fn decelerated(speed: int, speedlimit: bool) -> int {
    if speed >= 1_000 || !speedlimit {
        if speed - 1_000 < i32::MIN {
            i32::MIN as int
        } else {
            speed - 1_000
        }
    } else {
        0
    }
}

/// The speed after `n` presses of the accelerator.
pub open spec fn accelerated_times(speed: int, speedlimit: bool, n: nat) -> int
    decreases n,
{
    if n == 0 {
        speed
    } else {
        accelerated(accelerated_times(speed, speedlimit, (n - 1) as nat), speedlimit)
    }
}

/// The speed after `n` presses of the brake.
pub open spec fn decelerated_times(speed: int, speedlimit: bool, n: nat) -> int
    decreases n,
{
    if n == 0 {
        speed
    } else {
        decelerated(decelerated_times(speed, speedlimit, (n - 1) as nat), speedlimit)
    }
}

/// With the speed limit on, a speed between zero and one stays there
/// whichever pedal is pressed.
pub proof fn lemma_limited_speed_stays(speed: int)
    requires
        0 <= speed <= 10_000,
    ensures
        0 <= accelerated(speed, true) <= 10_000,
        0 <= decelerated(speed, true) <= 10_000,
{
}

/// With the speed limit on, `n` presses of the accelerator take a speed
/// between zero and one up by `n` tenths, and to exactly one once that
/// would pass nine tenths: it never overshoots.
pub proof fn lemma_accelerated_times(speed: int, n: nat)
    requires
        0 <= speed <= 10_000,
    ensures
        accelerated_times(speed, true, n) == if speed + 1_000 * n <= 10_000 {
            speed + 1_000 * n
        } else {
            10_000
        },
    decreases n,
{
    if n > 0 {
        lemma_accelerated_times(speed, (n - 1) as nat);
    }
}

/// With the speed limit on, `n` presses of the brake take a speed between
/// zero and one down by `n` tenths, and to exactly zero once that would
/// pass one tenth: it never undershoots.
pub proof fn lemma_decelerated_times(speed: int, n: nat)
    requires
        0 <= speed <= 10_000,
    ensures
        decelerated_times(speed, true, n) == if speed - 1_000 * n >= 0 {
            speed - 1_000 * n
        } else {
            0
        },
    decreases n,
{
    if n > 0 {
        lemma_decelerated_times(speed, (n - 1) as nat);
    }
}

/// Damage never raises the health, never takes it below zero, and leaves
/// an invincible player's health alone.
pub proof fn lemma_damage_floor(before: PlayerView, after: PlayerView, damage: u8)
    requires
        after == before.hurt(damage),
    ensures
        0 <= after.health <= before.health,
        before.invincibility ==> after == before,
        !before.invincibility && damage <= before.health ==> after.health == before.health
            - damage,
        !before.invincibility && damage > before.health ==> after.health == 0,
{
}

impl PlayerView {
    /// The player after a blow of `damage` points: an invincible player is
    /// unharmed, any other loses the points down to zero.
    pub open spec fn hurt(self, damage: u8) -> PlayerView {
        if self.invincibility {
            self
        } else {
            PlayerView {
                health: if self.health >= damage {
                    (self.health - damage) as u8
                } else {
                    0
                },
                ..self
            }
        }
    }
}

/// The player: a place on the continuous plane, a speed in
/// ten-thousandths of a cell a tick, health from 0 to 255, and three
/// switches.
pub struct Player {
    position: Point2d<i64>,
    speed: i32,
    health: u8,
    noclip: bool,
    speedlimit: bool,
    invincibility: bool,
}

impl View for Player {
    type V = PlayerView;

    closed spec fn view(&self) -> PlayerView {
        PlayerView {
            position: self.position,
            speed: self.speed,
            health: self.health,
            noclip: self.noclip,
            speedlimit: self.speedlimit,
            invincibility: self.invincibility,
        }
    }
}

impl Player {
    #[verifier::type_invariant]
    spec fn within_limits(self) -> bool {
        self.position.in_limits()
    }

    /// The builder with the initial settings.
    pub fn builder() -> (b: PlayerBuilder)
        ensures
            b@ == PlayerBuilder::initial(),
    {
        PlayerBuilder::default()
    }

    /// Whether any health is left.
    pub fn is_alive(&self) -> (alive: bool)
        ensures
            alive == (self@.health > 0),
    {
        self.health > 0
    }

    /// Takes `damage` off the health, stopping at zero. An invincible
    /// player is left as it is.
    pub fn take_damage(&mut self, damage: u8)
        ensures
            final(self)@ == old(self)@.hurt(damage),
    {
        proof {
            use_type_invariant(&*self);
        }
        if self.invincibility {
            return ;
        }
        if self.health >= damage {
            self.health -= damage;
        } else {
            self.health = 0;
        }
    }

    /// The health that is left.
    pub fn health(&self) -> (h: u8)
        ensures
            h == self@.health,
    {
        self.health
    }

    /// The speed, in ten-thousandths of a cell a tick.
    pub fn speed(&self) -> (s: i32)
        ensures
            s == self@.speed,
    {
        self.speed
    }

    /// Raises the speed by a tenth. With the speed limit on, a speed above
    /// nine tenths becomes exactly one.
    pub fn accelerate(&mut self)
        ensures
            final(self)@ == (PlayerView {
                speed: accelerated(old(self)@.speed as int, old(self)@.speedlimit) as i32,
                ..old(self)@
            }),
    {
        proof {
            use_type_invariant(&*self);
        }
        if self.speed <= SPEED_LIMIT - SPEED_STEP || !self.speedlimit {
            if self.speed > i32::MAX - SPEED_STEP {
                self.speed = i32::MAX;
            } else {
                self.speed = self.speed + SPEED_STEP;
            }
        } else {
            self.speed = SPEED_LIMIT;
        }
    }

    /// Lowers the speed by a tenth. With the speed limit on, a speed below
    /// one tenth becomes exactly zero.
    pub fn decelerate(&mut self)
        ensures
            final(self)@ == (PlayerView {
                speed: decelerated(old(self)@.speed as int, old(self)@.speedlimit) as i32,
                ..old(self)@
            }),
    {
        proof {
            use_type_invariant(&*self);
        }
        if self.speed >= SPEED_STEP || !self.speedlimit {
            if self.speed < i32::MIN + SPEED_STEP {
                self.speed = i32::MIN;
            } else {
                self.speed = self.speed - SPEED_STEP;
            }
        } else {
            self.speed = 0;
        }
    }

    /// Moves one step of the current speed along the heading.
    pub fn move_forward(&mut self)
        ensures
            final(self)@ == (PlayerView {
                position: old(self)@.position.moved(old(self)@.speed as int),
                ..old(self)@
            }),
    {
        proof {
            use_type_invariant(&*self);
        }
        let mut position = self.position;
        position.move_forward(self.speed);
        self.position = position;
    }

    /// The cell the player would stand in after its next step.
    pub fn forward_position(&self) -> (c: Point2d<u16>)
        ensures
            c == self@.position.moved(self@.speed as int).cell(),
    {
        self.position.simulate_move_forward(self.speed).to_u16()
    }

    /// Turns one sector to the left.
    pub fn turn_left(&mut self)
        ensures
            final(self)@ == (PlayerView {
                position: old(self)@.position.rotated(-1),
                ..old(self)@
            }),
            final(self)@.position.heading_valid(),
    {
        proof {
            use_type_invariant(&*self);
        }
        let mut position = self.position;
        position.update_direction(-1);
        self.position = position;
    }

    /// Turns one sector to the right.
    pub fn turn_right(&mut self)
        ensures
            final(self)@ == (PlayerView {
                position: old(self)@.position.rotated(1),
                ..old(self)@
            }),
            final(self)@.position.heading_valid(),
    {
        proof {
            use_type_invariant(&*self);
        }
        let mut position = self.position;
        position.update_direction(1);
        self.position = position;
    }

    /// Switches no-clip, which lets the player pass through walls, on or
    /// off.
    pub fn toggle_noclip(&mut self)
        ensures
            final(self)@ == (PlayerView { noclip: !old(self)@.noclip, ..old(self)@ }),
    {
        proof {
            use_type_invariant(&*self);
        }
        self.noclip = !self.noclip;
    }

    /// Switches the speed limit, which keeps the speed between zero and
    /// one, on or off.
    pub fn toggle_speed(&mut self)
        ensures
            final(self)@ == (PlayerView { speedlimit: !old(self)@.speedlimit, ..old(self)@ }),
    {
        proof {
            use_type_invariant(&*self);
        }
        self.speedlimit = !self.speedlimit;
    }

    /// Whether no-clip is on.
    pub fn noclip(&self) -> (on: bool)
        ensures
            on == self@.noclip,
    {
        self.noclip
    }

    /// Fills the health up to the most there is.
    pub fn unlimited_health(&mut self)
        ensures
            final(self)@ == (PlayerView { health: u8::MAX, ..old(self)@ }),
    {
        proof {
            use_type_invariant(&*self);
        }
        self.health = u8::MAX;
    }

    /// Switches invincibility, which keeps damage off, on or off.
    pub fn toggle_invincibility(&mut self)
        ensures
            final(self)@ == (PlayerView {
                invincibility: !old(self)@.invincibility,
                ..old(self)@
            }),
    {
        proof {
            use_type_invariant(&*self);
        }
        self.invincibility = !self.invincibility;
    }
}

/// The player that the initial builder builds.
impl Default for Player {
    fn default() -> (p: Player)
        ensures
            p@ == PlayerBuilder::initial().built(),
    {
        PlayerBuilder::default().build()
    }
}

/// A player goes where it is put, heading included, as far as the
/// coordinates reach.
impl Position<i64> for Player {
    open spec fn place(&self) -> Point2d<i64> {
        self@.position
    }

    open spec fn placed(&self, position: Point2d<i64>) -> PlayerView {
        PlayerView { position: position.clamped(), ..self@ }
    }

    fn position(&self) -> (p: Point2d<i64>)
        ensures
            p.in_limits(),
    {
        proof {
            use_type_invariant(self);
        }
        self.position
    }

    fn set_position(&mut self, position: Point2d<i64>) {
        let x = clamp(position.x as i128);
        let y = clamp(position.y as i128);
        proof {
            use_type_invariant(&*self);
        }
        self.position = Point2d { x, y, direction: position.direction };
    }
}

/// What a player under construction is, as plain values.
pub struct PlayerBuilderView {
    pub position: Point2d<i64>,
    pub speed: i32,
    pub health: u8,
}

/// The settings a player is made from.
pub struct PlayerBuilder {
    position: Point2d<i64>,
    speed: i32,
    health: u8,
}

impl View for PlayerBuilder {
    type V = PlayerBuilderView;

    closed spec fn view(&self) -> PlayerBuilderView {
        PlayerBuilderView { position: self.position, speed: self.speed, health: self.health }
    }
}

impl PlayerBuilderView {
    /// The player this builder stands for.
    pub open spec fn built(self) -> PlayerView {
        PlayerView {
            position: self.position,
            speed: self.speed,
            health: self.health,
            noclip: false,
            speedlimit: true,
            invincibility: false,
        }
    }
}

impl PlayerBuilder {
    #[verifier::type_invariant]
    spec fn within_limits(self) -> bool {
        self.position.in_limits()
    }

    /// The builder every construction starts from: at rest in cell
    /// `(30, 15)`, facing sector 0, with ten points of health.
    pub open spec fn initial() -> PlayerBuilderView {
        PlayerBuilderView {
            position: Point2d::<i64>::at(30_000_000_000_000, 15_000_000_000_000),
            speed: 0,
            health: 10,
        }
    }

    /// The builder with the initial settings.
    pub fn new() -> (b: PlayerBuilder)
        ensures
            b@ == Self::initial(),
    {
        PlayerBuilder::default()
    }

    /// Sets the speed the player starts with.
    pub fn speed(self, speed: i32) -> (b: PlayerBuilder)
        ensures
            b@ == (PlayerBuilderView { speed, ..self@ }),
    {
        proof {
            use_type_invariant(&self);
        }
        let mut builder = self;
        builder.speed = speed;
        builder
    }

    /// Sets the health the player starts with.
    pub fn health(self, health: u8) -> (b: PlayerBuilder)
        ensures
            b@ == (PlayerBuilderView { health, ..self@ }),
    {
        proof {
            use_type_invariant(&self);
        }
        let mut builder = self;
        builder.health = health;
        builder
    }

    /// Sets where the player starts and which way it faces.
    pub fn position(self, position: Point2d<i64>) -> (b: PlayerBuilder)
        ensures
            b@ == (PlayerBuilderView { position: position.clamped(), ..self@ }),
    {
        proof {
            use_type_invariant(&self);
        }
        let x = clamp(position.x as i128);
        let y = clamp(position.y as i128);
        let mut builder = self;
        builder.position = Point2d { x, y, direction: position.direction };
        builder
    }

    /// Faces the player along the vector `(x, y)`, which is to be one of
    /// the eight vectors of the heading table: the heading becomes the
    /// table entry with that vector. Any other pair faces the player along
    /// sector 0. Either way the heading is one of the table.
    pub fn direction(self, x: i32, y: i32) -> (b: PlayerBuilder)
        ensures
            b@ == (PlayerBuilderView {
                position: Point2d { direction: Heading::along(x, y), ..self@.position },
                ..self@
            }),
            b@.position.heading_valid(),
    {
        proof {
            use_type_invariant(&self);
        }
        let heading = Heading::toward(x, y);
        let mut builder = self;
        builder.position = Point2d { x: builder.position.x, y: builder.position.y, direction: heading };
        builder
    }

    /// The player with these settings: no-clip off, speed limit on,
    /// invincibility off.
    pub fn build(self) -> (p: Player)
        ensures
            p@ == self@.built(),
    {
        proof {
            use_type_invariant(&self);
        }
        Player {
            position: self.position,
            speed: self.speed,
            health: self.health,
            noclip: false,
            speedlimit: true,
            invincibility: false,
        }
    }
}

/// The builder with the initial settings.
impl Default for PlayerBuilder {
    fn default() -> (b: PlayerBuilder)
        ensures
            b@ == Self::initial(),
    {
        Self { position: Point2d::new(30 * UNIT, 15 * UNIT), speed: 0, health: 10 }
    }
}

} // verus!
