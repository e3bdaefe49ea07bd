//! The enemies and the way they go after the player.

use crate::fixed::{clamp, clamp_coord, floor_sqrt, isqrt, trunc_div};
use crate::point::Point2d;
use crate::traits::Position;
use crate::unit::player::Player;
use vstd::prelude::*;

verus! {

/// What an enemy is, as plain values.
pub struct EnemyView {
    pub position: Point2d<i64>,
    pub speed: i32,
}

/// How far a pursuer moves along one axis in one step of length `speed`,
/// when the target is `d` away on that axis and `len` away in all.
pub open spec fn pursuit_step(speed: int, d: int, len: int) -> int {
    trunc_div(speed * 100_000_000 * d, len)
}

/// Where a pursuer at `from` stands after one step of length `speed`
/// straight toward `target`. A pursuer that has reached its target stays.
pub open spec fn pursued(from: Point2d<i64>, speed: int, target: Point2d<i64>) -> Point2d<i64> {
    let dx = target.x - from.x;
    let dy = target.y - from.y;
    let len = floor_sqrt((dx * dx + dy * dy) as nat) as int;
    if dx == 0 && dy == 0 {
        from
    } else {
        Point2d {
            x: clamp_coord(from.x + pursuit_step(speed, dx, len)) as i64,
            y: clamp_coord(from.y + pursuit_step(speed, dy, len)) as i64,
            direction: from.direction,
        }
    }
}

/// A pursuit step along one axis is the speed times the target's share of
/// the distance on that axis, cut to a whole unit toward zero: it falls
/// short of the exact quotient by less than one unit, points toward the
/// target for a forward speed, and is no longer than the speed when the
/// target is no further on that axis than in all.
pub proof fn lemma_pursuit_step(speed: int, d: int, len: int)
    requires
        len > 0,
    ensures
        ({
            let exact = speed * 100_000_000 * d;
            let step = pursuit_step(speed, d, len);
            &&& exact >= 0 ==> step * len <= exact < step * len + len
            &&& exact < 0 ==> step * len - len < exact <= step * len
            &&& speed >= 0 && d >= 0 ==> step >= 0
            &&& speed >= 0 && d <= 0 ==> step <= 0
            &&& speed >= 0 && -len <= d <= len ==> -speed * 100_000_000 <= step <= speed * 100_000_000
        }),
{
    let exact = speed * 100_000_000 * d;
    let step = pursuit_step(speed, d, len);
    let scaled = speed * 100_000_000;
    if exact >= 0 {
        vstd::arithmetic::div_mod::lemma_fundamental_div_mod(exact, len);
        vstd::arithmetic::div_mod::lemma_mod_bound(exact, len);
        assert(step * len == len * (exact / len)) by (nonlinear_arith)
            requires
                step == exact / len,
        ;
    } else {
        vstd::arithmetic::div_mod::lemma_fundamental_div_mod(-exact, len);
        vstd::arithmetic::div_mod::lemma_mod_bound(-exact, len);
        assert(step * len == -(len * ((-exact) / len))) by (nonlinear_arith)
            requires
                step == -((-exact) / len),
        ;
    }
    if speed >= 0 {
        if d >= 0 {
            assert(exact >= 0) by (nonlinear_arith)
                requires
                    exact == speed * 100_000_000 * d,
                    speed >= 0,
                    d >= 0,
            ;
            assert(step >= 0) by (nonlinear_arith)
                requires
                    len > 0,
                    exact >= 0,
                    exact < step * len + len,
            ;
        }
        if d <= 0 {
            assert(exact <= 0) by (nonlinear_arith)
                requires
                    exact == speed * 100_000_000 * d,
                    speed >= 0,
                    d <= 0,
            ;
            if exact < 0 {
                assert(step <= 0) by (nonlinear_arith)
                    requires
                        len > 0,
                        exact < 0,
                        step * len - len < exact,
                ;
            }
        }
        if -len <= d <= len {
            assert(-(scaled * len) <= exact <= scaled * len) by (nonlinear_arith)
                requires
                    exact == scaled * d,
                    scaled >= 0,
                    -len <= d <= len,
            ;
            if exact >= 0 {
                assert(0 <= step <= scaled) by (nonlinear_arith)
                    requires
                        len > 0,
                        0 <= exact <= scaled * len,
                        step * len <= exact < step * len + len,
                ;
            } else {
                assert(-scaled <= step <= 0) by (nonlinear_arith)
                    requires
                        len > 0,
                        -(scaled * len) <= exact < 0,
                        step * len - len < exact <= step * len,
                ;
            }
        }
    }
}

/// How far apart two points are, in whole coordinate units.
pub open spec fn distance(a: Point2d<i64>, b: Point2d<i64>) -> nat {
    floor_sqrt(((b.x - a.x) * (b.x - a.x) + (b.y - a.y) * (b.y - a.y)) as nat)
}

/// A number whose square is below the square of `len + 1` is at most `len`
/// in size.
proof fn lemma_size_below_root(d: int, len: int)
    requires
        len >= 0,
        d * d < (len + 1) * (len + 1),
    ensures
        -len <= d <= len,
{
    if d > len {
        assert(d * d >= (len + 1) * (len + 1)) by (nonlinear_arith)
            requires
                d >= len + 1,
                len >= 0,
        ;
    }
    if d < -len {
        assert(d * d >= (len + 1) * (len + 1)) by (nonlinear_arith)
            requires
                -d >= len + 1,
                len >= 0,
        ;
    }
}

/// What a step of length `gone` leaves of the way `d` on one axis, when
/// the whole way is `len` long: `len` times what is left is `len - gone`
/// times `d`, and a remainder on the side of `d` that is shorter than
/// `len`. The step itself lies between nothing and `d`.
proof fn lemma_axis_left(gone: int, d: int, len: int) -> (r: int)
    requires
        len > 0,
        0 <= gone <= len,
        -len <= d <= len,
    ensures
        len * (d - trunc_div(gone * d, len)) == (len - gone) * d + r,
        -len < r < len,
        d >= 0 ==> r >= 0 && 0 <= trunc_div(gone * d, len) <= d,
        d <= 0 ==> r <= 0 && d <= trunc_div(gone * d, len) <= 0,
{
    let x = gone * d;
    let q = trunc_div(x, len);
    assert((len - gone) * d == len * d - x) by (nonlinear_arith)
        requires
            x == gone * d,
    ;
    assert(len * (d - q) == len * d - len * q) by (nonlinear_arith);
    if d >= 0 {
        assert(0 <= x <= len * d) by (nonlinear_arith)
            requires
                x == gone * d,
                0 <= gone <= len,
                d >= 0,
        ;
        vstd::arithmetic::div_mod::lemma_fundamental_div_mod(x, len);
        vstd::arithmetic::div_mod::lemma_mod_bound(x, len);
        let r = x % len;
        assert(0 <= q <= d) by (nonlinear_arith)
            requires
                len > 0,
                x == len * q + r,
                0 <= r < len,
                0 <= x <= len * d,
        ;
        r
    } else {
        let y = -x;
        assert(0 <= y <= len * (-d)) by (nonlinear_arith)
            requires
                y == -(gone * d),
                0 <= gone <= len,
                d < 0,
        ;
        vstd::arithmetic::div_mod::lemma_fundamental_div_mod(y, len);
        vstd::arithmetic::div_mod::lemma_mod_bound(y, len);
        let p = y / len;
        let r = -(y % len);
        assert(q == -p);
        assert(0 <= p <= -d) by (nonlinear_arith)
            requires
                len > 0,
                y == len * p - r,
                -len < r <= 0,
                0 <= y <= len * (-d),
        ;
        assert(len * q == -(len * p)) by (nonlinear_arith)
            requires
                q == -p,
        ;
        r
    }
}

/// The square of `left * d + r`, for a remainder `r` on the side of `d`
/// and shorter than `len`, lies between the square of `left * d` and that
/// square with `2 * left * len * len + len * len` added.
proof fn lemma_axis_square(left: int, d: int, r: int, len: int)
    requires
        len > 0,
        left >= 0,
        -len <= d <= len,
        -len < r < len,
        d >= 0 ==> r >= 0,
        d <= 0 ==> r <= 0,
    ensures
        left * left * (d * d) <= (left * d + r) * (left * d + r),
        (left * d + r) * (left * d + r) <= left * left * (d * d) + 2 * (left * (len * len)) + len
            * len,
{
    let cross = d * r;
    assert(0 <= cross <= len * len) by (nonlinear_arith)
        requires
            cross == d * r,
            -len <= d <= len,
            -len < r < len,
            d >= 0 ==> r >= 0,
            d <= 0 ==> r <= 0,
    ;
    assert(0 <= r * r <= len * len) by (nonlinear_arith)
        requires
            -len < r < len,
    ;
    assert((left * d + r) * (left * d + r) == left * left * (d * d) + 2 * (left * cross) + r * r)
        by (nonlinear_arith)
        requires
            cross == d * r,
    ;
    assert(0 <= left * cross <= left * (len * len)) by (nonlinear_arith)
        requires
            left >= 0,
            0 <= cross <= len * len,
    ;
}

/// One pursuit step at a speed no greater than the distance brings the
/// pursuer closer by that speed: the distance, in whole coordinate units,
/// falls by the speed, and the cutting of fractions adds at most two
/// units, each a million-millionth of a cell, to what is left.
pub proof fn lemma_pursuit_closes_in(from: Point2d<i64>, speed: int, target: Point2d<i64>)
    requires
        from.in_limits(),
        target.in_limits(),
        0 <= speed * 100_000_000 <= distance(from, target),
    ensures
        distance(from, target) - speed * 100_000_000 <= distance(pursued(from, speed, target), target)
            <= distance(from, target) - speed * 100_000_000 + 2,
{
    let dx = target.x - from.x;
    let dy = target.y - from.y;
    let n = dx * dx + dy * dy;
    assert(dx * dx >= 0 && dy * dy >= 0) by (nonlinear_arith);
    let len = floor_sqrt(n as nat) as int;
    let gone = speed * 100_000_000;
    let left = len - gone;
    let after = pursued(from, speed, target);
    crate::fixed::lemma_floor_sqrt_bounds(n as nat);
    if dx != 0 || dy != 0 {
        assert(n >= 1) by (nonlinear_arith)
            requires
                n == dx * dx + dy * dy,
                dx != 0 || dy != 0,
        ;
        assert((len + 1) * (len + 1) == len * len + 2 * len + 1) by (nonlinear_arith);
        assert(len > 0) by (nonlinear_arith)
            requires
                len >= 0,
                n >= 1,
                n < (len + 1) * (len + 1),
        ;
        lemma_size_below_root(dx, len);
        lemma_size_below_root(dy, len);
        let rx = lemma_axis_left(gone, dx, len);
        let ry = lemma_axis_left(gone, dy, len);
        let ex = dx - pursuit_step(speed, dx, len);
        let ey = dy - pursuit_step(speed, dy, len);
        assert(target.x - after.x == ex);
        assert(target.y - after.y == ey);
        let e = ex * ex + ey * ey;
        lemma_axis_square(left, dx, rx, len);
        lemma_axis_square(left, dy, ry, len);
        let sx = left * dx + rx;
        let sy = left * dy + ry;
        assert(len * len * e == sx * sx + sy * sy) by (nonlinear_arith)
            requires
                len * ex == sx,
                len * ey == sy,
                e == ex * ex + ey * ey,
        ;
        let base = left * left * n;
        assert(base == left * left * (dx * dx) + left * left * (dy * dy)) by (nonlinear_arith)
            requires
                base == left * left * n,
                n == dx * dx + dy * dy,
        ;
        assert(left * left * (len * len) <= base) by (nonlinear_arith)
            requires
                base == left * left * n,
                len * len <= n,
        ;
        assert(base <= left * left * (len * len + 2 * len)) by (nonlinear_arith)
            requires
                base == left * left * n,
                n <= len * len + 2 * len,
        ;
        let room = left * left * (len * len + 2 * len) + 4 * (left * (len * len)) + 2 * (len
            * len);
        assert(left * left * (len * len) <= len * len * e <= room);
        assert(e >= left * left) by (nonlinear_arith)
            requires
                len > 0,
                len * len * e >= left * left * (len * len),
        ;
        assert(e < (left + 3) * (left + 3)) by (nonlinear_arith)
            requires
                len > 0,
                0 <= left <= len,
                len * len * e <= room,
                room == left * left * (len * len + 2 * len) + 4 * (left * (len * len)) + 2 * (len
                    * len),
        ;
        let far = floor_sqrt(e as nat) as int;
        crate::fixed::lemma_floor_sqrt_bounds(e as nat);
        assert(far >= left) by (nonlinear_arith)
            requires
                far >= 0,
                left >= 0,
                left * left <= e,
                e < (far + 1) * (far + 1),
        ;
        assert(far <= left + 2) by (nonlinear_arith)
            requires
                far >= 0,
                left >= 0,
                far * far <= e,
                e < (left + 3) * (left + 3),
        ;
    }
}

/// The square of a bounded number is bounded by the square of the bound,
/// and is at least one unless the number is zero.
proof fn lemma_square_bound(d: int, bound: int)
    requires
        -bound <= d <= bound,
    ensures
        0 <= d * d <= bound * bound,
        d != 0 ==> d * d >= 1,
{
    assert(0 <= d * d <= bound * bound && (d != 0 ==> d * d >= 1)) by (nonlinear_arith)
        requires
            -bound <= d <= bound,
    ;
}

/// The scaled product of a speed and a distance fits 128 bits with room
/// to spare.
proof fn lemma_scaled_bound(speed: int, d: int)
    requires
        -0x8000_0000 <= speed <= 0x8000_0000,
        -8_000_000_000_000_000_000 <= d <= 8_000_000_000_000_000_000,
    ensures
        -1_717_986_918_400_000_000_000_000_000_000_000_000 <= speed * 100_000_000 * d
            <= 1_717_986_918_400_000_000_000_000_000_000_000_000,
{
    assert(-1_717_986_918_400_000_000_000_000_000_000_000_000 <= speed * 100_000_000 * d
        <= 1_717_986_918_400_000_000_000_000_000_000_000_000) by (nonlinear_arith)
        requires
            -0x8000_0000 <= speed <= 0x8000_0000,
            -8_000_000_000_000_000_000 <= d <= 8_000_000_000_000_000_000,
    ;
}

/// The step along one axis, for a target `d` away on it and `len` away in
/// all.
fn toward(speed: i32, d: i128, len: u64) -> (r: i128)
    requires
        len > 0,
        -8_000_000_000_000_000_000 <= d <= 8_000_000_000_000_000_000,
    ensures
        r == pursuit_step(speed as int, d as int, len as int),
        -1_717_986_918_400_000_000_000_000_000_000_000_000 <= r
            <= 1_717_986_918_400_000_000_000_000_000_000_000_000,
{
    proof {
        lemma_scaled_bound(speed as int, d as int);
    }
    let product: i128 = (speed as i128 * 100_000_000) * d;
    if product >= 0 {
        ((product as u128) / (len as u128)) as i128
    } else {
        -((((-product) as u128) / (len as u128)) as i128)
    }
}

/// An enemy: it has a place on the continuous plane and goes after the
/// player at a speed that never changes, in ten-thousandths of a cell a
/// tick.
pub struct Enemy {
    position: Point2d<i64>,
    speed: i32,
}

impl View for Enemy {
    type V = EnemyView;

    closed spec fn view(&self) -> EnemyView {
        EnemyView { position: self.position, speed: self.speed }
    }
}

impl Enemy {
    #[verifier::type_invariant]
    spec fn within_limits(self) -> bool {
        self.position.in_limits()
    }

    /// An enemy in cell `(0, 0)` that pursues at `speed`.
    pub fn with_speed(speed: i32) -> (e: Enemy)
        ensures
            e@ == (EnemyView { position: Point2d::<i64>::at(0, 0), speed }),
    {
        Self { position: Point2d::default(), speed }
    }

    /// Moves one step of the enemy's speed straight toward the player. An
    /// enemy that stands exactly where the player stands does not move.
    pub fn move_towards_player(&mut self, player: &Player)
        ensures
            final(self)@ == (EnemyView {
                position: pursued(
                    old(self)@.position,
                    old(self)@.speed as int,
                    player@.position,
                ),
                ..old(self)@
            }),
    {
        proof {
            use_type_invariant(&*self);
        }
        let target = player.position();
        let dx: i128 = target.x as i128 - self.position.x as i128;
        let dy: i128 = target.y as i128 - self.position.y as i128;
        if dx == 0 && dy == 0 {
            return ;
        }
        proof {
            lemma_square_bound(dx as int, 8_000_000_000_000_000_000);
            lemma_square_bound(dy as int, 8_000_000_000_000_000_000);
        }
        let squares: i128 = dx * dx + dy * dy;
        let len: u64 = isqrt(squares as u128);
        proof {
            crate::fixed::lemma_floor_sqrt_bounds(squares as nat);
            assert(len > 0) by (nonlinear_arith)
                requires
                    squares >= 1,
                    (len + 1) * (len + 1) > squares,
                    len >= 0,
            ;
        }
        let x = clamp(self.position.x as i128 + toward(self.speed, dx, len));
        let y = clamp(self.position.y as i128 + toward(self.speed, dy, len));
        self.position = Point2d { x, y, direction: self.position.direction };
    }
}

/// An enemy in cell `(0, 0)` that does not move.
impl Default for Enemy {
    fn default() -> (e: Enemy)
        ensures
            e@ == (EnemyView { position: Point2d::<i64>::at(0, 0), speed: 0 }),
    {
        Self { position: Point2d::default(), speed: 0 }
    }
}

/// An enemy goes where it is put, as far as the coordinates reach.
impl Position<i64> for Enemy {
    open spec fn place(&self) -> Point2d<i64> {
        self@.position
    }

    open spec fn placed(&self, position: Point2d<i64>) -> EnemyView {
        EnemyView { position: position.clamped(), ..self@ }
    }

    fn position(&self) -> (p: Point2d<i64>)
        ensures
            p.in_limits(),
    {
        proof {
            use_type_invariant(self);
        }
        self.position
    }

    fn set_position(&mut self, position: Point2d<i64>) {
        let x = clamp(position.x as i128);
        let y = clamp(position.y as i128);
        proof {
            use_type_invariant(&*self);
        }
        self.position = Point2d { x, y, direction: position.direction };
    }
}

} // verus!
