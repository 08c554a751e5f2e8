//! The player's physics body: gravity, jump impulses, and clamping to the
//! playfield's ceiling and floor.
//!
//! Positions are milli-pixels, velocities pixels per second, elapsed time
//! milliseconds, so one update moves `pos` by exactly `vel * dt` and
//! gravity (1000 pixels per second per second) adds exactly `dt` to the
//! downward velocity.

use vstd::prelude::*;

use crate::units::{COORD_LIMIT, DT_LIMIT};

verus! {

/// Velocity set by a jump impulse taken from the ground, in pixels per
/// second (negative is up).
pub const JUMP_VELOCITY: i64 = -800;

/// Velocity the body is held at while the jump key is down mid-air, in
/// pixels per second.
pub const AIR_HOLD_VELOCITY: i64 = -350;

/// The player's body.  `pos_*` are milli-pixels, `vel_*` pixels per
/// second; `grounded` records that the last update ended on the floor.
#[derive(Clone, Copy, PartialEq, Eq, Structural, Debug)]
pub struct Body {
    pub pos_x: i64,
    pub pos_y: i64,
    pub vel_x: i64,
    pub vel_y: i64,
    pub grounded: bool,
}

/// The mathematical value of a [`Body`], over unbounded integers.
pub struct BodyModel {
    pub x: int,
    pub y: int,
    pub vx: int,
    pub vy: int,
    pub grounded: bool,
}

impl View for Body {
    type V = BodyModel;

    open spec fn view(&self) -> BodyModel {
        BodyModel {
            x: self.pos_x as int,
            y: self.pos_y as int,
            vx: self.vel_x as int,
            vy: self.vel_y as int,
            grounded: self.grounded,
        }
    }
}

/// Well-formedness of a body: it never strafes, its velocity is at most
/// the jump impulse upward and bounded below the coordinate limit
/// downward, and it sits inside the coordinate grid.
pub open spec fn body_wf(m: BodyModel) -> bool {
    &&& m.vx == 0
    &&& JUMP_VELOCITY <= m.vy <= COORD_LIMIT
    &&& 0 <= m.x <= COORD_LIMIT
    &&& 0 <= m.y <= COORD_LIMIT
}

/// One physics step: jump impulse or mid-air hold, then gravity, then
/// integration, then clamping into `[ceil, floor]`.  Gravity is 1000
/// pixels per second per second, which over `dt` milliseconds adds
/// exactly `dt` pixels per second of downward velocity.
pub open spec fn body_step(m: BodyModel, dt: int, jump: bool, ceil: int, floor: int) -> BodyModel {
    let vy0 = if jump {
        if m.grounded {
            JUMP_VELOCITY as int
        } else {
            AIR_HOLD_VELOCITY as int
        }
    } else {
        m.vy
    };
    let grounded0 = if jump && m.grounded {
        false
    } else {
        m.grounded
    };
    let vy = vy0 + dt;
    let x = m.x + m.vx * dt;
    let y = m.y + vy * dt;
    if y < ceil {
        BodyModel { x, y: ceil, vx: m.vx, vy: 0, grounded: grounded0 }
    } else if y > floor {
        BodyModel { x, y: floor, vx: m.vx, vy: 0, grounded: true }
    } else {
        BodyModel { x, y, vx: m.vx, vy, grounded: false }
    }
}

/// The body after `n` further physics steps with no jump input, at a
/// fixed frame time and fixed playfield bounds.
pub open spec fn body_iter(m: BodyModel, dt: int, ceil: int, floor: int, n: nat) -> BodyModel
    decreases n,
{
    if n == 0 {
        m
    } else {
        body_step(body_iter(m, dt, ceil, floor, (n - 1) as nat), dt, false, ceil, floor)
    }
}

/// The body is at rest on the floor.
pub open spec fn settled(m: BodyModel, floor: int) -> bool {
    m.grounded && m.vy == 0 && m.y == floor
}

/// An upper bound, minus one, on how many no-jump steps a body needs to
/// settle: gravity raises `vy` by at least one per step until the floor
/// clamp, and a ceiling clamp resets `vy` to zero at most once.
pub open spec fn steps_to_settle(m: BodyModel, floor: int) -> int {
    if m.vy < 0 {
        floor + 2 - m.vy
    } else if m.vy <= floor {
        floor + 1 - m.vy
    } else {
        0
    }
}

/// Law: a body at rest on the floor is a fixpoint of the no-jump physics
/// step, for any positive frame time.
pub proof fn lemma_settled_fixpoint(m: BodyModel, dt: int, ceil: int, floor: int)
    requires
        body_wf(m),
        settled(m, floor),
        1 <= dt,
        0 <= ceil <= floor,
    ensures
        body_step(m, dt, false, ceil, floor) == m,
{
    assert(dt * dt >= dt) by (nonlinear_arith)
        requires
            dt >= 1,
    ;
    assert(m.vx * dt == 0) by (nonlinear_arith)
        requires
            m.vx == 0,
    ;
}

/// Law: a settled body stays settled, and unchanged, under any number of
/// further no-jump steps with a positive frame time.
pub proof fn lemma_settled_stays(m: BodyModel, dt: int, ceil: int, floor: int, n: nat)
    requires
        body_wf(m),
        settled(m, floor),
        1 <= dt,
        0 <= ceil <= floor,
    ensures
        body_iter(m, dt, ceil, floor, n) == m,
    decreases n,
{
    if n > 0 {
        lemma_settled_stays(m, dt, ceil, floor, (n - 1) as nat);
        lemma_settled_fixpoint(m, dt, ceil, floor);
    }
}

proof fn lemma_iter_shift(m: BodyModel, dt: int, ceil: int, floor: int, n: nat)
    ensures
        body_iter(m, dt, ceil, floor, (n + 1) as nat) == body_iter(
            body_step(m, dt, false, ceil, floor),
            dt,
            ceil,
            floor,
            n,
        ),
    decreases n,
{
    let m1 = body_step(m, dt, false, ceil, floor);
    if n == 0 {
        assert(body_iter(m, dt, ceil, floor, 0nat) == m);
        assert(body_iter(m1, dt, ceil, floor, 0nat) == m1);
        assert(body_iter(m, dt, ceil, floor, 1nat) == body_step(
            body_iter(m, dt, ceil, floor, 0nat),
            dt,
            false,
            ceil,
            floor,
        ));
    } else {
        lemma_iter_shift(m, dt, ceil, floor, (n - 1) as nat);
        assert(body_iter(m, dt, ceil, floor, (n + 1) as nat) == body_step(
            body_iter(m, dt, ceil, floor, n),
            dt,
            false,
            ceil,
            floor,
        ));
        assert(body_iter(m1, dt, ceil, floor, n) == body_step(
            body_iter(m1, dt, ceil, floor, (n - 1) as nat),
            dt,
            false,
            ceil,
            floor,
        ));
    }
}

proof fn lemma_converges_rec(m: BodyModel, dt: int, ceil: int, floor: int)
    requires
        body_wf(m),
        1 <= dt <= DT_LIMIT,
        0 <= ceil <= floor <= COORD_LIMIT,
        ceil <= m.y <= floor,
    ensures
        exists |n: nat| #![auto]
            n <= 1 + steps_to_settle(m, floor) && settled(body_iter(m, dt, ceil, floor, n), floor),
    decreases steps_to_settle(m, floor),
{
    let m1 = body_step(m, dt, false, ceil, floor);
    assert(body_iter(m, dt, ceil, floor, 0nat) == m);
    assert(body_iter(m, dt, ceil, floor, 1nat) == m1);
    let v = m.vy + dt;
    let ynew = m.y + v * dt;
    if v >= 0 {
        assert(v * dt >= v) by (nonlinear_arith)
            requires
                v >= 0,
                dt >= 1,
        ;
    } else {
        assert(v * dt <= v) by (nonlinear_arith)
            requires
                v <= 0,
                dt >= 1,
        ;
    }
    if ynew > floor {
        assert(settled(body_iter(m, dt, ceil, floor, 1nat), floor));
    } else if m.vy >= 0 && v > floor {
        // then ynew >= m.y + v > floor: contradiction with the branch
        assert(false);
    } else if ynew < ceil {
        // only a falling-upward body reaches the ceiling
        assert(v < 0);
        let m2 = BodyModel { x: m.x + m.vx * dt, y: ceil, vx: m.vx, vy: 0, grounded: m.grounded };
        assert(m.vx * dt == 0) by (nonlinear_arith)
            requires
                m.vx == 0,
        ;
        assert(m1 == m2);
        lemma_converges_rec(m1, dt, ceil, floor);
        let n1 = choose |n: nat|
            n <= 1 + steps_to_settle(m1, floor) && settled(body_iter(m1, dt, ceil, floor, n), floor);
        lemma_iter_shift(m, dt, ceil, floor, n1);
        assert(settled(body_iter(m, dt, ceil, floor, (n1 + 1) as nat), floor));
    } else {
        // the body stays between the bounds and keeps its raised velocity
        assert(m.vx * dt == 0) by (nonlinear_arith)
            requires
                m.vx == 0,
        ;
        assert(m1 == BodyModel { x: m.x, y: ynew, vx: m.vx, vy: v, grounded: false });
        assert(v <= floor);
        lemma_converges_rec(m1, dt, ceil, floor);
        let n1 = choose |n: nat|
            n <= 1 + steps_to_settle(m1, floor) && settled(body_iter(m1, dt, ceil, floor, n), floor);
        lemma_iter_shift(m, dt, ceil, floor, n1);
        assert(settled(body_iter(m, dt, ceil, floor, (n1 + 1) as nat), floor));
    }
}

/// Law: with no jump input and a positive frame time, repeated physics
/// steps settle the body on the floor with zero vertical velocity within
/// a bounded number of steps (gravity monotonically raises the downward
/// velocity until the floor clamp).  Together with
/// [`lemma_settled_stays`], the body then never leaves the floor.
pub proof fn lemma_gravity_settles(m: BodyModel, dt: int, ceil: int, floor: int)
    requires
        body_wf(m),
        1 <= dt <= DT_LIMIT,
        0 <= ceil <= floor <= COORD_LIMIT,
        ceil <= m.y <= floor,
    ensures
        exists |n: nat| #![auto]
            n <= floor + 803 && settled(body_iter(m, dt, ceil, floor, n), floor),
{
    lemma_converges_rec(m, dt, ceil, floor);
    let n = choose |n: nat|
        n <= 1 + steps_to_settle(m, floor) && settled(body_iter(m, dt, ceil, floor, n), floor);
    assert(n <= floor + 803);
    assert(settled(body_iter(m, dt, ceil, floor, n), floor));
}

impl Body {
    /// A body at rest at the given position, as at game start.
    pub fn new(pos_x: i64, pos_y: i64) -> (b: Body)
        requires
            0 <= pos_x <= COORD_LIMIT,
            0 <= pos_y <= COORD_LIMIT,
        ensures
            b@ == (BodyModel { x: pos_x as int, y: pos_y as int, vx: 0, vy: 0, grounded: false }),
            body_wf(b@),
    {
        Body { pos_x, pos_y, vel_x: 0, vel_y: 0, grounded: false }
    }

    /// One frame of player physics.  The result is exactly
    /// [`body_step`]; in particular the new height is clamped into
    /// `[ceiling_y, floor_y]`, whatever the inputs.
    pub fn update(&mut self, dt_ms: i64, jump_held: bool, ceiling_y: i64, floor_y: i64)
        requires
            body_wf(old(self)@),
            0 <= dt_ms <= DT_LIMIT,
            0 <= ceiling_y <= floor_y <= COORD_LIMIT,
        ensures
            final(self)@ == body_step(
                old(self)@,
                dt_ms as int,
                jump_held,
                ceiling_y as int,
                floor_y as int,
            ),
            body_wf(final(self)@),
            ceiling_y <= final(self).pos_y <= floor_y,
    {
        if jump_held {
            if self.grounded {
                self.vel_y = JUMP_VELOCITY;
                self.grounded = false;
            } else {
                self.vel_y = AIR_HOLD_VELOCITY;
            }
        }
        // Gravity: 1000 px/s^2 for dt_ms milliseconds adds dt_ms px/s.
        self.vel_y = self.vel_y + dt_ms;
        proof {
            assert(self.vel_y * dt_ms <= 2_000_000_000_000_000 && -2_000_000_000_000_000
                <= self.vel_y * dt_ms) by (nonlinear_arith)
                requires
                    -1000 <= self.vel_y <= 2_000_000_000,
                    0 <= dt_ms <= 100_000,
            ;
        }
        let dy: i64 = self.vel_y * dt_ms;
        let dx: i64 = self.vel_x * dt_ms;
        self.pos_x = self.pos_x + dx;
        self.pos_y = self.pos_y + dy;
        if self.pos_y < ceiling_y {
            self.pos_y = ceiling_y;
            self.vel_y = 0;
        } else if self.pos_y > floor_y {
            self.pos_y = floor_y;
            self.vel_y = 0;
            self.grounded = true;
        } else {
            self.grounded = false;
            proof {
                if dt_ms >= 1 && self.vel_y > floor_y {
                    assert(self.vel_y * dt_ms >= self.vel_y) by (nonlinear_arith)
                        requires
                            self.vel_y >= 1,
                            dt_ms >= 1,
                    ;
                    assert(false);
                }
            }
        }
    }
}

} // verus!
