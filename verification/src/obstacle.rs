//! Obstacles: randomized spawn geometry, leftward motion, and pruning of
//! obstacles that have left the screen.

use vstd::prelude::*;

use crate::rng::rand_in;
use crate::units::{viewport_ok, COORD_LIMIT, DT_LIMIT, MILLI};

verus! {

/// How fast obstacles march left, in pixels per second.
pub const OBSTACLE_SPEED: i64 = 200;

/// Largest speed [`Obstacle::advance`] accepts, in pixels per second.
pub const SPEED_LIMIT: i64 = 1000;

/// The two obstacle shapes: a vertical obstacle varies its height, a
/// horizontal one its width.
#[derive(Clone, Copy, PartialEq, Eq, Structural, Debug)]
pub enum ObstacleKind {
    Vertical,
    Horizontal,
}

/// One obstacle.  `pos_*`, `width` and `height` are milli-pixels;
/// `pos_x` decreases every frame while the game runs.
#[derive(Clone, Copy, PartialEq, Eq, Structural, Debug)]
pub struct Obstacle {
    pub kind: ObstacleKind,
    pub pos_x: i64,
    pub pos_y: i64,
    pub width: i64,
    pub height: i64,
}

/// The mathematical value of an [`Obstacle`], over unbounded integers.
pub struct ObsModel {
    pub kind: ObstacleKind,
    pub x: int,
    pub y: int,
    pub w: int,
    pub h: int,
}

impl View for Obstacle {
    type V = ObsModel;

    open spec fn view(&self) -> ObsModel {
        ObsModel {
            kind: self.kind,
            x: self.pos_x as int,
            y: self.pos_y as int,
            w: self.width as int,
            h: self.height as int,
        }
    }
}

/// The models of a sequence of obstacles.
pub open spec fn models(s: Seq<Obstacle>) -> Seq<ObsModel> {
    s.map_values(|o: Obstacle| o@)
}

/// Well-formedness of an obstacle: positive sizes, and coordinates on
/// the grid (an obstacle may sit up to one advance left of the screen,
/// hence the widened lower bound on `x`).
pub open spec fn obstacle_wf(m: ObsModel) -> bool {
    &&& 0 < m.w <= COORD_LIMIT
    &&& 0 < m.h <= COORD_LIMIT
    &&& -2 * COORD_LIMIT <= m.x <= COORD_LIMIT
    &&& 0 <= m.y <= COORD_LIMIT
}

/// An obstacle is kept while any part of it is right of the left edge.
pub open spec fn on_screen(m: ObsModel) -> bool {
    m.x + m.w > 0
}

/// One advance: the obstacle moves `speed * dt` milli-pixels left.
pub open spec fn moved(m: ObsModel, dt: int, speed: int) -> ObsModel {
    ObsModel { x: m.x - speed * dt, ..m }
}

/// A whole frame's obstacle motion.
pub open spec fn advanced_all(s: Seq<ObsModel>, dt: int, speed: int) -> Seq<ObsModel> {
    s.map_values(|m: ObsModel| moved(m, dt, speed))
}

/// A whole frame's pruning: exactly the on-screen obstacles survive, in
/// their original order.
pub open spec fn pruned(s: Seq<ObsModel>) -> Seq<ObsModel> {
    s.filter(|m: ObsModel| on_screen(m))
}

/// The height of the shape drawn for a spawn roll, in pixels.
pub open spec fn rolled_height_px(kind: ObstacleKind, size_px: int) -> int {
    if kind == ObstacleKind::Vertical {
        size_px
    } else {
        50
    }
}

/// The random rolls a spawn may use on viewport `(w, h)`: the varying
/// side in its kind's range, and the top edge between the upper margin
/// and the lower band.  All in pixels.
pub open spec fn roll_ok(kind: ObstacleKind, w: int, h: int, size_px: int, y_px: int) -> bool {
    &&& (kind == ObstacleKind::Vertical ==> 100 <= size_px < h - 300)
    &&& (kind == ObstacleKind::Horizontal ==> 50 <= size_px < w - 500)
    &&& 50 <= y_px < h - rolled_height_px(kind, size_px) - 200
}

/// The obstacle built from a pair of rolls.
pub open spec fn rolled_model(kind: ObstacleKind, w: int, size_px: int, y_px: int) -> ObsModel {
    let wid = if kind == ObstacleKind::Vertical {
        50
    } else {
        size_px
    };
    ObsModel {
        kind,
        x: w * MILLI,
        y: y_px * MILLI,
        w: wid * MILLI,
        h: rolled_height_px(kind, size_px) * MILLI,
    }
}

/// What every spawn on viewport `(w, h)` (in pixels) guarantees: the
/// obstacle enters exactly at the right edge, its sizes lie in the
/// ranges of its kind, and it stays clear of the top margin (50 px) and
/// the bottom band (200 px).
pub open spec fn spawned_ok(m: ObsModel, kind: ObstacleKind, w: int, h: int) -> bool {
    &&& m.kind == kind
    &&& m.x == w * MILLI
    &&& (kind == ObstacleKind::Vertical ==> m.w == 50 * MILLI && 100 * MILLI <= m.h < h * MILLI
        - 300 * MILLI)
    &&& (kind == ObstacleKind::Horizontal ==> m.h == 50 * MILLI && 50 * MILLI <= m.w < w * MILLI
        - 500 * MILLI)
    &&& 50 * MILLI <= m.y
    &&& m.y + m.h < h * MILLI - 200 * MILLI
}

impl Obstacle {
    /// The deterministic tail of a spawn: build the obstacle that a pair
    /// of accepted rolls describes.
    pub fn from_rolls(kind: ObstacleKind, view_w: i64, view_h: i64, size_px: u32, y_px: u32) -> (o:
        Obstacle)
        requires
            viewport_ok(view_w as int, view_h as int),
            roll_ok(kind, view_w as int, view_h as int, size_px as int, y_px as int),
        ensures
            o@ == rolled_model(kind, view_w as int, size_px as int, y_px as int),
            spawned_ok(o@, kind, view_w as int, view_h as int),
            obstacle_wf(o@),
            on_screen(o@),
    {
        let (w_px, h_px): (i64, i64) = match kind {
            ObstacleKind::Vertical => (50, size_px as i64),
            ObstacleKind::Horizontal => (size_px as i64, 50),
        };
        Obstacle {
            kind,
            pos_x: view_w * MILLI,
            pos_y: (y_px as i64) * MILLI,
            width: w_px * MILLI,
            height: h_px * MILLI,
        }
    }

    /// Spawn an obstacle of the given kind at the right edge of the
    /// viewport (`view_w`, `view_h` in pixels), with its varying side
    /// and its top edge drawn at random within the kind's ranges.
    pub fn new(kind: ObstacleKind, view_w: i64, view_h: i64) -> (o: Obstacle)
        requires
            viewport_ok(view_w as int, view_h as int),
        ensures
            spawned_ok(o@, kind, view_w as int, view_h as int),
            obstacle_wf(o@),
            on_screen(o@),
    {
        let size_px: u32 = match kind {
            ObstacleKind::Vertical => rand_in(100, (view_h - 300) as u32),
            ObstacleKind::Horizontal => rand_in(50, (view_w - 500) as u32),
        };
        let band_px: u32 = match kind {
            ObstacleKind::Vertical => size_px,
            ObstacleKind::Horizontal => 50,
        };
        let y_px: u32 = rand_in(50, (view_h as u32) - band_px - 200);
        Obstacle::from_rolls(kind, view_w, view_h, size_px, y_px)
    }

    /// One frame of motion: `speed * dt_ms` milli-pixels to the left.
    pub fn advance(&mut self, dt_ms: i64, speed: i64)
        requires
            0 <= dt_ms <= DT_LIMIT,
            0 <= speed <= SPEED_LIMIT,
            old(self).pos_x <= COORD_LIMIT,
            -2 * COORD_LIMIT <= old(self).pos_x - speed * dt_ms,
        ensures
            final(self)@ == moved(old(self)@, dt_ms as int, speed as int),
    {
        proof {
            assert(0 <= speed * dt_ms <= 100_000_000) by (nonlinear_arith)
                requires
                    0 <= speed <= 1000,
                    0 <= dt_ms <= 100_000,
            ;
        }
        self.pos_x = self.pos_x - speed * dt_ms;
    }
}

/// Advance every obstacle by one frame at [`OBSTACLE_SPEED`].
pub fn advance_obstacles(obs: &mut Vec<Obstacle>, dt_ms: i64)
    requires
        0 <= dt_ms <= DT_LIMIT,
        forall|i: int|
            0 <= i < old(obs)@.len() ==> obstacle_wf(#[trigger] old(obs)@[i]@) && on_screen(
                old(obs)@[i]@,
            ),
    ensures
        models(final(obs)@) == advanced_all(models(old(obs)@), dt_ms as int, OBSTACLE_SPEED as int),
{
    let ghost orig: Seq<Obstacle> = obs@;
    let mut out: Vec<Obstacle> = Vec::new();
    let mut i: usize = 0;
    while i < obs.len()
        invariant
            obs@ == orig,
            0 <= i <= orig.len(),
            0 <= dt_ms <= DT_LIMIT,
            forall|j: int|
                0 <= j < orig.len() ==> obstacle_wf(#[trigger] orig[j]@) && on_screen(orig[j]@),
            out@.len() == i,
            forall|j: int|
                0 <= j < i ==> #[trigger] out@[j]@ == moved(
                    orig[j]@,
                    dt_ms as int,
                    OBSTACLE_SPEED as int,
                ),
        decreases orig.len() - i,
    {
        let mut o = obs[i];
        proof {
            assert(obstacle_wf(orig[i as int]@) && on_screen(orig[i as int]@));
            assert(0 <= 200 * dt_ms <= 20_000_000);
            assert(OBSTACLE_SPEED * dt_ms == 200 * dt_ms);
            assert(o.pos_x > -COORD_LIMIT);
        }
        o.advance(dt_ms, OBSTACLE_SPEED);
        out.push(o);
        i = i + 1;
    }
    *obs = out;
    proof {
        assert(models(obs@) =~= advanced_all(models(orig), dt_ms as int, OBSTACLE_SPEED as int));
    }
}

/// Drop every obstacle that has fully left the screen.  An obstacle is
/// removed exactly when `x + width <= 0`; the others keep their order.
pub fn prune_obstacles(obs: &mut Vec<Obstacle>)
    requires
        forall|i: int| 0 <= i < old(obs)@.len() ==> obstacle_wf(#[trigger] old(obs)@[i]@),
    ensures
        models(final(obs)@) == pruned(models(old(obs)@)),
{
    let ghost orig: Seq<Obstacle> = obs@;
    let mut out: Vec<Obstacle> = Vec::new();
    let mut i: usize = 0;
    proof {
        reveal(Seq::filter);
        assert(models(orig).take(0) =~= Seq::<ObsModel>::empty());
        assert(models(out@) =~= pruned(models(orig).take(0)));
    }
    while i < obs.len()
        invariant
            obs@ == orig,
            0 <= i <= orig.len(),
            forall|j: int| 0 <= j < orig.len() ==> obstacle_wf(#[trigger] orig[j]@),
            models(out@) == pruned(models(orig).take(i as int)),
        decreases orig.len() - i,
    {
        let o = obs[i];
        proof {
            assert(obstacle_wf(orig[i as int]@));
        }
        let ghost before = models(out@);
        if o.pos_x + o.width > 0 {
            out.push(o);
        }
        i = i + 1;
        proof {
            reveal(Seq::filter);
            let s = models(orig);
            assert(s.take(i as int).drop_last() =~= s.take(i as int - 1));
            assert(s.take(i as int).last() == orig[i as int - 1]@);
            if on_screen(orig[i as int - 1]@) {
                assert(models(out@) =~= before.push(orig[i as int - 1]@));
            } else {
                assert(models(out@) =~= before);
            }
        }
    }
    *obs = out;
    proof {
        assert(models(orig).take(orig.len() as int) =~= models(orig));
        assert(models(obs@) == pruned(models(orig)));
    }
}

/// Law: pruning keeps an obstacle exactly when it is still on screen;
/// one whose right edge sits at the left border (`x + width == 0`), or
/// past it, is removed, and any obstacle even one milli-pixel further
/// right is retained.
pub proof fn lemma_prune_membership(s: Seq<ObsModel>, m: ObsModel)
    ensures
        pruned(s).contains(m) <==> s.contains(m) && m.x + m.w > 0,
{
    if pruned(s).contains(m) {
        let i = choose|i: int| 0 <= i < pruned(s).len() && pruned(s)[i] == m;
        s.lemma_filter_pred(|q: ObsModel| on_screen(q), i);
        s.lemma_filter_contains_rev(|q: ObsModel| on_screen(q), m);
    }
    if s.contains(m) && m.x + m.w > 0 {
        let i = choose|i: int| 0 <= i < s.len() && s[i] == m;
        s.lemma_filter_contains(|q: ObsModel| on_screen(q), i);
    }
}

} // verus!
