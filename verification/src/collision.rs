//! Axis-aligned bounding-box collision between the body and obstacles.

use vstd::prelude::*;

use crate::body::{body_wf, Body, BodyModel};
use crate::obstacle::{models, obstacle_wf, ObsModel, Obstacle};

verus! {

/// Two axis-aligned rectangles, given by their top-left corner and size,
/// intersect with positive area.
pub open spec fn rects_overlap(
    ax: int,
    ay: int,
    aw: int,
    ah: int,
    bx: int,
    by: int,
    bw: int,
    bh: int,
) -> bool {
    ax < bx + bw && bx < ax + aw && ay < by + bh && by < ay + ah
}

/// The body's hitbox against an obstacle's: the body covers 30 x 50
/// pixels anchored 15 px left and 10 px up of its position; the obstacle
/// counts as 16 px lower and 16 px taller than its nominal box, matching
/// its drawn footprint.
pub open spec fn body_hits_obstacle(b: BodyModel, o: ObsModel) -> bool {
    rects_overlap(
        b.x - 15_000,
        b.y - 10_000,
        30_000,
        50_000,
        o.x,
        o.y + 16_000,
        o.w,
        o.h + 16_000,
    )
}

/// Does the body's hitbox intersect this obstacle's hitbox?
pub fn overlaps(body: &Body, ob: &Obstacle) -> (r: bool)
    requires
        body_wf(body@),
        obstacle_wf(ob@),
    ensures
        r == body_hits_obstacle(body@, ob@),
{
    let ax = body.pos_x - 15_000;
    let ay = body.pos_y - 10_000;
    let by = ob.pos_y + 16_000;
    ax < ob.pos_x + ob.width && ob.pos_x < ax + 30_000 && ay < by + ob.height + 16_000 && by < ay
        + 50_000
}

/// Does the body's hitbox intersect any obstacle's hitbox?
pub fn any_collision(body: &Body, obs: &Vec<Obstacle>) -> (r: bool)
    requires
        body_wf(body@),
        forall|i: int| 0 <= i < obs@.len() ==> obstacle_wf(#[trigger] obs@[i]@),
    ensures
        r == exists|i: int|
            0 <= i < obs@.len() && body_hits_obstacle(body@, #[trigger] models(obs@)[i]),
{
    let mut i: usize = 0;
    while i < obs.len()
        invariant
            body_wf(body@),
            forall|j: int| 0 <= j < obs@.len() ==> obstacle_wf(#[trigger] obs@[j]@),
            0 <= i <= obs@.len(),
            forall|j: int| 0 <= j < i ==> !body_hits_obstacle(body@, #[trigger] models(obs@)[j]),
        decreases obs@.len() - i,
    {
        if overlaps(body, &obs[i]) {
            proof {
                assert(body_hits_obstacle(body@, models(obs@)[i as int]));
            }
            return true;
        }
        i = i + 1;
    }
    false
}

} // verus!
