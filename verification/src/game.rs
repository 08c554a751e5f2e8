//! The game session: the state machine over idle, playing and failed,
//! and the fixed per-frame update order (physics, distance, obstacle
//! motion, collision, pruning, spawning).

use vstd::prelude::*;

use crate::body::{body_step, body_wf, Body, BodyModel};
use crate::collision::{any_collision, body_hits_obstacle};
use crate::obstacle::{
    advanced_all, models, obstacle_wf, on_screen, pruned, spawned_ok, Obstacle, ObstacleKind,
    OBSTACLE_SPEED,
};
use crate::rng::rand_in;
use crate::textfmt::{fail_message_spec, fail_message_text};
use crate::units::{viewport_ok, COORD_LIMIT, DIST_LIMIT, DT_LIMIT, MILLI};

verus! {

/// The ceiling the body is clamped to, in milli-pixels.
pub const CEILING_Y: i64 = 50_000;

/// The game's top-level state.
#[derive(Clone, Copy, PartialEq, Eq, Structural, Debug)]
pub enum Phase {
    Idle,
    Playing,
    Failed,
}

/// The clickable start control: a centred rectangle with a label.
/// `pos_*` is the centre and `width`/`height` the full extent, all in
/// milli-pixels.
#[derive(Clone, Debug)]
pub struct Button {
    pub pos_x: i64,
    pub pos_y: i64,
    pub width: i64,
    pub height: i64,
    pub label: String,
}

/// Well-formedness of a button: it sits on the coordinate grid.
pub open spec fn button_wf(b: Button) -> bool {
    &&& 0 <= b.pos_x <= COORD_LIMIT
    &&& 0 <= b.pos_y <= COORD_LIMIT
    &&& 0 <= b.width <= COORD_LIMIT
    &&& 0 <= b.height <= COORD_LIMIT
}

/// A point lies strictly inside the button's rectangle.  Stated over
/// doubled coordinates so that the half-extents need no division.
pub open spec fn button_contains(b: Button, px: int, py: int) -> bool {
    &&& 2 * px > 2 * b.pos_x - b.width
    &&& 2 * px < 2 * b.pos_x + b.width
    &&& 2 * py > 2 * b.pos_y - b.height
    &&& 2 * py < 2 * b.pos_y + b.height
}

impl Button {
    /// A button centred at the given point.
    pub fn new(pos_x: i64, pos_y: i64, width: i64, height: i64, label: String) -> (b: Button)
        requires
            0 <= pos_x <= COORD_LIMIT,
            0 <= pos_y <= COORD_LIMIT,
            0 <= width <= COORD_LIMIT,
            0 <= height <= COORD_LIMIT,
        ensures
            b == (Button { pos_x, pos_y, width, height, label }),
            button_wf(b),
    {
        Button { pos_x, pos_y, width, height, label }
    }

    /// Is the point strictly inside the button?
    pub fn contains_point(&self, px: i64, py: i64) -> (r: bool)
        requires
            button_wf(*self),
            -COORD_LIMIT <= px <= COORD_LIMIT,
            -COORD_LIMIT <= py <= COORD_LIMIT,
        ensures
            r == button_contains(*self, px as int, py as int),
    {
        2 * px > 2 * self.pos_x - self.width && 2 * px < 2 * self.pos_x + self.width && 2 * py > 2
            * self.pos_y - self.height && 2 * py < 2 * self.pos_y + self.height
    }
}

/// Everything one frame of input tells the game: the elapsed time, the
/// polled keys and mouse, and the live viewport size (in pixels).
#[derive(Clone, Copy, Debug)]
pub struct FrameInput {
    pub dt_ms: i64,
    pub jump_held: bool,
    pub mouse_pressed: bool,
    pub mouse_x: i64,
    pub mouse_y: i64,
    pub restart_pressed: bool,
    pub view_w: i64,
    pub view_h: i64,
}

/// The inputs an update accepts: a non-negative bounded frame time, a
/// viewport on which spawning is well defined, and mouse coordinates on
/// the grid.
pub open spec fn input_ok(inp: FrameInput) -> bool {
    &&& 0 <= inp.dt_ms <= DT_LIMIT
    &&& viewport_ok(inp.view_w as int, inp.view_h as int)
    &&& -COORD_LIMIT <= inp.mouse_x <= COORD_LIMIT
    &&& -COORD_LIMIT <= inp.mouse_y <= COORD_LIMIT
}

/// The floor the body is clamped to on a viewport of height `h` pixels:
/// 50 pixels above the bottom edge.
pub open spec fn floor_for(h: int) -> int {
    h * MILLI - 50 * MILLI
}

/// One full game session.
#[derive(Clone, Debug)]
pub struct GameState {
    pub player: Body,
    pub start_button: Button,
    pub phase: Phase,
    pub obstacles: Vec<Obstacle>,
    pub fail_message: String,
    pub distance: i64,
}

/// Well-formedness of a session: body and button on the grid, a
/// non-negative distance, and every held obstacle well-formed and still
/// at least partly on screen.
pub open spec fn game_wf(g: GameState) -> bool {
    &&& body_wf(g.player@)
    &&& button_wf(g.start_button)
    &&& 0 <= g.distance
    &&& forall|i: int|
        0 <= i < g.obstacles@.len() ==> obstacle_wf(#[trigger] g.obstacles@[i]@) && on_screen(
            g.obstacles@[i]@,
        )
}

/// A freshly constructed session on viewport `(w, h)` (in pixels): idle,
/// zero distance, no obstacles, no message, the body resting 100 pixels
/// above the bottom edge, and the start control centred on the screen.
pub open spec fn is_initial(g: GameState, w: int, h: int) -> bool {
    &&& g.phase == Phase::Idle
    &&& g.player@ == (BodyModel {
        x: 100 * MILLI,
        y: (h - 100) * MILLI,
        vx: 0,
        vy: 0,
        grounded: false,
    })
    &&& g.start_button.pos_x == w * 500
    &&& g.start_button.pos_y == h * 500
    &&& g.start_button.width == 200 * MILLI
    &&& g.start_button.height == 100 * MILLI
    &&& g.start_button.label@ == "Start"@
    &&& g.obstacles@.len() == 0
    &&& g.fail_message@ == Seq::<char>::empty()
    &&& g.distance == 0
}

/// What one playing frame does, deterministically up to the spawn roll:
/// the body steps, the distance grows at two pixels per second, every
/// obstacle moves left, a hit latches the failed phase with the frozen
/// distance in the message, off-screen obstacles are dropped, and only
/// a non-failing frame may append one freshly spawned obstacle.
pub open spec fn playing_post(g0: GameState, g1: GameState, inp: FrameInput) -> bool {
    let dt = inp.dt_ms as int;
    let body1 = body_step(g0.player@, dt, inp.jump_held, CEILING_Y as int, floor_for(
        inp.view_h as int,
    ));
    let adv = advanced_all(models(g0.obstacles@), dt, OBSTACLE_SPEED as int);
    let hit = exists|i: int| 0 <= i < adv.len() && body_hits_obstacle(body1, #[trigger] adv[i]);
    let kept = pruned(adv);
    &&& g1.player@ == body1
    &&& g1.distance == g0.distance + 2 * dt
    &&& g1.start_button == g0.start_button
    &&& (hit ==> g1.phase == Phase::Failed && g1.fail_message@ == fail_message_spec(
        (g0.distance + 2 * dt) as nat,
    ) && models(g1.obstacles@) == kept)
    &&& (!hit ==> g1.phase == Phase::Playing && g1.fail_message == g0.fail_message && (models(
        g1.obstacles@,
    ) == kept || (models(g1.obstacles@).len() == kept.len() + 1 && models(g1.obstacles@).take(
        kept.len() as int,
    ) == kept && spawned_ok(
        models(g1.obstacles@).last(),
        models(g1.obstacles@).last().kind,
        inp.view_w as int,
        inp.view_h as int,
    ))))
}

impl GameState {
    /// A fresh session on the given viewport (in pixels).
    pub fn new(view_w: i64, view_h: i64) -> (g: GameState)
        requires
            viewport_ok(view_w as int, view_h as int),
        ensures
            is_initial(g, view_w as int, view_h as int),
            game_wf(g),
    {
        let player = Body::new(100 * MILLI, (view_h - 100) * MILLI);
        let start_button = Button::new(
            view_w * 500,
            view_h * 500,
            200 * MILLI,
            100 * MILLI,
            "Start".to_owned(),
        );
        GameState {
            player,
            start_button,
            phase: Phase::Idle,
            obstacles: Vec::new(),
            fail_message: String::new(),
            distance: 0,
        }
    }

    /// One frame.  While idle, a click inside the start control begins
    /// play and nothing else has any effect.  While playing, the frame
    /// runs in the fixed order physics, distance, obstacle motion,
    /// collision, pruning, spawning.  While failed, the restart key
    /// rebuilds a fresh session on the current viewport and any other
    /// input leaves the session exactly as it was.
    pub fn update(&mut self, input: &FrameInput)
        requires
            game_wf(*old(self)),
            input_ok(*input),
            old(self).distance + 2 * input.dt_ms <= DIST_LIMIT,
        ensures
            game_wf(*final(self)),
            old(self).phase == Phase::Idle ==> if input.mouse_pressed && button_contains(
                old(self).start_button,
                input.mouse_x as int,
                input.mouse_y as int,
            ) {
                *final(self) == (GameState { phase: Phase::Playing, ..*old(self) })
            } else {
                *final(self) == *old(self)
            },
            old(self).phase == Phase::Playing ==> playing_post(*old(self), *final(self), *input),
            old(self).phase == Phase::Failed ==> if input.restart_pressed {
                is_initial(*final(self), input.view_w as int, input.view_h as int)
            } else {
                *final(self) == *old(self)
            },
    {
        match self.phase {
            Phase::Idle => {
                if input.mouse_pressed && self.start_button.contains_point(
                    input.mouse_x,
                    input.mouse_y,
                ) {
                    self.phase = Phase::Playing;
                }
            },
            Phase::Playing => {
                self.step_playing(input);
            },
            Phase::Failed => {
                if input.restart_pressed {
                    *self = GameState::new(input.view_w, input.view_h);
                }
            },
        }
    }

    fn step_playing(&mut self, input: &FrameInput)
        requires
            game_wf(*old(self)),
            input_ok(*input),
            old(self).phase == Phase::Playing,
            old(self).distance + 2 * input.dt_ms <= DIST_LIMIT,
        ensures
            game_wf(*final(self)),
            playing_post(*old(self), *final(self), *input),
    {
        let ghost adv = advanced_all(
            models(old(self).obstacles@),
            input.dt_ms as int,
            OBSTACLE_SPEED as int,
        );
        let floor_y = input.view_h * MILLI - 50 * MILLI;
        self.player.update(input.dt_ms, input.jump_held, CEILING_Y, floor_y);
        self.distance = self.distance + 2 * input.dt_ms;
        let ghost pre_obs: Seq<Obstacle> = self.obstacles@;
        proof {
            assert(pre_obs == old(self).obstacles@);
        }
        crate::obstacle::advance_obstacles(&mut self.obstacles, input.dt_ms);
        proof {
            assert(models(self.obstacles@) == advanced_all(
                models(pre_obs),
                input.dt_ms as int,
                OBSTACLE_SPEED as int,
            ));
            assert forall|i: int| 0 <= i < self.obstacles@.len() implies obstacle_wf(
                #[trigger] self.obstacles@[i]@,
            ) by {
                assert(models(self.obstacles@)[i] == adv[i]);
                assert(obstacle_wf(old(self).obstacles@[i]@) && on_screen(
                    old(self).obstacles@[i]@,
                ));
            }
        }
        let hit = any_collision(&self.player, &self.obstacles);
        if hit {
            self.phase = Phase::Failed;
            self.fail_message = fail_message_text(self.distance as u64);
        }
        crate::obstacle::prune_obstacles(&mut self.obstacles);
        proof {
            lemma_pruned_all_wf(adv);
            assert(models(self.obstacles@) == pruned(adv));
            assert forall|i: int| 0 <= i < self.obstacles@.len() implies obstacle_wf(
                #[trigger] self.obstacles@[i]@,
            ) && on_screen(self.obstacles@[i]@) by {
                assert(models(self.obstacles@)[i] == pruned(adv)[i]);
            }
        }
        if !hit {
            let roll = rand_in(0, 100);
            if roll < 1 {
                let ghost kept = models(self.obstacles@);
                let kroll = rand_in(0, 2);
                let kind = if kroll == 0 {
                    ObstacleKind::Vertical
                } else {
                    ObstacleKind::Horizontal
                };
                let ob = Obstacle::new(kind, input.view_w, input.view_h);
                self.obstacles.push(ob);
                proof {
                    assert(models(self.obstacles@).take(kept.len() as int) =~= kept);
                    assert(models(self.obstacles@).last() == ob@);
                    assert forall|i: int| 0 <= i < self.obstacles@.len() implies obstacle_wf(
                        #[trigger] self.obstacles@[i]@,
                    ) && on_screen(self.obstacles@[i]@) by {
                        if i < kept.len() {
                            assert(models(self.obstacles@)[i] == kept[i]);
                            assert(kept[i] == pruned(adv)[i]);
                        } else {
                            assert(models(self.obstacles@)[i] == ob@);
                        }
                    }
                }
            }
        }
    }
}

/// Every obstacle a pruning keeps is well-formed and on screen, when
/// the pruned obstacles all were well-formed.
proof fn lemma_pruned_all_wf(s: Seq<crate::obstacle::ObsModel>)
    requires
        forall|i: int| 0 <= i < s.len() ==> obstacle_wf(#[trigger] s[i]),
    ensures
        forall|i: int|
            0 <= i < pruned(s).len() ==> obstacle_wf(#[trigger] pruned(s)[i]) && on_screen(
                pruned(s)[i],
            ),
{
    assert forall|i: int| 0 <= i < pruned(s).len() implies obstacle_wf(#[trigger] pruned(s)[i])
        && on_screen(pruned(s)[i]) by {
        s.lemma_filter_pred(|m: crate::obstacle::ObsModel| on_screen(m), i);
        assert(pruned(s).contains(pruned(s)[i]));
        s.lemma_filter_contains_rev(|m: crate::obstacle::ObsModel| on_screen(m), pruned(s)[i]);
        let j = choose|j: int| 0 <= j < s.len() && s[j] == pruned(s)[i];
        assert(obstacle_wf(s[j]));
    }
}

} // verus!
