//! The scene orchestrator: owner of the single live world and of the
//! stepping cadence. Commands only record intent; each frame tick applies
//! them in a fixed order and hands back the engine operations the
//! presentation shell must perform, so a rendered frame always reflects a
//! fully stepped, fully rebuilt-or-untouched world.

use vstd::prelude::*;
use crate::body::Shape;
use crate::math::{Vec2, UNIT};
use crate::body::{COORD_LIMIT, BodyModel, vec2_ok};
use crate::rng::{Rng, lcg_iter};
use crate::scenarios::{
    SCENARIO_COUNT,
    bomb_body,
    build_scenario,
    launch_bomb,
    scenario_bodies,
    scenario_joints,
    scenario_rng_after,
};
use crate::overlay::{Color, SimulationSettings, default_settings};
use crate::tuning::tuning_inputs_ok;
use crate::world::{World, WorldModel};

verus! {

/// Which narrow-phase routine a contact re-query must invoke.
#[derive(Clone, Copy, Debug, PartialEq, Eq, Structural)]
pub enum CollideRoutine {
    /// The specialized box-box routine.
    BoxBox,
    /// The general convex-polygon routine.
    Polygons,
}

/// One operation the presentation shell must perform against the physics
/// engine, in the order returned.
#[derive(Clone, Copy, Debug, PartialEq, Eq, Structural)]
pub enum EngineOp {
    /// Advance the engine by the configured time step, negated if
    /// `backward` (reverse stepping is an approximation, not an undo).
    Step { backward: bool },
    /// Discard the engine's world and rebuild it from the orchestrator's
    /// current world description.
    Rebuild,
    /// Hand the body at `index` of the current world to the engine.
    SpawnBody { index: usize },
    /// Overwrite the engine-side position of the body at `index`.
    SetPosition { index: usize, position: Vec2 },
    /// Clear the contacts of the two designated bodies and re-run the given
    /// narrow-phase routine on them.
    RecomputeContacts { routine: CollideRoutine, body_a: usize, body_b: usize },
}

/// The narrow-phase routine selected from two shape kinds: only two boxes
/// take the specialized box routine; every other combination takes the
/// general convex-polygon routine.
pub open spec fn routine_for_spec(a: Shape, b: Shape) -> CollideRoutine {
    if a == Shape::Box && b == Shape::Box {
        CollideRoutine::BoxBox
    } else {
        CollideRoutine::Polygons
    }
}

/// Selects the narrow-phase routine for two shape kinds.
pub fn routine_for(a: Shape, b: Shape) -> (r: CollideRoutine)
    ensures
        r == routine_for_spec(a, b),
{
    match (a, b) {
        (Shape::Box, Shape::Box) => CollideRoutine::BoxBox,
        _ => CollideRoutine::Polygons,
    }
}

/// The box-box routine is chosen exactly when both bodies are boxes; any
/// other pairing, a box against a polygon included, takes the general
/// routine.
pub proof fn lemma_dispatch_box_iff_both_boxes(a: Shape, b: Shape)
    ensures
        (routine_for_spec(a, b) == CollideRoutine::BoxBox) <==> (a == Shape::Box && b
            == Shape::Box),
{
}

/// The orchestrator: the control flags, the selected scenario, the stepping
/// cadence, the seeded generator and the single live world description.
pub struct Orchestrator {
    /// False until the first frame tick has built the initial scenario.
    pub started: bool,
    /// The scenario the next reload will build.
    pub demo_index: u32,
    /// Set by `request_reload`; applied, then cleared, on the next tick.
    pub pending_reload: bool,
    /// Set by `request_bomb`; applied, then cleared, on the next tick.
    pub bomb_pending: bool,
    /// The forward time step, fixed at construction.
    pub time_step: i64,
    /// The panel-mutable settings, owned here and read by the shell when it
    /// steps the engine and draws the overlay.
    pub settings: SimulationSettings,
    pub rng: Rng,
    pub world: World,
}

/// The mathematical value of an `Orchestrator`.
pub struct OrchModel {
    pub started: bool,
    pub demo_index: u32,
    pub pending_reload: bool,
    pub bomb_pending: bool,
    pub time_step: i64,
    pub settings: SimulationSettings,
    pub rng_state: u64,
    pub world: WorldModel,
}

impl View for Orchestrator {
    type V = OrchModel;

    open spec fn view(&self) -> OrchModel {
        OrchModel {
            started: self.started,
            demo_index: self.demo_index,
            pending_reload: self.pending_reload,
            bomb_pending: self.bomb_pending,
            time_step: self.time_step,
            settings: self.settings,
            rng_state: self.rng.state,
            world: self.world@,
        }
    }
}

/// A time step the orchestrator accepts: positive, at most one second, and
/// coarse enough for the bridge's and the multi-pendulum's soft-joint
/// tuning, which is derived from it.
pub open spec fn step_ok(h: i64) -> bool {
    &&& 0 < h <= UNIT
    &&& tuning_inputs_ok(10_000_000, 2_000_000, 700_000, h as int)
    &&& tuning_inputs_ok(10_000_000, 4_000_000, 700_000, h as int)
}

/// The default step of one sixtieth of a second is an accepted time step.
pub proof fn lemma_default_time_step_ok()
    ensures
        step_ok(crate::scenarios::DEFAULT_TIME_STEP),
{
    crate::scenarios::lemma_demo7_tuning_inputs_ok();
    crate::scenarios::lemma_demo9_tuning_inputs_ok();
}

impl OrchModel {
    pub open spec fn wf(self) -> bool {
        step_ok(self.time_step)
    }
}

/// The first tick behaves as a forced reload of the selected scenario: an
/// orchestrator that has not started is treated as started with a reload
/// pending.
pub open spec fn forced_start(s: OrchModel) -> OrchModel {
    if s.started {
        s
    } else {
        OrchModel { started: true, pending_reload: true, ..s }
    }
}

/// Whether the tick will rebuild the world: a reload is pending and the
/// selected id lies in the catalog. An id outside the catalog clears the
/// flag but leaves the world untouched.
pub open spec fn reload_applies(s: OrchModel) -> bool {
    s.pending_reload && s.demo_index < SCENARIO_COUNT
}

/// The state after the tick's reload check: the pending flag is cleared,
/// and the world is replaced by the selected scenario exactly when the id
/// lies in the catalog.
pub open spec fn after_reload(s: OrchModel) -> OrchModel {
    if !s.pending_reload {
        s
    } else if s.demo_index < SCENARIO_COUNT {
        OrchModel {
            pending_reload: false,
            rng_state: scenario_rng_after(s.demo_index, s.rng_state),
            world: WorldModel {
                gravity: s.world.gravity,
                iterations: s.world.iterations,
                bodies: scenario_bodies(s.demo_index, s.time_step, s.rng_state),
                joints: scenario_joints(s.demo_index, s.time_step),
            },
            ..s
        }
    } else {
        OrchModel { pending_reload: false, ..s }
    }
}

/// The state after the tick's projectile check: a pending projectile is
/// appended to the world's bodies and the flag cleared.
pub open spec fn after_bomb(s: OrchModel) -> OrchModel {
    if s.bomb_pending {
        OrchModel {
            bomb_pending: false,
            rng_state: lcg_iter(s.rng_state, 3),
            world: WorldModel { bodies: s.world.bodies.push(bomb_body(s.rng_state)), ..s.world },
            ..s
        }
    } else {
        s
    }
}

/// The orchestrator state one frame tick leaves behind.
pub open spec fn tick_state(s: OrchModel) -> OrchModel {
    after_bomb(after_reload(forced_start(s)))
}

/// The engine operations one frame tick emits, in order: on the first tick
/// the initial scenario is built and then stepped once; on every later tick
/// the engine steps first and a pending reload is applied after, so the
/// frame being rendered is never rebuilt under it.
pub open spec fn tick_ops(s: OrchModel) -> Seq<EngineOp> {
    let s1 = forced_start(s);
    let step = seq![EngineOp::Step { backward: false }];
    let rebuild: Seq<EngineOp> = if reload_applies(s1) {
        seq![EngineOp::Rebuild]
    } else {
        Seq::empty()
    };
    let core: Seq<EngineOp> = if s.started {
        step + rebuild
    } else {
        rebuild + step
    };
    let s2 = after_reload(s1);
    let bomb: Seq<EngineOp> = if s2.bomb_pending {
        seq![EngineOp::SpawnBody { index: s2.world.bodies.len() as usize }]
    } else {
        Seq::empty()
    };
    core + bomb
}

impl Orchestrator {
    /// A not-yet-started orchestrator over an empty world, with the settings
    /// at their documented defaults: the first tick will build scenario 0
    /// unless another is selected before it.
    pub fn new(gravity: Vec2, iterations: u32, time_step: i64, seed: u64) -> (r: Orchestrator)
        requires
            step_ok(time_step),
        ensures
            r@ == (OrchModel {
                started: false,
                demo_index: 0,
                pending_reload: false,
                bomb_pending: false,
                time_step,
                settings: default_settings(),
                rng_state: seed,
                world: WorldModel {
                    gravity,
                    iterations,
                    bodies: Seq::empty(),
                    joints: Seq::empty(),
                },
            }),
            r@.wf(),
    {
        Orchestrator {
            started: false,
            demo_index: 0,
            pending_reload: false,
            bomb_pending: false,
            time_step,
            settings: SimulationSettings {
                scale: 18_000_000,
                x_translate: 0,
                y_translate: 0,
                marker_color: Color { r: 255, g: 255, b: 255 },
                warm_starting: true,
                position_correction: true,
                accumulate_impulse: true,
            },
            rng: Rng::new(seed),
            world: World::new(gravity, iterations),
        }
    }

    /// Records the scenario the next reload will build; the world is not
    /// touched, so the frame being rendered cannot change under the render.
    pub fn select_scenario(&mut self, id: u32)
        ensures
            final(self)@ == (OrchModel { demo_index: id, ..old(self)@ }),
    {
        self.demo_index = id;
    }

    /// Requests a rebuild of the selected scenario on the next tick; nothing
    /// else changes, so the current tick still renders the present world.
    pub fn request_reload(&mut self)
        ensures
            final(self)@ == (OrchModel { pending_reload: true, ..old(self)@ }),
    {
        self.pending_reload = true;
    }

    /// Requests a projectile spawn on the next tick.
    pub fn request_bomb(&mut self)
        ensures
            final(self)@ == (OrchModel { bomb_pending: true, ..old(self)@ }),
    {
        self.bomb_pending = true;
    }

    /// One immediate engine step forward or backward, outside the frame
    /// cadence; the orchestrator's own state does not change.
    pub fn step_once(&self, backward: bool) -> (op: EngineOp)
        ensures
            op == (EngineOp::Step { backward }),
    {
        EngineOp::Step { backward }
    }

    /// One frame tick: applies the commands accumulated since the last tick
    /// in the documented order and returns the engine operations to perform.
    #[verifier::rlimit(100)]
    pub fn tick(&mut self) -> (ops: Vec<EngineOp>)
        requires
            old(self)@.wf(),
        ensures
            final(self)@ == tick_state(old(self)@),
            ops@ == tick_ops(old(self)@),
            final(self)@.wf(),
    {
        let mut ops: Vec<EngineOp> = Vec::new();
        if !self.started {
            self.started = true;
            let loaded = build_scenario(
                &mut self.world,
                self.demo_index,
                self.time_step,
                &mut self.rng,
            );
            self.pending_reload = false;
            if loaded {
                ops.push(EngineOp::Rebuild);
            }
            ops.push(EngineOp::Step { backward: false });
        } else {
            ops.push(EngineOp::Step { backward: false });
            if self.pending_reload {
                let loaded = build_scenario(
                    &mut self.world,
                    self.demo_index,
                    self.time_step,
                    &mut self.rng,
                );
                if loaded {
                    ops.push(EngineOp::Rebuild);
                }
                self.pending_reload = false;
            }
        }
        proof {
            assert(self@ == after_reload(forced_start(old(self)@)));
        }
        if self.bomb_pending {
            let idx = self.world.bodies.len();
            launch_bomb(&mut self.world, &mut self.rng);
            ops.push(EngineOp::SpawnBody { index: idx });
            self.bomb_pending = false;
        }
        proof {
            assert(self@ == tick_state(old(self)@));
            assert(ops@ =~= tick_ops(old(self)@));
        }
        ops
    }

    /// Nudges the designated body — by convention the second body the active
    /// scenario added — by `(dx, dy)`, bypassing the engine's integration.
    /// A world with fewer than two bodies, or a nudge that would leave the
    /// library's coordinate range, is ignored.
    pub fn perturb_body(&mut self, dx: i64, dy: i64) -> (op: Option<EngineOp>)
        requires
            -(COORD_LIMIT as int) <= dx as int <= COORD_LIMIT as int,
            -(COORD_LIMIT as int) <= dy as int <= COORD_LIMIT as int,
        ensures
            ({
                let s = old(self)@;
                let target = s.world.bodies[1];
                let moved = Vec2 {
                    x: (target.position.x + dx) as i64,
                    y: (target.position.y + dy) as i64,
                };
                if s.world.bodies.len() >= 2 && vec2_ok(target.position) && vec2_ok(moved) {
                    &&& op == Some(EngineOp::SetPosition { index: 1usize, position: moved })
                    &&& final(self)@ == (OrchModel {
                        world: WorldModel {
                            bodies: s.world.bodies.update(
                                1,
                                BodyModel { position: moved, ..target },
                            ),
                            ..s.world
                        },
                        ..s
                    })
                } else {
                    op == None::<EngineOp> && final(self)@ == s
                }
            }),
    {
        if self.world.bodies.len() < 2 {
            return None;
        }
        let p = self.world.bodies[1].position;
        if !(-COORD_LIMIT <= p.x && p.x <= COORD_LIMIT && -COORD_LIMIT <= p.y && p.y
            <= COORD_LIMIT) {
            return None;
        }
        let nx: i64 = p.x + dx;
        let ny: i64 = p.y + dy;
        if !(-COORD_LIMIT <= nx && nx <= COORD_LIMIT && -COORD_LIMIT <= ny && ny <= COORD_LIMIT) {
            return None;
        }
        let moved = Vec2 { x: nx, y: ny };
        let mut b = self.world.bodies.remove(1);
        b.position = moved;
        self.world.bodies.insert(1, b);
        proof {
            assert(self@.world.bodies =~= old(self)@.world.bodies.update(
                1,
                BodyModel { position: moved, ..old(self)@.world.bodies[1] },
            ));
        }
        Some(EngineOp::SetPosition { index: 1, position: moved })
    }

    /// Clears the contacts of the two designated bodies and re-runs the
    /// narrow-phase routine selected by their shape kinds: the specialized
    /// box routine exactly when both are boxes, the general convex-polygon
    /// routine otherwise. A world with fewer than two bodies is ignored.
    pub fn recompute_contacts(&self) -> (op: Option<EngineOp>)
        ensures
            ({
                let s = self@;
                if s.world.bodies.len() >= 2 {
                    op == Some(
                        EngineOp::RecomputeContacts {
                            routine: routine_for_spec(
                                s.world.bodies[0].shape,
                                s.world.bodies[1].shape,
                            ),
                            body_a: 0usize,
                            body_b: 1usize,
                        },
                    )
                } else {
                    op == None::<EngineOp>
                }
            }),
    {
        if self.world.bodies.len() < 2 {
            return None;
        }
        let a = self.world.bodies[0].shape;
        let b = self.world.bodies[1].shape;
        Some(EngineOp::RecomputeContacts { routine: routine_for(a, b), body_a: 0, body_b: 1 })
    }
}

/// Selecting a scenario id outside the catalog leaves the world unchanged
/// after the next tick: the tick behaves exactly as if no reload had been
/// requested — no clear, no rebuild, the flag merely consumed — and with no
/// other command pending it emits one ordinary step and nothing else.
pub proof fn lemma_invalid_selection_is_no_op(s: OrchModel)
    requires
        s.started,
        s.demo_index >= SCENARIO_COUNT,
    ensures
        tick_state(s) == tick_state(OrchModel { pending_reload: false, ..s }),
        tick_ops(s) == tick_ops(OrchModel { pending_reload: false, ..s }),
        !tick_state(s).pending_reload,
        tick_state(s).world == after_bomb(s).world,
        !s.bomb_pending ==> tick_state(s).world == s.world,
        !s.bomb_pending ==> tick_ops(s) =~= seq![EngineOp::Step { backward: false }],
{
    assert(tick_ops(s) =~= tick_ops(OrchModel { pending_reload: false, ..s }));
}

/// A reload request is deferred: the tick that issued it still holds — and
/// so still renders — the pre-reload world, because the request changes the
/// pending flag alone; only the following tick replaces the world with the
/// selected scenario (plus the projectile, if one was also pending).
pub proof fn lemma_reload_deferred(s: OrchModel)
    requires
        s.started,
        s.demo_index < SCENARIO_COUNT,
    ensures
        (OrchModel { pending_reload: true, ..s }).world == s.world,
        tick_state(OrchModel { pending_reload: true, ..s }).world.joints == scenario_joints(
            s.demo_index,
            s.time_step,
        ),
        !s.bomb_pending ==> tick_state(OrchModel { pending_reload: true, ..s }).world.bodies
            == scenario_bodies(s.demo_index, s.time_step, s.rng_state),
        s.bomb_pending ==> tick_state(OrchModel { pending_reload: true, ..s }).world.bodies
            == scenario_bodies(s.demo_index, s.time_step, s.rng_state).push(
            bomb_body(scenario_rng_after(s.demo_index, s.rng_state)),
        ),
{
}

} // verus!
