//! The scenario catalog: a fixed set of construction procedures, each a pure
//! function from a freshly cleared world (plus the time step and a random
//! seed where needed) to a fully determined arrangement of bodies and joints.
//!
//! Every body's shape, mass, pose, velocity and friction, and every joint's
//! anchor and tuning, is pinned by the spec sequences below, so building the
//! same scenario twice yields identical worlds.

use vstd::prelude::*;
use crate::math::Vec2;
use crate::body::{Body, BodyModel, Mass, box_model, polygon_model, scale_vertices};
use crate::rng::{Rng, lcg_iter, lcg_next};
use crate::math::fx_mul_spec;
use crate::tuning::{
    JointTuning,
    soft_joint_tuning,
    softness_spec,
    bias_factor_spec,
    tuning_inputs_ok,
    omega_spec,
    damping_spec,
    stiffness_spec,
    denom_spec,
};
use crate::world::{Joint, World, WorldModel, joint_model};

verus! {

/// A box body of full extents `(wx, wy)` and the given mass at rest at
/// `(x, y)`, rotated by `rot`, with friction `fr`; nothing is left to an
/// engine default.
pub open spec fn box_at(wx: i64, wy: i64, mass: Mass, x: i64, y: i64, rot: i64, fr: i64) -> BodyModel {
    BodyModel {
        position: Vec2 { x, y },
        rotation: rot,
        friction: fr,
        ..box_model(Vec2 { x: wx, y: wy }, mass)
    }
}

/// The immovable floor shared by the scenarios: a `wx` by 20 box whose top
/// edge lies on the x axis.
pub open spec fn ground_model(wx: i64) -> BodyModel {
    box_at(wx, 20_000_000, Mass::Infinite, 0, -10_000_000i64, 0, 200_000)
}

/// Adds a box body with the given pose and friction.
fn add_box(world: &mut World, wx: i64, wy: i64, mass: Mass, x: i64, y: i64, rot: i64, fr: i64) -> (idx: usize)
    ensures
        idx == old(world)@.bodies.len(),
        final(world)@.bodies == old(world)@.bodies.push(box_at(wx, wy, mass, x, y, rot, fr)),
        final(world)@.joints == old(world)@.joints,
        final(world)@.gravity == old(world)@.gravity,
        final(world)@.iterations == old(world)@.iterations,
{
    let mut b = Body::new_box(Vec2 { x: wx, y: wy }, mass);
    b.position = Vec2 { x, y };
    b.rotation = rot;
    b.friction = fr;
    world.add_body(b)
}

/// The six body-local vertices of the hexagon used by the polygon scenarios.
pub open spec fn hexagon_vertices() -> Seq<Vec2> {
    seq![
        Vec2 { x: 0, y: 1_000_000 },
        Vec2 { x: -870_000i64, y: 500_000 },
        Vec2 { x: -870_000i64, y: -500_000i64 },
        Vec2 { x: 0, y: -1_000_000i64 },
        Vec2 { x: 870_000, y: -500_000i64 },
        Vec2 { x: 870_000, y: 500_000 },
    ]
}

/// The five body-local vertices of the pentagon used by the polygon
/// scenarios.
pub open spec fn pentagon_vertices() -> Seq<Vec2> {
    seq![
        Vec2 { x: 0, y: 1_000_000 },
        Vec2 { x: -950_000i64, y: 310_000 },
        Vec2 { x: -590_000i64, y: -810_000i64 },
        Vec2 { x: 590_000, y: -810_000i64 },
        Vec2 { x: 950_000, y: 310_000 },
    ]
}

fn hexagon_vec() -> (r: Vec<Vec2>)
    ensures
        r@ == hexagon_vertices(),
{
    let r = vec![
        Vec2 { x: 0, y: 1_000_000 },
        Vec2 { x: -870_000, y: 500_000 },
        Vec2 { x: -870_000, y: -500_000 },
        Vec2 { x: 0, y: -1_000_000 },
        Vec2 { x: 870_000, y: -500_000 },
        Vec2 { x: 870_000, y: 500_000 },
    ];
    proof {
        assert(r@ =~= hexagon_vertices());
    }
    r
}

fn pentagon_vec() -> (r: Vec<Vec2>)
    ensures
        r@ == pentagon_vertices(),
{
    let r = vec![
        Vec2 { x: 0, y: 1_000_000 },
        Vec2 { x: -950_000, y: 310_000 },
        Vec2 { x: -590_000, y: -810_000 },
        Vec2 { x: 590_000, y: -810_000 },
        Vec2 { x: 950_000, y: 310_000 },
    ];
    proof {
        assert(r@ =~= pentagon_vertices());
    }
    r
}

/// Single shapes falling: the floor, a heavy box, and a pentagon and a
/// hexagon dropped from above.
pub open spec fn demo1_bodies() -> Seq<BodyModel> {
    seq![
        ground_model(100_000_000),
        box_at(1_000_000, 1_000_000, Mass::Finite(200_000_000), 0, 3_000_000, 0, 200_000),
        BodyModel {
            position: Vec2 { x: 0, y: 5_000_000 },
            friction: 100_000_000,
            ..polygon_model(pentagon_vertices(), Mass::Finite(2_000_000))
        },
        BodyModel {
            position: Vec2 { x: 5_000_000, y: 4_000_000 },
            rotation: 45_000_000,
            ..polygon_model(hexagon_vertices(), Mass::Finite(2_000_000))
        },
    ]
}

/// Builds the "single shapes falling" scenario.
pub fn demo1(world: &mut World)
    requires
        old(world)@.is_cleared(),
    ensures
        final(world)@.bodies == demo1_bodies(),
        final(world)@.joints == Seq::<Joint>::empty(),
        final(world)@.gravity == old(world)@.gravity,
        final(world)@.iterations == old(world)@.iterations,
{
    add_box(world, 100_000_000, 20_000_000, Mass::Infinite, 0, -10_000_000, 0, 200_000);
    add_box(world, 1_000_000, 1_000_000, Mass::Finite(200_000_000), 0, 3_000_000, 0, 200_000);

    let pentagon = pentagon_vec();
    let mut pentagon_body = Body::new_polygon(pentagon, Mass::Finite(2_000_000));
    pentagon_body.position = Vec2 { x: 0, y: 5_000_000 };
    pentagon_body.friction = 100_000_000;
    world.add_body(pentagon_body);

    let hexagon = hexagon_vec();
    let mut hexagon_body = Body::new_polygon(hexagon, Mass::Finite(2_000_000));
    hexagon_body.position = Vec2 { x: 5_000_000, y: 4_000_000 };
    hexagon_body.rotation = 45_000_000;
    world.add_body(hexagon_body);

    proof {
        assert(world@.bodies =~= demo1_bodies());
        assert(world@.joints =~= Seq::<Joint>::empty());
    }
}

/// Simple pendulum: the floor and a unit box bob, bound by a joint anchored
/// at `(0, 11)`.
pub open spec fn demo2_bodies() -> Seq<BodyModel> {
    seq![
        ground_model(100_000_000),
        box_at(1_000_000, 1_000_000, Mass::Finite(100_000_000), 9_000_000, 11_000_000, 0, 200_000),
    ]
}

pub open spec fn demo2_joints() -> Seq<Joint> {
    seq![joint_model(demo2_bodies(), 0, 1, Vec2 { x: 0, y: 11_000_000 })]
}

/// Builds the "simple pendulum" scenario.
pub fn demo2(world: &mut World)
    requires
        old(world)@.is_cleared(),
    ensures
        final(world)@.bodies == demo2_bodies(),
        final(world)@.joints == demo2_joints(),
        final(world)@.gravity == old(world)@.gravity,
        final(world)@.iterations == old(world)@.iterations,
{
    let a = add_box(world, 100_000_000, 20_000_000, Mass::Infinite, 0, -10_000_000, 0, 200_000);
    let b = add_box(
        world,
        1_000_000,
        1_000_000,
        Mass::Finite(100_000_000),
        9_000_000,
        11_000_000,
        0,
        200_000,
    );
    proof {
        assert(world@.bodies =~= demo2_bodies());
    }
    world.attach_joint(a, b, Vec2 { x: 0, y: 11_000_000 });
    proof {
        assert(world@.joints =~= demo2_joints());
    }
}

/// Varying friction coefficients: a tilted shelf sheds five boxes whose
/// friction falls from 0.75 to zero.
pub open spec fn demo3_bodies() -> Seq<BodyModel> {
    seq![
        ground_model(100_000_000),
        box_at(13_000_000, 250_000, Mass::Infinite, -2_000_000i64, 11_000_000, -250_000i64, 200_000),
        box_at(500_000, 500_000, Mass::Finite(25_000_000), -7_500_000i64, 14_000_000, 0, 750_000),
        box_at(500_000, 500_000, Mass::Finite(25_000_000), -5_500_000i64, 14_000_000, 0, 500_000),
        box_at(500_000, 500_000, Mass::Finite(25_000_000), -3_500_000i64, 14_000_000, 0, 350_000),
        box_at(500_000, 500_000, Mass::Finite(25_000_000), -1_500_000i64, 14_000_000, 0, 100_000),
        box_at(500_000, 500_000, Mass::Finite(25_000_000), 500_000, 14_000_000, 0, 0),
    ]
}

/// Builds the "varying friction coefficients" scenario.
pub fn demo3(world: &mut World)
    requires
        old(world)@.is_cleared(),
    ensures
        final(world)@.bodies == demo3_bodies(),
        final(world)@.joints == Seq::<Joint>::empty(),
        final(world)@.gravity == old(world)@.gravity,
        final(world)@.iterations == old(world)@.iterations,
{
    add_box(world, 100_000_000, 20_000_000, Mass::Infinite, 0, -10_000_000, 0, 200_000);
    add_box(world, 13_000_000, 250_000, Mass::Infinite, -2_000_000, 11_000_000, -250_000, 200_000);
    add_box(world, 500_000, 500_000, Mass::Finite(25_000_000), -7_500_000, 14_000_000, 0, 750_000);
    add_box(world, 500_000, 500_000, Mass::Finite(25_000_000), -5_500_000, 14_000_000, 0, 500_000);
    add_box(world, 500_000, 500_000, Mass::Finite(25_000_000), -3_500_000, 14_000_000, 0, 350_000);
    add_box(world, 500_000, 500_000, Mass::Finite(25_000_000), -1_500_000, 14_000_000, 0, 100_000);
    add_box(world, 500_000, 500_000, Mass::Finite(25_000_000), 500_000, 14_000_000, 0, 0);
    proof {
        assert(world@.bodies =~= demo3_bodies());
        assert(world@.joints =~= Seq::<Joint>::empty());
    }
}

/// The `i`-th box of the randomized stack: a unit box at height
/// `0.51 + 1.05*i` whose x position carries a seeded jitter from
/// `[-0.1, 0.1)`.
pub open spec fn demo4_body(seed: u64, i: int) -> BodyModel {
    box_at(
        1_000_000,
        1_000_000,
        Mass::Finite(1_000_000),
        (((lcg_iter(seed, i + 1) % 200_000) as int) - 100_000) as i64,
        (510_000 + 1_050_000 * i) as i64,
        0,
        200_000,
    )
}

/// Randomized stacking: the floor under ten jittered unit boxes.
pub open spec fn demo4_bodies(seed: u64) -> Seq<BodyModel> {
    seq![ground_model(100_000_000)] + Seq::new(10, |i: int| demo4_body(seed, i))
}

/// Builds the "randomized stacking" scenario; the jitter comes from `rng`,
/// so a fixed seed fully determines the world.
pub fn demo4(world: &mut World, rng: &mut Rng)
    requires
        old(world)@.is_cleared(),
    ensures
        final(world)@.bodies == demo4_bodies(old(rng).state),
        final(world)@.joints == Seq::<Joint>::empty(),
        final(world)@.gravity == old(world)@.gravity,
        final(world)@.iterations == old(world)@.iterations,
        final(rng).state == lcg_iter(old(rng).state, 10),
{
    let ghost seed = rng.state;
    add_box(world, 100_000_000, 20_000_000, Mass::Infinite, 0, -10_000_000, 0, 200_000);
    let mut i: usize = 0;
    while i < 10
        invariant
            0 <= i <= 10,
            rng.state == lcg_iter(seed, i as int),
            world@.bodies =~= seq![ground_model(100_000_000)] + Seq::new(
                i as nat,
                |j: int| demo4_body(seed, j),
            ),
            world@.joints == old(world)@.joints,
            world@.gravity == old(world)@.gravity,
            world@.iterations == old(world)@.iterations,
        decreases 10 - i,
    {
        let r = rng.next_below(200_000);
        let x = (r as i64) - 100_000;
        let y = 510_000 + 1_050_000 * (i as i64);
        add_box(world, 1_000_000, 1_000_000, Mass::Finite(1_000_000), x, y, 0, 200_000);
        proof {
            assert(Seq::new((i + 1) as nat, |j: int| demo4_body(seed, j)).drop_last() =~= Seq::new(
                i as nat,
                |j: int| demo4_body(seed, j),
            ));
            assert(world@.bodies =~= seq![ground_model(100_000_000)] + Seq::new(
                (i + 1) as nat,
                |j: int| demo4_body(seed, j),
            ));
        }
        i = i + 1;
    }
    proof {
        assert(world@.bodies =~= demo4_bodies(seed));
        assert(world@.joints =~= Seq::<Joint>::empty());
    }
}

/// The box at row `i`, column `j` of the pyramid.
pub open spec fn demo5_body(i: int, j: int) -> BodyModel {
    box_at(
        1_000_000,
        1_000_000,
        Mass::Finite(10_000_000),
        (-6_000_000 + 562_500 * i + 1_125_000 * j) as i64,
        (750_000 + 2_000_000 * i) as i64,
        0,
        200_000,
    )
}

/// Row `i` of the pyramid: `12 - i` boxes.
pub open spec fn demo5_row(i: int) -> Seq<BodyModel> {
    Seq::new((12 - i) as nat, |j: int| demo5_body(i, j))
}

/// The first `i` rows of the pyramid, bottom row first.
pub open spec fn demo5_rows(i: int) -> Seq<BodyModel>
    decreases i,
{
    if i <= 0 {
        Seq::empty()
    } else {
        demo5_rows(i - 1) + demo5_row(i - 1)
    }
}

/// Pyramid stacking: the floor under twelve narrowing rows of boxes.
pub open spec fn demo5_bodies() -> Seq<BodyModel> {
    seq![ground_model(100_000_000)] + demo5_rows(12)
}

/// Builds the "pyramid stacking" scenario.
pub fn demo5(world: &mut World)
    requires
        old(world)@.is_cleared(),
    ensures
        final(world)@.bodies == demo5_bodies(),
        final(world)@.joints == Seq::<Joint>::empty(),
        final(world)@.gravity == old(world)@.gravity,
        final(world)@.iterations == old(world)@.iterations,
{
    add_box(world, 100_000_000, 20_000_000, Mass::Infinite, 0, -10_000_000, 0, 200_000);
    let mut x = Vec2 { x: -6_000_000, y: 750_000 };
    let mut i: usize = 0;
    while i < 12
        invariant
            0 <= i <= 12,
            x.x as int == -6_000_000 + 562_500 * i,
            x.y as int == 750_000 + 2_000_000 * i,
            world@.bodies =~= seq![ground_model(100_000_000)] + demo5_rows(i as int),
            world@.joints == old(world)@.joints,
            world@.gravity == old(world)@.gravity,
            world@.iterations == old(world)@.iterations,
        decreases 12 - i,
    {
        let mut y = x;
        let mut j: usize = 0;
        while j < 12 - i
            invariant
                0 <= i < 12,
                0 <= j <= 12 - i,
                x.x as int == -6_000_000 + 562_500 * i,
                x.y as int == 750_000 + 2_000_000 * i,
                y.x as int == x.x as int + 1_125_000 * j,
                y.y == x.y,
                world@.bodies =~= seq![ground_model(100_000_000)] + demo5_rows(i as int)
                    + demo5_row(i as int).take(j as int),
                world@.joints == old(world)@.joints,
                world@.gravity == old(world)@.gravity,
                world@.iterations == old(world)@.iterations,
            decreases 12 - i - j,
        {
            add_box(world, 1_000_000, 1_000_000, Mass::Finite(10_000_000), y.x, y.y, 0, 200_000);
            proof {
                assert(demo5_row(i as int).take(j + 1 as int).drop_last() =~= demo5_row(
                    i as int,
                ).take(j as int));
                assert(world@.bodies =~= seq![ground_model(100_000_000)] + demo5_rows(i as int)
                    + demo5_row(i as int).take(j + 1 as int));
            }
            y.x = y.x + 1_125_000;
            j = j + 1;
        }
        proof {
            assert(demo5_row(i as int).take(12 - i as int) =~= demo5_row(i as int));
            assert(world@.bodies =~= seq![ground_model(100_000_000)] + demo5_rows(i as int + 1));
        }
        x.x = x.x + 562_500;
        x.y = x.y + 2_000_000;
        i = i + 1;
    }
    proof {
        assert(world@.joints =~= Seq::<Joint>::empty());
    }
}

/// A teeter: a long plank pinned to the floor, two small boxes on its low
/// end and a heavy box dropped on the high end.
pub open spec fn demo6_bodies() -> Seq<BodyModel> {
    seq![
        ground_model(100_000_000),
        box_at(12_000_000, 250_000, Mass::Finite(10_000_000), 0, 3_000_000, 0, 200_000),
        box_at(500_000, 500_000, Mass::Finite(2_000_000), -5_000_000i64, 5_000_000, 0, 200_000),
        box_at(500_000, 500_000, Mass::Finite(2_000_000), -5_500_000i64, 5_000_000, 0, 200_000),
        box_at(1_000_000, 1_000_000, Mass::Finite(55_000_000), 5_500_000, 15_000_000, 0, 200_000),
    ]
}

pub open spec fn demo6_joints() -> Seq<Joint> {
    seq![joint_model(demo6_bodies(), 0, 1, Vec2 { x: 0, y: 3_000_000 })]
}

/// Builds the "teeter" scenario.
pub fn demo6(world: &mut World)
    requires
        old(world)@.is_cleared(),
    ensures
        final(world)@.bodies == demo6_bodies(),
        final(world)@.joints == demo6_joints(),
        final(world)@.gravity == old(world)@.gravity,
        final(world)@.iterations == old(world)@.iterations,
{
    let a = add_box(world, 100_000_000, 20_000_000, Mass::Infinite, 0, -10_000_000, 0, 200_000);
    let b = add_box(world, 12_000_000, 250_000, Mass::Finite(10_000_000), 0, 3_000_000, 0, 200_000);
    add_box(world, 500_000, 500_000, Mass::Finite(2_000_000), -5_000_000, 5_000_000, 0, 200_000);
    add_box(world, 500_000, 500_000, Mass::Finite(2_000_000), -5_500_000, 5_000_000, 0, 200_000);
    add_box(world, 1_000_000, 1_000_000, Mass::Finite(55_000_000), 5_500_000, 15_000_000, 0, 200_000);
    proof {
        assert(world@.bodies =~= demo6_bodies());
    }
    world.attach_joint(a, b, Vec2 { x: 0, y: 3_000_000 });
    proof {
        assert(world@.joints =~= demo6_joints());
    }
}

/// The forward time step the catalog and the orchestrator default to,
/// one sixtieth of a second in fixed point.
pub const DEFAULT_TIME_STEP: i64 = 16_667;

/// The tuning of every bridge joint: mass 10, frequency 2 Hz, damping ratio
/// 0.7, derived from the configured time step, so it is recomputed whenever
/// that step changes.
pub open spec fn demo7_tuning(h: i64) -> JointTuning {
    JointTuning {
        softness: softness_spec(10_000_000, 2_000_000, 700_000, h as int) as i64,
        bias_factor: bias_factor_spec(10_000_000, 2_000_000, 700_000, h as int) as i64,
    }
}

/// The bridge's spring-damper specification is acceptable tuning input; the
/// fixed-point denominator works out to a concrete positive value.
pub proof fn lemma_demo7_tuning_inputs_ok()
    ensures
        tuning_inputs_ok(10_000_000, 2_000_000, 700_000, DEFAULT_TIME_STEP as int),
{
    assert(omega_spec(2_000_000) == 12_566_370);
    assert(damping_spec(10_000_000, 2_000_000, 700_000) == 175_929_180);
    assert(stiffness_spec(10_000_000, 2_000_000) == 1_579_136_540);
    assert(fx_mul_spec(DEFAULT_TIME_STEP as int, 1_579_136_540) == 26_319_468);
    assert(denom_spec(10_000_000, 2_000_000, 700_000, DEFAULT_TIME_STEP as int) == 202_248_648);
}

/// The `i`-th plank of the suspension bridge.
pub open spec fn demo7_plank(i: int) -> BodyModel {
    box_at(
        1_000_000,
        250_000,
        Mass::Finite(10_000_000),
        (-8_500_000 + 1_250_000 * i) as i64,
        5_000_000,
        0,
        200_000,
    )
}

/// Suspension bridge: the floor under sixteen planks.
pub open spec fn demo7_bodies() -> Seq<BodyModel> {
    seq![ground_model(100_000_000)] + Seq::new(16, |i: int| demo7_plank(i))
}

/// The soft joint hanging plank `i` from the floor body, tuned at the
/// configured time step.
pub open spec fn demo7_joint(i: int, h: i64) -> Joint {
    Joint {
        softness: demo7_tuning(h).softness,
        bias_factor: demo7_tuning(h).bias_factor,
        ..joint_model(
            demo7_bodies(),
            (i + 1) as usize,
            0,
            Vec2 { x: (-9_125_000 + 1_250_000 * i) as i64, y: 5_000_000 },
        )
    }
}

pub open spec fn demo7_joints(h: i64) -> Seq<Joint> {
    Seq::new(16, |i: int| demo7_joint(i, h))
}

/// Builds the "suspension bridge" scenario at the configured time step,
/// whose soft-joint tuning depends on that step.
pub fn demo7(world: &mut World, h: i64)
    requires
        old(world)@.is_cleared(),
        tuning_inputs_ok(10_000_000, 2_000_000, 700_000, h as int),
    ensures
        final(world)@.bodies == demo7_bodies(),
        final(world)@.joints == demo7_joints(h),
        final(world)@.gravity == old(world)@.gravity,
        final(world)@.iterations == old(world)@.iterations,
{
    let ground = add_box(world, 100_000_000, 20_000_000, Mass::Infinite, 0, -10_000_000, 0, 200_000);
    let t = soft_joint_tuning(10_000_000, 2_000_000, 700_000, h);
    let mut i: usize = 0;
    while i < 16
        invariant
            0 <= i <= 16,
            ground == 0,
            t.softness == demo7_tuning(h).softness,
            t.bias_factor == demo7_tuning(h).bias_factor,
            world@.bodies =~= (seq![ground_model(100_000_000)] + Seq::new(
                i as nat,
                |k: int| demo7_plank(k),
            )),
            world@.joints =~= Seq::new(i as nat, |k: int| demo7_joint(k, h)),
            world@.gravity == old(world)@.gravity,
            world@.iterations == old(world)@.iterations,
        decreases 16 - i,
    {
        let idx = add_box(
            world,
            1_000_000,
            250_000,
            Mass::Finite(10_000_000),
            -8_500_000 + 1_250_000 * (i as i64),
            5_000_000,
            0,
            200_000,
        );
        proof {
            assert(Seq::new((i + 1) as nat, |k: int| demo7_plank(k)).drop_last() =~= Seq::new(
                i as nat,
                |k: int| demo7_plank(k),
            ));
            assert(world@.bodies =~= (seq![ground_model(100_000_000)] + Seq::new(
                (i + 1) as nat,
                |k: int| demo7_plank(k),
            )));
        }
        let j = world.attach_soft_joint(
            idx,
            0,
            Vec2 { x: -9_125_000 + 1_250_000 * (i as i64), y: 5_000_000 },
            t,
        );
        proof {
            assert(demo7_bodies()[idx as int] == world@.bodies[idx as int]);
            assert(demo7_bodies()[0] == world@.bodies[0]);
            assert(j == demo7_joint(i as int, h));
            assert(Seq::new((i + 1) as nat, |k: int| demo7_joint(k, h)).drop_last() =~= Seq::new(
                i as nat,
                |k: int| demo7_joint(k, h),
            ));
            assert(world@.joints =~= Seq::new((i + 1) as nat, |k: int| demo7_joint(k, h)));
        }
        i = i + 1;
    }
    proof {
        assert(world@.bodies =~= demo7_bodies());
        assert(world@.joints =~= demo7_joints(h));
    }
}

/// The `i`-th domino on the upper shelf.
pub open spec fn demo8_domino(i: int) -> BodyModel {
    box_at(
        200_000,
        2_000_000,
        Mass::Finite(10_000_000),
        (-6_000_000 + 1_000_000 * i) as i64,
        11_125_000,
        0,
        100_000,
    )
}

/// Dominos: the floor, a shelf of ten dominoes, two fixed ramps, a pinned
/// seesaw plank, a hanging counterweight and a weighted stop.
pub open spec fn demo8_bodies() -> Seq<BodyModel> {
    seq![
        ground_model(100_000_000),
        box_at(12_000_000, 500_000, Mass::Infinite, -1_500_000i64, 10_000_000, 0, 200_000),
    ] + Seq::new(10, |i: int| demo8_domino(i)) + seq![
        box_at(14_000_000, 500_000, Mass::Infinite, 1_000_000, 6_000_000, 300_000, 200_000),
        box_at(500_000, 3_000_000, Mass::Infinite, -7_000_000i64, 4_000_000, 0, 200_000),
        box_at(12_000_000, 250_000, Mass::Finite(10_000_000), -900_000i64, 1_000_000, 0, 200_000),
        box_at(500_000, 500_000, Mass::Finite(16_000_000), -10_000_000i64, 15_000_000, 0, 200_000),
        box_at(2_000_000, 2_000_000, Mass::Finite(10_000_000), 6_000_000, 2_500_000, 0, 100_000),
        box_at(2_000_000, 200_000, Mass::Finite(10_000_000), 6_000_000, 3_600_000, 0, 200_000),
    ]
}

pub open spec fn demo8_joints() -> Seq<Joint> {
    seq![
        joint_model(demo8_bodies(), 0, 14, Vec2 { x: -2_000_000i64, y: 3_000_000 }),
        joint_model(demo8_bodies(), 13, 15, Vec2 { x: -7_000_000i64, y: 15_000_000 }),
        joint_model(demo8_bodies(), 0, 16, Vec2 { x: 6_000_000, y: 2_600_000 }),
        joint_model(demo8_bodies(), 16, 17, Vec2 { x: 7_000_000, y: 3_500_000 }),
    ]
}

/// Builds the "dominos" scenario.
pub fn demo8(world: &mut World)
    requires
        old(world)@.is_cleared(),
    ensures
        final(world)@.bodies == demo8_bodies(),
        final(world)@.joints == demo8_joints(),
        final(world)@.gravity == old(world)@.gravity,
        final(world)@.iterations == old(world)@.iterations,
{
    let ghost prefix = seq![
        ground_model(100_000_000),
        box_at(12_000_000, 500_000, Mass::Infinite, -1_500_000i64, 10_000_000, 0, 200_000),
    ];
    add_box(world, 100_000_000, 20_000_000, Mass::Infinite, 0, -10_000_000, 0, 200_000);
    add_box(world, 12_000_000, 500_000, Mass::Infinite, -1_500_000, 10_000_000, 0, 200_000);
    proof {
        assert(world@.bodies =~= prefix + Seq::new(0nat, |i: int| demo8_domino(i)));
    }
    let mut i: usize = 0;
    while i < 10
        invariant
            0 <= i <= 10,
            world@.bodies =~= prefix + Seq::new(i as nat, |k: int| demo8_domino(k)),
            world@.joints == old(world)@.joints,
            world@.gravity == old(world)@.gravity,
            world@.iterations == old(world)@.iterations,
        decreases 10 - i,
    {
        add_box(
            world,
            200_000,
            2_000_000,
            Mass::Finite(10_000_000),
            -6_000_000 + 1_000_000 * (i as i64),
            11_125_000,
            0,
            100_000,
        );
        proof {
            assert(Seq::new((i + 1) as nat, |k: int| demo8_domino(k)).drop_last() =~= Seq::new(
                i as nat,
                |k: int| demo8_domino(k),
            ));
            assert(world@.bodies =~= prefix + Seq::new((i + 1) as nat, |k: int| demo8_domino(k)));
        }
        i = i + 1;
    }
    add_box(world, 14_000_000, 500_000, Mass::Infinite, 1_000_000, 6_000_000, 300_000, 200_000);
    add_box(world, 500_000, 3_000_000, Mass::Infinite, -7_000_000, 4_000_000, 0, 200_000);
    let b14 = add_box(
        world,
        12_000_000,
        250_000,
        Mass::Finite(10_000_000),
        -900_000,
        1_000_000,
        0,
        200_000,
    );
    proof {
        assert(world@.bodies =~= demo8_bodies().take(15));
        assert(demo8_bodies().take(15)[0] == demo8_bodies()[0]);
        assert(demo8_bodies().take(15)[14] == demo8_bodies()[14]);
    }
    world.attach_joint(0, b14, Vec2 { x: -2_000_000, y: 3_000_000 });
    let b15 = add_box(
        world,
        500_000,
        500_000,
        Mass::Finite(16_000_000),
        -10_000_000,
        15_000_000,
        0,
        200_000,
    );
    proof {
        assert(world@.bodies =~= demo8_bodies().take(16));
        assert(demo8_bodies().take(16)[13] == demo8_bodies()[13]);
        assert(demo8_bodies().take(16)[15] == demo8_bodies()[15]);
    }
    world.attach_joint(13, b15, Vec2 { x: -7_000_000, y: 15_000_000 });
    let b16 = add_box(
        world,
        2_000_000,
        2_000_000,
        Mass::Finite(10_000_000),
        6_000_000,
        2_500_000,
        0,
        100_000,
    );
    proof {
        assert(world@.bodies =~= demo8_bodies().take(17));
        assert(demo8_bodies().take(17)[0] == demo8_bodies()[0]);
        assert(demo8_bodies().take(17)[16] == demo8_bodies()[16]);
    }
    world.attach_joint(0, b16, Vec2 { x: 6_000_000, y: 2_600_000 });
    let b17 = add_box(
        world,
        2_000_000,
        200_000,
        Mass::Finite(10_000_000),
        6_000_000,
        3_600_000,
        0,
        200_000,
    );
    proof {
        assert(world@.bodies =~= demo8_bodies());
        assert(demo8_bodies()[16] == world@.bodies[16]);
        assert(demo8_bodies()[17] == world@.bodies[17]);
    }
    world.attach_joint(b16, b17, Vec2 { x: 7_000_000, y: 3_500_000 });
    proof {
        assert(world@.joints =~= demo8_joints());
    }
}

/// The multi-pendulum's spring-damper specification (mass 10, frequency
/// 4 Hz, damping ratio 0.7) is acceptable tuning input at the default step.
pub proof fn lemma_demo9_tuning_inputs_ok()
    ensures
        tuning_inputs_ok(10_000_000, 4_000_000, 700_000, DEFAULT_TIME_STEP as int),
{
    assert(omega_spec(4_000_000) == 25_132_740);
    assert(damping_spec(10_000_000, 4_000_000, 700_000) == 351_858_360);
    assert(stiffness_spec(10_000_000, 4_000_000) == 6_316_546_190);
    assert(fx_mul_spec(DEFAULT_TIME_STEP as int, 6_316_546_190) == 105_277_875);
    assert(denom_spec(10_000_000, 4_000_000, 700_000, DEFAULT_TIME_STEP as int) == 457_136_235);
}

/// The `i`-th link of the chained pendulum.
pub open spec fn demo9_link(i: int) -> BodyModel {
    box_at(
        750_000,
        250_000,
        Mass::Finite(10_000_000),
        (500_000 + 1_000_000 * i) as i64,
        12_000_000,
        0,
        200_000,
    )
}

/// Chained multi-pendulum: the floor and fifteen links.
pub open spec fn demo9_bodies() -> Seq<BodyModel> {
    seq![ground_model(100_000_000)] + Seq::new(15, |i: int| demo9_link(i))
}

/// The soft joint binding link `i + 1` to its predecessor (the floor body
/// for the first link) at the tuning derived from the given time step.
pub open spec fn demo9_joint(i: int, h: i64) -> Joint {
    Joint {
        softness: softness_spec(10_000_000, 4_000_000, 700_000, h as int) as i64,
        bias_factor: bias_factor_spec(10_000_000, 4_000_000, 700_000, h as int) as i64,
        ..joint_model(
            demo9_bodies(),
            i as usize,
            (i + 1) as usize,
            Vec2 { x: (1_000_000 * i) as i64, y: 12_000_000 },
        )
    }
}

pub open spec fn demo9_joints(h: i64) -> Seq<Joint> {
    Seq::new(15, |i: int| demo9_joint(i, h))
}

/// Builds the "chained multi-pendulum" scenario at the configured time step,
/// whose soft-joint tuning depends on that step.
pub fn demo9(world: &mut World, h: i64)
    requires
        old(world)@.is_cleared(),
        tuning_inputs_ok(10_000_000, 4_000_000, 700_000, h as int),
    ensures
        final(world)@.bodies == demo9_bodies(),
        final(world)@.joints == demo9_joints(h),
        final(world)@.gravity == old(world)@.gravity,
        final(world)@.iterations == old(world)@.iterations,
{
    let ground = add_box(world, 100_000_000, 20_000_000, Mass::Infinite, 0, -10_000_000, 0, 200_000);
    let t = soft_joint_tuning(10_000_000, 4_000_000, 700_000, h);
    let mut prev: usize = ground;
    let mut i: usize = 0;
    while i < 15
        invariant
            0 <= i <= 15,
            prev == i,
            t.softness as int == softness_spec(10_000_000, 4_000_000, 700_000, h as int),
            t.bias_factor as int == bias_factor_spec(10_000_000, 4_000_000, 700_000, h as int),
            world@.bodies =~= (seq![ground_model(100_000_000)] + Seq::new(
                i as nat,
                |k: int| demo9_link(k),
            )),
            world@.joints =~= Seq::new(i as nat, |k: int| demo9_joint(k, h)),
            world@.gravity == old(world)@.gravity,
            world@.iterations == old(world)@.iterations,
        decreases 15 - i,
    {
        let idx = add_box(
            world,
            750_000,
            250_000,
            Mass::Finite(10_000_000),
            500_000 + 1_000_000 * (i as i64),
            12_000_000,
            0,
            200_000,
        );
        proof {
            assert(Seq::new((i + 1) as nat, |k: int| demo9_link(k)).drop_last() =~= Seq::new(
                i as nat,
                |k: int| demo9_link(k),
            ));
            assert(world@.bodies =~= (seq![ground_model(100_000_000)] + Seq::new(
                (i + 1) as nat,
                |k: int| demo9_link(k),
            )));
        }
        let j = world.attach_soft_joint(
            prev,
            idx,
            Vec2 { x: 1_000_000 * (i as i64), y: 12_000_000 },
            t,
        );
        proof {
            assert(demo9_bodies()[prev as int] == world@.bodies[prev as int]);
            assert(demo9_bodies()[idx as int] == world@.bodies[idx as int]);
            assert(j == demo9_joint(i as int, h));
            assert(Seq::new((i + 1) as nat, |k: int| demo9_joint(k, h)).drop_last() =~= Seq::new(
                i as nat,
                |k: int| demo9_joint(k, h),
            ));
            assert(world@.joints =~= Seq::new((i + 1) as nat, |k: int| demo9_joint(k, h)));
        }
        prev = idx;
        i = i + 1;
    }
    proof {
        assert(world@.bodies =~= demo9_bodies());
        assert(world@.joints =~= demo9_joints(h));
    }
}

/// The pawn's head, already scaled by two: a small five-sided cap.
pub open spec fn pawn_head_vertices() -> Seq<Vec2> {
    seq![
        Vec2 { x: 0, y: 800_000 },
        Vec2 { x: -800_000i64, y: 0 },
        Vec2 { x: -400_000i64, y: -800_000i64 },
        Vec2 { x: 400_000, y: -800_000i64 },
        Vec2 { x: 800_000, y: 0 },
    ]
}

/// The pawn's trunk, already scaled by two: a six-sided base.
pub open spec fn pawn_trunk_vertices() -> Seq<Vec2> {
    seq![
        Vec2 { x: -1_600_000i64, y: 1_600_000 },
        Vec2 { x: -1_200_000i64, y: 0 },
        Vec2 { x: -600_000i64, y: -1_600_000i64 },
        Vec2 { x: 600_000, y: -1_600_000i64 },
        Vec2 { x: 1_200_000, y: 0 },
        Vec2 { x: 1_600_000, y: 1_600_000 },
    ]
}

/// A pawn and the pendulum: a wide floor, a pentagon pendulum bob, and a
/// two-piece pawn whose head sits on its trunk (trunk height 3.2 and head
/// height 1.6 put the head's center at `4 + 1.6 + 0.8`).
pub open spec fn demo10_bodies() -> Seq<BodyModel> {
    seq![
        ground_model(1_000_000_000),
        BodyModel {
            position: Vec2 { x: -9_000_000i64, y: 8_000_000 },
            ..polygon_model(pentagon_vertices(), Mass::Finite(55_000_000))
        },
        BodyModel {
            position: Vec2 { x: 5_000_000, y: 6_400_000 },
            ..polygon_model(pawn_head_vertices(), Mass::Finite(10_000_000))
        },
        BodyModel {
            position: Vec2 { x: 5_000_000, y: 4_000_000 },
            ..polygon_model(pawn_trunk_vertices(), Mass::Finite(10_000_000))
        },
    ]
}

pub open spec fn demo10_joints() -> Seq<Joint> {
    seq![
        joint_model(demo10_bodies(), 2, 3, Vec2 { x: 5_000_000, y: 3_000_000 }),
        joint_model(demo10_bodies(), 0, 1, Vec2 { x: 0, y: 11_000_000 }),
    ]
}

/// Builds the "pawn and the pendulum" scenario.
pub fn demo10(world: &mut World)
    requires
        old(world)@.is_cleared(),
    ensures
        final(world)@.bodies == demo10_bodies(),
        final(world)@.joints == demo10_joints(),
        final(world)@.gravity == old(world)@.gravity,
        final(world)@.iterations == old(world)@.iterations,
{
    let head_base = vec![
        Vec2 { x: 0, y: 400_000 },
        Vec2 { x: -400_000, y: 0 },
        Vec2 { x: -200_000, y: -400_000 },
        Vec2 { x: 200_000, y: -400_000 },
        Vec2 { x: 400_000, y: 0 },
    ];
    let trunk_base = vec![
        Vec2 { x: -800_000, y: 800_000 },
        Vec2 { x: -600_000, y: 0 },
        Vec2 { x: -300_000, y: -800_000 },
        Vec2 { x: 300_000, y: -800_000 },
        Vec2 { x: 600_000, y: 0 },
        Vec2 { x: 800_000, y: 800_000 },
    ];
    let head = scale_vertices(&head_base, 2_000_000);
    let trunk = scale_vertices(&trunk_base, 2_000_000);
    proof {
        assert(head@ =~= pawn_head_vertices());
        assert(trunk@ =~= pawn_trunk_vertices());
    }

    add_box(world, 1_000_000_000, 20_000_000, Mass::Infinite, 0, -10_000_000, 0, 200_000);

    let pentagon = pentagon_vec();
    let mut pentagon_body = Body::new_polygon(pentagon, Mass::Finite(55_000_000));
    pentagon_body.position = Vec2 { x: -9_000_000, y: 8_000_000 };
    pentagon_body.friction = 200_000;
    world.add_body(pentagon_body);

    let mut pawn_head = Body::new_polygon(head, Mass::Finite(10_000_000));
    pawn_head.position = Vec2 { x: 5_000_000, y: 6_400_000 };
    let b2 = world.add_body(pawn_head);

    let mut pawn_trunk = Body::new_polygon(trunk, Mass::Finite(10_000_000));
    pawn_trunk.position = Vec2 { x: 5_000_000, y: 4_000_000 };
    let b3 = world.add_body(pawn_trunk);

    proof {
        assert(world@.bodies =~= demo10_bodies());
    }
    world.attach_joint(b2, b3, Vec2 { x: 5_000_000, y: 3_000_000 });
    world.attach_joint(0, 1, Vec2 { x: 0, y: 11_000_000 });
    proof {
        assert(world@.joints =~= demo10_joints());
    }
}

/// The projectile a perturbation command spawns: a unit box of mass 50
/// thrown from a seeded position above the scene back toward the origin at
/// one and a half times its position, with seeded spin.
#[verifier::opaque]
pub open spec fn bomb_body(seed: u64) -> BodyModel {
    BodyModel {
        position: Vec2 {
            x: (2 * ((lcg_next(seed) % 15_000_000) as int) - 15_000_000) as i64,
            y: 15_000_000,
        },
        rotation: (((lcg_iter(seed, 2) % 3_000_000) as int) - 1_500_000) as i64,
        velocity: Vec2 {
            x: (22_500_000 - 3 * ((lcg_next(seed) % 15_000_000) as int)) as i64,
            y: -22_500_000i64,
        },
        angular_velocity: (((lcg_iter(seed, 3) % 40_000_000) as int) - 20_000_000) as i64,
        ..box_model(Vec2 { x: 1_000_000, y: 1_000_000 }, Mass::Finite(50_000_000))
    }
}

/// Spawns the projectile into the current world; the seed fully determines
/// its pose and velocities.
pub fn launch_bomb(world: &mut World, rng: &mut Rng)
    ensures
        final(world)@.bodies == old(world)@.bodies.push(bomb_body(old(rng).state)),
        final(world)@.joints == old(world)@.joints,
        final(world)@.gravity == old(world)@.gravity,
        final(world)@.iterations == old(world)@.iterations,
        final(rng).state == lcg_iter(old(rng).state, 3),
{
    let ghost seed = rng.state;
    proof {
        reveal(bomb_body);
    }
    let r1 = rng.next_below(15_000_000);
    let r2 = rng.next_below(3_000_000);
    let r3 = rng.next_below(40_000_000);
    proof {
        assert(lcg_iter(seed, 1) == lcg_next(lcg_iter(seed, 0)));
        assert(lcg_iter(seed, 2) == lcg_next(lcg_iter(seed, 1)));
        assert(lcg_iter(seed, 3) == lcg_next(lcg_iter(seed, 2)));
    }
    let mut b = Body::new_box(Vec2 { x: 1_000_000, y: 1_000_000 }, Mass::Finite(50_000_000));
    let px = 2 * (r1 as i64) - 15_000_000;
    b.friction = 200_000;
    b.position = Vec2 { x: px, y: 15_000_000 };
    b.rotation = (r2 as i64) - 1_500_000;
    b.velocity = Vec2 { x: 22_500_000 - 3 * (r1 as i64), y: -22_500_000 };
    b.angular_velocity = (r3 as i64) - 20_000_000;
    world.add_body(b);
}

/// How many scenarios the catalog holds.
pub const SCENARIO_COUNT: u32 = 10;

/// The bodies the catalog's scenario `id` constructs, given the configured
/// time step and the generator seed (only the randomized stack reads the
/// seed; only the multi-pendulum reads the step, through its joints).
#[verifier::opaque]
pub open spec fn scenario_bodies(id: u32, h: i64, seed: u64) -> Seq<BodyModel> {
    if id == 0 {
        demo1_bodies()
    } else if id == 1 {
        demo2_bodies()
    } else if id == 2 {
        demo3_bodies()
    } else if id == 3 {
        demo4_bodies(seed)
    } else if id == 4 {
        demo5_bodies()
    } else if id == 5 {
        demo6_bodies()
    } else if id == 6 {
        demo7_bodies()
    } else if id == 7 {
        demo8_bodies()
    } else if id == 8 {
        demo9_bodies()
    } else if id == 9 {
        demo10_bodies()
    } else {
        Seq::empty()
    }
}

/// The joints the catalog's scenario `id` constructs.
#[verifier::opaque]
pub open spec fn scenario_joints(id: u32, h: i64) -> Seq<Joint> {
    if id == 1 {
        demo2_joints()
    } else if id == 5 {
        demo6_joints()
    } else if id == 6 {
        demo7_joints(h)
    } else if id == 7 {
        demo8_joints()
    } else if id == 8 {
        demo9_joints(h)
    } else if id == 9 {
        demo10_joints()
    } else {
        Seq::empty()
    }
}

/// The generator state after scenario `id` has drawn what it needs.
#[verifier::opaque]
pub open spec fn scenario_rng_after(id: u32, seed: u64) -> u64 {
    if id == 3 {
        lcg_iter(seed, 10)
    } else {
        seed
    }
}

/// Clears the world and builds the selected scenario, provided the id lies
/// in the catalog; an id outside the catalog leaves the world, and the
/// generator, exactly as they were and reports `false`.
pub fn build_scenario(world: &mut World, id: u32, h: i64, rng: &mut Rng) -> (loaded: bool)
    requires
        id == 6 ==> tuning_inputs_ok(10_000_000, 2_000_000, 700_000, h as int),
        id == 8 ==> tuning_inputs_ok(10_000_000, 4_000_000, 700_000, h as int),
    ensures
        loaded == (id < SCENARIO_COUNT),
        id < SCENARIO_COUNT ==> {
            &&& final(world)@.bodies == scenario_bodies(id, h, old(rng).state)
            &&& final(world)@.joints == scenario_joints(id, h)
            &&& final(world)@.gravity == old(world)@.gravity
            &&& final(world)@.iterations == old(world)@.iterations
            &&& final(rng).state == scenario_rng_after(id, old(rng).state)
        },
        id >= SCENARIO_COUNT ==> *final(world) == *old(world) && *final(rng) == *old(rng),
{
    proof {
        reveal(scenario_bodies);
        reveal(scenario_joints);
        reveal(scenario_rng_after);
    }
    if id >= SCENARIO_COUNT {
        return false;
    }
    world.clear();
    if id == 0 {
        demo1(world);
    } else if id == 1 {
        demo2(world);
    } else if id == 2 {
        demo3(world);
    } else if id == 3 {
        demo4(world, rng);
    } else if id == 4 {
        demo5(world);
    } else if id == 5 {
        demo6(world);
    } else if id == 6 {
        demo7(world, h);
    } else if id == 7 {
        demo8(world);
    } else if id == 8 {
        demo9(world, h);
    } else {
        demo10(world);
    }
    true
}

/// The world invariant the catalog maintains: every joint a scenario
/// constructs references two distinct bodies present in the same world
/// generation, never across a rebuild boundary.
pub proof fn lemma_scenario_joints_reference_current_bodies(id: u32, h: i64, seed: u64)
    ensures
        forall|k: int|
            0 <= k < scenario_joints(id, h).len() ==> {
                let j = #[trigger] scenario_joints(id, h)[k];
                &&& j.body_a < scenario_bodies(id, h, seed).len()
                &&& j.body_b < scenario_bodies(id, h, seed).len()
                &&& j.body_a != j.body_b
            },
{
    reveal(scenario_bodies);
    reveal(scenario_joints);
    if id == 6 {
        assert(demo7_bodies().len() == 17);
        assert forall|k: int| 0 <= k < demo7_joints(h).len() implies {
            let j = #[trigger] demo7_joints(h)[k];
            &&& j.body_a < 17
            &&& j.body_b < 17
            &&& j.body_a != j.body_b
        } by {
            assert(demo7_joints(h)[k] == demo7_joint(k, h));
        }
    } else if id == 8 {
        assert(demo9_bodies().len() == 16);
        assert forall|k: int| 0 <= k < demo9_joints(h).len() implies {
            let j = #[trigger] demo9_joints(h)[k];
            &&& j.body_a < 16
            &&& j.body_b < 16
            &&& j.body_a != j.body_b
        } by {
            assert(demo9_joints(h)[k] == demo9_joint(k, h));
        }
    }
}

/// Determinism of the catalog: two worlds built from the same scenario id,
/// time step and seed agree in body count, in every body's shape, mass,
/// pose and velocities, and in joint count and anchors.
pub proof fn lemma_scenario_deterministic(
    id: u32,
    h: i64,
    seed: u64,
    w1: WorldModel,
    w2: WorldModel,
)
    requires
        w1.bodies == scenario_bodies(id, h, seed),
        w1.joints == scenario_joints(id, h),
        w2.bodies == scenario_bodies(id, h, seed),
        w2.joints == scenario_joints(id, h),
    ensures
        w1.bodies.len() == w2.bodies.len(),
        forall|i: int|
            0 <= i < w1.bodies.len() ==> {
                &&& (#[trigger] w1.bodies[i]).shape == w2.bodies[i].shape
                &&& w1.bodies[i].mass == w2.bodies[i].mass
                &&& w1.bodies[i].position == w2.bodies[i].position
                &&& w1.bodies[i].rotation == w2.bodies[i].rotation
                &&& w1.bodies[i].velocity == w2.bodies[i].velocity
                &&& w1.bodies[i].angular_velocity == w2.bodies[i].angular_velocity
            },
        w1.joints.len() == w2.joints.len(),
        forall|i: int|
            0 <= i < w1.joints.len() ==> (#[trigger] w1.joints[i]).anchor == w2.joints[i].anchor,
{
}

} // verus!
