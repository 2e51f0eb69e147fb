//! The contact-inspection catalog: fixed two-body arrangements for manually
//! re-querying the narrow phase — box pairs apart, resting, overlapping,
//! tilted and edge-sharing, and polygon pairs — each a pure construction on
//! a freshly cleared world. The re-query itself is the orchestrator's
//! recompute-contacts operation, dispatched on the pair's shape kinds.

use vstd::prelude::*;
use crate::math::Vec2;
use crate::body::{Body, BodyModel, Mass, polygon_model};
use crate::scenarios::{box_at, hexagon_vertices, pentagon_vertices};
use crate::world::{Joint, World};

verus! {

/// A quarter turn in micro-radians, rounded toward zero.
pub const QUARTER_TURN: i64 = 785_398;

/// Two unit boxes standing apart.
pub open spec fn probe1_bodies() -> Seq<BodyModel> {
    seq![
        box_at(1_000_000, 1_000_000, Mass::Finite(1_000_000), 10_000_000, 1_000_000, 0, 200_000),
        box_at(1_000_000, 1_000_000, Mass::Finite(1_000_000), 15_000_000, 5_000_000, 0, 200_000),
    ]
}

/// A heavy box resting on the floor body.
pub open spec fn probe2_bodies() -> Seq<BodyModel> {
    seq![
        box_at(100_000_000, 20_000_000, Mass::Infinite, 0, -10_000_000i64, 0, 200_000),
        box_at(1_000_000, 1_000_000, Mass::Finite(200_000_000), 0, 0, 0, 200_000),
    ]
}

/// Two overlapping boxes.
pub open spec fn probe3_bodies() -> Seq<BodyModel> {
    seq![
        box_at(2_000_000, 2_000_000, Mass::Finite(1_000_000), 11_000_000, 3_000_000, 0, 200_000),
        box_at(2_000_000, 2_000_000, Mass::Finite(1_000_000), 12_000_000, 2_000_000, 0, 200_000),
    ]
}

/// Two tilted boxes, overlapping.
pub open spec fn probe4_bodies() -> Seq<BodyModel> {
    seq![
        box_at(4_000_000, 4_000_000, Mass::Finite(1_000_000), 12_000_000, 0, QUARTER_TURN, 200_000),
        box_at(
            2_000_000,
            2_000_000,
            Mass::Finite(1_000_000),
            15_500_000,
            1_000_000,
            QUARTER_TURN,
            200_000,
        ),
    ]
}

/// Two tilted boxes, apart.
pub open spec fn probe5_bodies() -> Seq<BodyModel> {
    seq![
        box_at(4_000_000, 4_000_000, Mass::Finite(1_000_000), 14_000_000, 2_000_000, QUARTER_TURN, 200_000),
        box_at(2_000_000, 2_000_000, Mass::Finite(1_000_000), 18_000_000, 2_000_000, QUARTER_TURN, 200_000),
    ]
}

/// Two tilted boxes sharing an edge.
pub open spec fn probe6_bodies() -> Seq<BodyModel> {
    seq![
        box_at(2_000_000, 2_000_000, Mass::Finite(1_000_000), 1_000_000, 1_000_000, QUARTER_TURN, 200_000),
        box_at(2_000_000, 2_000_000, Mass::Finite(1_000_000), 5_000_000, 1_000_000, QUARTER_TURN, 200_000),
    ]
}

/// A pentagon and a hexagon, both at the origin: a polygon-polygon query.
pub open spec fn probe7_bodies() -> Seq<BodyModel> {
    seq![
        polygon_model(pentagon_vertices(), Mass::Finite(1_000_000)),
        polygon_model(hexagon_vertices(), Mass::Finite(1_000_000)),
    ]
}

/// A tilted box against a hexagon: a mixed pair, so the general routine.
pub open spec fn probe8_bodies() -> Seq<BodyModel> {
    seq![
        box_at(2_000_000, 2_000_000, Mass::Finite(1_000_000), 1_000_000, 1_000_000, QUARTER_TURN, 200_000),
        polygon_model(hexagon_vertices(), Mass::Finite(1_000_000)),
    ]
}

/// How many probe arrangements the catalog holds.
pub const PROBE_COUNT: u32 = 8;

/// The bodies probe `id` constructs.
pub open spec fn probe_bodies(id: u32) -> Seq<BodyModel> {
    if id == 0 {
        probe1_bodies()
    } else if id == 1 {
        probe2_bodies()
    } else if id == 2 {
        probe3_bodies()
    } else if id == 3 {
        probe4_bodies()
    } else if id == 4 {
        probe5_bodies()
    } else if id == 5 {
        probe6_bodies()
    } else if id == 6 {
        probe7_bodies()
    } else if id == 7 {
        probe8_bodies()
    } else {
        Seq::empty()
    }
}

fn add_probe_box(world: &mut World, w: i64, mass: i64, x: i64, y: i64, rot: i64) -> (idx: usize)
    ensures
        idx == old(world)@.bodies.len(),
        final(world)@.bodies == old(world)@.bodies.push(
            box_at(w, w, Mass::Finite(mass), x, y, rot, 200_000),
        ),
        final(world)@.joints == old(world)@.joints,
        final(world)@.gravity == old(world)@.gravity,
        final(world)@.iterations == old(world)@.iterations,
{
    let mut b = Body::new_box(Vec2 { x: w, y: w }, Mass::Finite(mass));
    b.position = Vec2 { x, y };
    b.rotation = rot;
    world.add_body(b)
}

fn pentagon_vec() -> (r: Vec<Vec2>)
    ensures
        r@ == pentagon_vertices(),
{
    let r = vec![
        Vec2 { x: 0, y: 1_000_000 },
        Vec2 { x: -950_000, y: 310_000 },
        Vec2 { x: -590_000, y: -810_000 },
        Vec2 { x: 590_000, y: -810_000 },
        Vec2 { x: 950_000, y: 310_000 },
    ];
    proof {
        assert(r@ =~= pentagon_vertices());
    }
    r
}

fn hexagon_vec() -> (r: Vec<Vec2>)
    ensures
        r@ == hexagon_vertices(),
{
    let r = vec![
        Vec2 { x: 0, y: 1_000_000 },
        Vec2 { x: -870_000, y: 500_000 },
        Vec2 { x: -870_000, y: -500_000 },
        Vec2 { x: 0, y: -1_000_000 },
        Vec2 { x: 870_000, y: -500_000 },
        Vec2 { x: 870_000, y: 500_000 },
    ];
    proof {
        assert(r@ =~= hexagon_vertices());
    }
    r
}

/// Clears the world and builds the selected probe arrangement, provided the
/// id lies in the catalog; an id outside it leaves the world exactly as it
/// was and reports `false`.
pub fn build_probe(world: &mut World, id: u32) -> (loaded: bool)
    ensures
        loaded == (id < PROBE_COUNT),
        id < PROBE_COUNT ==> {
            &&& final(world)@.bodies == probe_bodies(id)
            &&& final(world)@.joints == Seq::<Joint>::empty()
            &&& final(world)@.gravity == old(world)@.gravity
            &&& final(world)@.iterations == old(world)@.iterations
        },
        id >= PROBE_COUNT ==> *final(world) == *old(world),
{
    if id >= PROBE_COUNT {
        return false;
    }
    world.clear();
    if id == 0 {
        add_probe_box(world, 1_000_000, 1_000_000, 10_000_000, 1_000_000, 0);
        add_probe_box(world, 1_000_000, 1_000_000, 15_000_000, 5_000_000, 0);
    } else if id == 1 {
        let mut floor = Body::new_box(
            Vec2 { x: 100_000_000, y: 20_000_000 },
            Mass::Infinite,
        );
        floor.position = Vec2 { x: 0, y: -10_000_000 };
        world.add_body(floor);
        add_probe_box(world, 1_000_000, 200_000_000, 0, 0, 0);
    } else if id == 2 {
        add_probe_box(world, 2_000_000, 1_000_000, 11_000_000, 3_000_000, 0);
        add_probe_box(world, 2_000_000, 1_000_000, 12_000_000, 2_000_000, 0);
    } else if id == 3 {
        add_probe_box(world, 4_000_000, 1_000_000, 12_000_000, 0, QUARTER_TURN);
        add_probe_box(world, 2_000_000, 1_000_000, 15_500_000, 1_000_000, QUARTER_TURN);
    } else if id == 4 {
        add_probe_box(world, 4_000_000, 1_000_000, 14_000_000, 2_000_000, QUARTER_TURN);
        add_probe_box(world, 2_000_000, 1_000_000, 18_000_000, 2_000_000, QUARTER_TURN);
    } else if id == 5 {
        add_probe_box(world, 2_000_000, 1_000_000, 1_000_000, 1_000_000, QUARTER_TURN);
        add_probe_box(world, 2_000_000, 1_000_000, 5_000_000, 1_000_000, QUARTER_TURN);
    } else if id == 6 {
        world.add_body(Body::new_polygon(pentagon_vec(), Mass::Finite(1_000_000)));
        world.add_body(Body::new_polygon(hexagon_vec(), Mass::Finite(1_000_000)));
    } else {
        add_probe_box(world, 2_000_000, 1_000_000, 1_000_000, 1_000_000, QUARTER_TURN);
        world.add_body(Body::new_polygon(hexagon_vec(), Mass::Finite(1_000_000)));
    }
    proof {
        assert(world@.bodies =~= probe_bodies(id));
        assert(world@.joints =~= Seq::<Joint>::empty());
    }
    true
}

} // verus!
