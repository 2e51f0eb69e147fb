use physics_sandbox::body::Shape;
use physics_sandbox::math::{RotMat, Vec2};
use physics_sandbox::orchestrator::{routine_for, CollideRoutine, EngineOp, Orchestrator};
use physics_sandbox::overlay::{
    build_overlay, ArbiterView, BodyView, Color, ContactView, JointView, Primitive,
    SimulationSettings, WorldView,
};
use physics_sandbox::probes::{build_probe, PROBE_COUNT};
use physics_sandbox::scenarios::DEFAULT_TIME_STEP;
use physics_sandbox::world::World;

fn new_orchestrator() -> Orchestrator {
    Orchestrator::new(Vec2::new(0, -10_000_000), 100, DEFAULT_TIME_STEP, 42)
}

fn settings() -> SimulationSettings {
    SimulationSettings {
        scale: 18_000_000,
        x_translate: 0,
        y_translate: 0,
        marker_color: Color { r: 255, g: 255, b: 255 },
        warm_starting: true,
        position_correction: true,
        accumulate_impulse: true,
    }
}

fn box_view(x: i64, y: i64) -> BodyView {
    BodyView {
        shape: Shape::Box,
        width: Vec2::new(1_000_000, 1_000_000),
        vertices: Vec::new(),
        position: Vec2::new(x, y),
        rotation: 0,
        rot: RotMat { c: 1_000_000, s: 0 },
    }
}

#[test]
fn orchestrator_starts_with_documented_settings() {
    let o = new_orchestrator();
    assert_eq!(o.settings.scale, 18_000_000);
    assert_eq!(o.settings.x_translate, 0);
    assert_eq!(o.settings.y_translate, 0);
    assert_eq!(o.settings.marker_color, Color { r: 255, g: 255, b: 255 });
    assert!(o.settings.warm_starting);
    assert!(o.settings.position_correction);
    assert!(o.settings.accumulate_impulse);
}

#[test]
fn first_tick_builds_then_steps() {
    let mut o = new_orchestrator();
    assert_eq!(o.world.bodies.len(), 0);
    let ops = o.tick();
    assert_eq!(
        ops,
        vec![EngineOp::Rebuild, EngineOp::Step { backward: false }]
    );
    assert!(o.started);
    // scenario 0 is the default: four bodies, no joints
    assert_eq!(o.world.bodies.len(), 4);
    assert_eq!(o.world.joints.len(), 0);
}

#[test]
fn running_tick_steps_before_reloading() {
    let mut o = new_orchestrator();
    o.tick();
    o.select_scenario(1);
    o.request_reload();
    let ops = o.tick();
    assert_eq!(
        ops,
        vec![EngineOp::Step { backward: false }, EngineOp::Rebuild]
    );
    assert_eq!(o.world.bodies.len(), 2);
    assert_eq!(o.world.joints.len(), 1);
    assert_eq!(o.world.joints[0].anchor, Vec2::new(0, 11_000_000));
}

#[test]
fn invalid_selection_leaves_world_unchanged_after_next_tick() {
    let mut o = new_orchestrator();
    o.tick();
    let before = o.world.clone();
    o.select_scenario(42);
    o.request_reload();
    let ops = o.tick();
    assert_eq!(ops, vec![EngineOp::Step { backward: false }]);
    assert_eq!(o.world, before);
    assert!(!o.pending_reload);
}

#[test]
fn reload_request_does_not_touch_the_world_until_the_next_tick() {
    let mut o = new_orchestrator();
    o.tick();
    o.select_scenario(1);
    let before = o.world.clone();
    o.request_reload();
    // the tick that issued the request still renders the old world
    assert_eq!(o.world, before);
    o.tick();
    // only the following tick reflects the new scenario
    assert_ne!(o.world, before);
    assert_eq!(o.world.bodies.len(), 2);
}

#[test]
fn bomb_request_spawns_on_next_tick() {
    let mut o = new_orchestrator();
    o.tick();
    let n = o.world.bodies.len();
    o.request_bomb();
    let ops = o.tick();
    assert_eq!(
        ops,
        vec![
            EngineOp::Step { backward: false },
            EngineOp::SpawnBody { index: n },
        ]
    );
    assert_eq!(o.world.bodies.len(), n + 1);
    assert!(!o.bomb_pending);
}

#[test]
fn step_once_reports_direction() {
    let o = new_orchestrator();
    assert_eq!(o.step_once(false), EngineOp::Step { backward: false });
    assert_eq!(o.step_once(true), EngineOp::Step { backward: true });
}

#[test]
fn perturb_moves_the_second_body() {
    let mut o = new_orchestrator();
    o.tick();
    // scenario 0: second body rests at (0, 3)
    let op = o.perturb_body(500_000, -250_000);
    assert_eq!(
        op,
        Some(EngineOp::SetPosition {
            index: 1,
            position: Vec2::new(500_000, 2_750_000),
        })
    );
    assert_eq!(o.world.bodies[1].position, Vec2::new(500_000, 2_750_000));
}

#[test]
fn perturb_without_second_body_is_ignored() {
    let mut o = new_orchestrator();
    assert_eq!(o.perturb_body(500_000, 0), None);
    assert_eq!(o.world.bodies.len(), 0);
}

#[test]
fn dispatch_takes_box_routine_only_for_two_boxes() {
    assert_eq!(routine_for(Shape::Box, Shape::Box), CollideRoutine::BoxBox);
    assert_eq!(
        routine_for(Shape::Box, Shape::ConvexPolygon),
        CollideRoutine::Polygons
    );
    assert_eq!(
        routine_for(Shape::ConvexPolygon, Shape::Box),
        CollideRoutine::Polygons
    );
    assert_eq!(
        routine_for(Shape::ConvexPolygon, Shape::ConvexPolygon),
        CollideRoutine::Polygons
    );
}

#[test]
fn recompute_contacts_dispatches_on_shape_kinds() {
    let mut o = new_orchestrator();
    o.tick();
    // scenario 0: bodies 0 and 1 are boxes
    assert_eq!(
        o.recompute_contacts(),
        Some(EngineOp::RecomputeContacts {
            routine: CollideRoutine::BoxBox,
            body_a: 0,
            body_b: 1,
        })
    );
    // scenario 9: body 0 is a box, body 1 a convex polygon
    o.select_scenario(9);
    o.request_reload();
    o.tick();
    assert_eq!(
        o.recompute_contacts(),
        Some(EngineOp::RecomputeContacts {
            routine: CollideRoutine::Polygons,
            body_a: 0,
            body_b: 1,
        })
    );
}

#[test]
fn probe_pairs_dispatch_by_shape_kind() {
    for id in 0..PROBE_COUNT {
        let mut w = World::new(Vec2::new(0, -10_000_000), 100);
        assert!(build_probe(&mut w, id));
        assert_eq!(w.bodies.len(), 2);
        assert_eq!(w.joints.len(), 0);
        let routine = routine_for(w.bodies[0].shape, w.bodies[1].shape);
        if id < 6 {
            assert_eq!(routine, CollideRoutine::BoxBox);
        } else {
            assert_eq!(routine, CollideRoutine::Polygons);
        }
    }
}

#[test]
fn invalid_probe_id_leaves_world_unchanged() {
    let mut w = World::new(Vec2::new(0, -10_000_000), 100);
    build_probe(&mut w, 2);
    let before = w.clone();
    assert!(!build_probe(&mut w, PROBE_COUNT));
    assert_eq!(w, before);
}

#[test]
fn overlay_draws_bodies_with_index_based_colors() {
    let view = WorldView {
        bodies: vec![box_view(0, -10_000_000), box_view(0, 3_000_000)],
        arbiters: Vec::new(),
        joints: Vec::new(),
    };
    let prims = build_overlay(&view, &settings());
    assert_eq!(prims.len(), 2);
    match &prims[0] {
        Primitive::Rect { color, .. } => assert_eq!(*color, Color { r: 143, g: 188, b: 143 }),
        other => panic!("expected a rectangle, got {:?}", other),
    }
    match &prims[1] {
        Primitive::Rect { center, color, .. } => {
            assert_eq!(*center, Vec2::new(0, 3_000_000));
            assert_eq!(*color, Color { r: 218, g: 112, b: 214 });
        }
        other => panic!("expected a rectangle, got {:?}", other),
    }
}

#[test]
fn overlay_skips_absent_contact_slots() {
    let contact = ContactView {
        position: Vec2::new(5_000_000, 0),
        normal: Vec2::new(0, 1_000_000),
    };
    let view = WorldView {
        bodies: vec![box_view(0, 0)],
        arbiters: vec![
            ArbiterView { contacts: vec![Some(contact), None] },
            ArbiterView { contacts: vec![None, None] },
        ],
        joints: Vec::new(),
    };
    let prims = build_overlay(&view, &settings());
    let markers: Vec<&Primitive> = prims
        .iter()
        .filter(|p| matches!(p, Primitive::Marker { .. }))
        .collect();
    assert_eq!(markers.len(), 1);
    match markers[0] {
        Primitive::Marker { position, color } => {
            assert_eq!(*position, Vec2::new(5_000_000, 0));
            assert_eq!(*color, settings().marker_color);
        }
        _ => unreachable!(),
    }
    // the one present contact also contributes its unit normal arrow
    match &prims[2] {
        Primitive::Segment { start, end, color } => {
            assert_eq!(*start, Vec2::new(5_000_000, 0));
            assert_eq!(*end, Vec2::new(5_000_000, 1_000_000));
            assert_eq!(*color, Color { r: 255, g: 160, b: 122 });
        }
        other => panic!("expected a segment, got {:?}", other),
    }
}

#[test]
fn overlay_with_no_contacts_draws_no_markers() {
    let view = WorldView {
        bodies: vec![box_view(0, 0)],
        arbiters: vec![ArbiterView { contacts: vec![None, None] }],
        joints: Vec::new(),
    };
    let prims = build_overlay(&view, &settings());
    assert!(prims
        .iter()
        .all(|p| !matches!(p, Primitive::Marker { .. })));
    assert_eq!(prims.len(), 1);
}

#[test]
fn overlay_transforms_joint_anchors_by_live_rotation() {
    // body 1 is rotated a quarter turn: cos 0, sin 1
    let mut rotated = box_view(4_000_000, 0);
    rotated.rot = RotMat { c: 0, s: 1_000_000 };
    let view = WorldView {
        bodies: vec![box_view(0, 0), rotated],
        arbiters: Vec::new(),
        joints: vec![JointView {
            body_a: 0,
            body_b: 1,
            local_anchor_a: Vec2::new(1_000_000, 0),
            local_anchor_b: Vec2::new(2_000_000, 0),
        }],
    };
    let prims = build_overlay(&view, &settings());
    assert_eq!(prims.len(), 4);
    match &prims[2] {
        Primitive::Segment { start, end, .. } => {
            assert_eq!(*start, Vec2::new(0, 0));
            assert_eq!(*end, Vec2::new(1_000_000, 0));
        }
        other => panic!("expected a segment, got {:?}", other),
    }
    match &prims[3] {
        Primitive::Segment { start, end, .. } => {
            assert_eq!(*start, Vec2::new(4_000_000, 0));
            // the quarter turn sends (2, 0) to (0, 2)
            assert_eq!(*end, Vec2::new(4_000_000, 2_000_000));
        }
        other => panic!("expected a segment, got {:?}", other),
    }
}
