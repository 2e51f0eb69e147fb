use physics_sandbox::body::{Body, Mass, Shape};
use physics_sandbox::math::{fx_mul, Vec2};
use physics_sandbox::rng::Rng;
use physics_sandbox::scenarios::{
    build_scenario, demo1, demo2, demo4, demo5, demo7, launch_bomb, DEFAULT_TIME_STEP,
    SCENARIO_COUNT,
};
use physics_sandbox::tuning::soft_joint_tuning;
use physics_sandbox::world::World;

fn empty_world() -> World {
    World::new(Vec2::new(0, -10_000_000), 100)
}

#[test]
fn fx_mul_is_exact_on_scenario_constants() {
    assert_eq!(fx_mul(2_000_000, 3_000_000), 6_000_000);
    assert_eq!(fx_mul(500_000, 500_000), 250_000);
    assert_eq!(fx_mul(-1_500_000, 1_000_000), -1_500_000);
}

#[test]
fn fx_mul_rounds_magnitude_toward_zero() {
    assert_eq!(fx_mul(1, 1), 0);
    assert_eq!(fx_mul(-1, 999_999), 0);
    assert_eq!(fx_mul(-1_999_999, 500_000), -999_999);
}

#[test]
fn rng_is_deterministic_and_bounded() {
    let mut a = Rng::new(7);
    let mut b = Rng::new(7);
    for _ in 0..100 {
        let x = a.next_below(200_000);
        let y = b.next_below(200_000);
        assert_eq!(x, y);
        assert!(x < 200_000);
    }
}

#[test]
fn bridge_tuning_has_exact_fixed_point_values() {
    let t = soft_joint_tuning(10_000_000, 2_000_000, 700_000, DEFAULT_TIME_STEP);
    assert_eq!(t.softness, 4_944);
    assert_eq!(t.bias_factor, 130_134);
}

#[test]
fn pendulum_chain_tuning_has_exact_fixed_point_values() {
    let t = soft_joint_tuning(10_000_000, 4_000_000, 700_000, DEFAULT_TIME_STEP);
    assert_eq!(t.softness, 2_187);
    assert_eq!(t.bias_factor, 230_298);
}

#[test]
fn tuning_lies_in_unit_interval() {
    for zeta in [0, 100_000, 700_000, 5_000_000, 900_000_000] {
        let t = soft_joint_tuning(10_000_000, 2_000_000, zeta, DEFAULT_TIME_STEP);
        assert!(t.softness > 0 && t.softness <= 1_000_000);
        assert!(t.bias_factor >= 0 && t.bias_factor <= 1_000_000);
    }
}

#[test]
fn bias_factor_falls_as_damping_ratio_grows() {
    let mut last = i64::MAX;
    for zeta in [0, 350_000, 700_000, 1_400_000, 14_000_000, 900_000_000] {
        let t = soft_joint_tuning(10_000_000, 2_000_000, zeta, DEFAULT_TIME_STEP);
        assert!(t.bias_factor <= last);
        last = t.bias_factor;
    }
    let near = soft_joint_tuning(10_000_000, 2_000_000, 0, DEFAULT_TIME_STEP);
    let far = soft_joint_tuning(10_000_000, 2_000_000, 900_000_000, DEFAULT_TIME_STEP);
    assert!(far.bias_factor < near.bias_factor);
}

#[test]
fn every_scenario_builds_identically_twice() {
    for id in 0..SCENARIO_COUNT {
        let mut w1 = empty_world();
        let mut w2 = empty_world();
        let mut r1 = Rng::new(99);
        let mut r2 = Rng::new(99);
        assert!(build_scenario(&mut w1, id, DEFAULT_TIME_STEP, &mut r1));
        assert!(build_scenario(&mut w2, id, DEFAULT_TIME_STEP, &mut r2));
        assert_eq!(w1.bodies.len(), w2.bodies.len());
        assert_eq!(w1.joints.len(), w2.joints.len());
        assert_eq!(w1, w2);
    }
}

#[test]
fn randomized_stack_differs_across_seeds_but_stays_in_jitter_range() {
    let mut w1 = empty_world();
    let mut w2 = empty_world();
    demo4(&mut w1, &mut Rng::new(1));
    demo4(&mut w2, &mut Rng::new(2));
    assert_eq!(w1.bodies.len(), 11);
    assert_ne!(w1, w2);
    for b in w1.bodies.iter().skip(1) {
        assert!(b.position.x >= -100_000 && b.position.x < 100_000);
    }
}

#[test]
fn single_shapes_scenario_contents() {
    let mut w = empty_world();
    demo1(&mut w);
    assert_eq!(w.bodies.len(), 4);
    assert_eq!(w.joints.len(), 0);
    assert_eq!(w.bodies[0].shape, Shape::Box);
    assert_eq!(w.bodies[0].mass, Mass::Infinite);
    assert_eq!(w.bodies[0].position, Vec2::new(0, -10_000_000));
    assert_eq!(w.bodies[1].mass, Mass::Finite(200_000_000));
    assert_eq!(w.bodies[2].shape, Shape::ConvexPolygon);
    assert_eq!(w.bodies[2].friction, 100_000_000);
    assert_eq!(w.bodies[2].vertices.len(), 5);
    assert_eq!(w.bodies[3].rotation, 45_000_000);
    assert_eq!(w.bodies[3].vertices.len(), 6);
}

#[test]
fn pendulum_scenario_contents() {
    let mut w = empty_world();
    demo2(&mut w);
    assert_eq!(w.bodies.len(), 2);
    assert_eq!(w.bodies[0].mass, Mass::Infinite);
    assert_eq!(w.bodies[1].mass, Mass::Finite(100_000_000));
    assert_eq!(w.bodies[1].position, Vec2::new(9_000_000, 11_000_000));
    assert_eq!(w.joints.len(), 1);
    let j = &w.joints[0];
    assert_eq!(j.anchor, Vec2::new(0, 11_000_000));
    assert_eq!(j.local_anchor_a, Vec2::new(0, 21_000_000));
    assert_eq!(j.local_anchor_b, Vec2::new(-9_000_000, 0));
    assert_eq!(j.softness, 0);
    assert_eq!(j.bias_factor, 200_000);
}

#[test]
fn pyramid_scenario_has_all_rows() {
    let mut w = empty_world();
    demo5(&mut w);
    assert_eq!(w.bodies.len(), 1 + 78);
    let top = w.bodies.last().unwrap();
    assert_eq!(top.position, Vec2::new(187_500, 22_750_000));
}

#[test]
fn bridge_scenario_hangs_every_plank_softly() {
    let mut w = empty_world();
    demo7(&mut w, DEFAULT_TIME_STEP);
    assert_eq!(w.bodies.len(), 17);
    assert_eq!(w.joints.len(), 16);
    assert_eq!(w.bodies[1].position, Vec2::new(-8_500_000, 5_000_000));
    for (i, j) in w.joints.iter().enumerate() {
        assert_eq!(j.body_a, i + 1);
        assert_eq!(j.body_b, 0);
        assert_eq!(j.softness, 4_944);
        assert_eq!(j.bias_factor, 130_134);
        assert_eq!(j.anchor.x, -9_125_000 + 1_250_000 * (i as i64));
    }
}

#[test]
fn multi_pendulum_chains_each_link_to_its_predecessor() {
    let mut w = empty_world();
    let mut rng = Rng::new(0);
    assert!(build_scenario(&mut w, 8, DEFAULT_TIME_STEP, &mut rng));
    assert_eq!(w.bodies.len(), 16);
    assert_eq!(w.joints.len(), 15);
    for (i, j) in w.joints.iter().enumerate() {
        assert_eq!(j.body_a, i);
        assert_eq!(j.body_b, i + 1);
        assert_eq!(j.softness, 2_187);
        assert_eq!(j.bias_factor, 230_298);
        assert_eq!(j.anchor, Vec2::new(1_000_000 * i as i64, 12_000_000));
    }
}

#[test]
fn bridge_tuning_follows_the_configured_step() {
    // at a step of 1/30 the spring-damper formula gives a different pair
    // than at the default 1/60
    let mut w = empty_world();
    let mut rng = Rng::new(0);
    assert!(build_scenario(&mut w, 6, 33_333, &mut rng));
    for j in w.joints.iter() {
        assert_eq!(j.softness, 4_375);
        assert_eq!(j.bias_factor, 230_293);
    }
    let t = soft_joint_tuning(10_000_000, 2_000_000, 700_000, 33_333);
    assert_eq!(t.softness, 4_375);
    assert_eq!(t.bias_factor, 230_293);
}

#[test]
fn invalid_scenario_id_is_rejected_without_clearing() {
    let mut w = empty_world();
    demo2(&mut w);
    let before = w.clone();
    let mut rng = Rng::new(5);
    let loaded = build_scenario(&mut w, SCENARIO_COUNT, DEFAULT_TIME_STEP, &mut rng);
    assert!(!loaded);
    assert_eq!(w, before);
    assert_eq!(rng, Rng::new(5));
}

#[test]
fn projectile_flies_back_toward_origin() {
    let mut w = empty_world();
    demo1(&mut w);
    let n = w.bodies.len();
    launch_bomb(&mut w, &mut Rng::new(123));
    assert_eq!(w.bodies.len(), n + 1);
    let bomb = w.bodies.last().unwrap();
    assert_eq!(bomb.mass, Mass::Finite(50_000_000));
    assert_eq!(bomb.friction, 200_000);
    assert_eq!(bomb.position.y, 15_000_000);
    assert!(bomb.position.x >= -15_000_000 && bomb.position.x < 15_000_000);
    // velocity is minus one and a half times the spawn position
    assert_eq!(2 * bomb.velocity.x, -3 * bomb.position.x);
    assert_eq!(bomb.velocity.y, -22_500_000);
    assert!(bomb.angular_velocity >= -20_000_000 && bomb.angular_velocity < 20_000_000);
}

#[test]
fn polygon_width_is_vertex_extent() {
    let pentagon = vec![
        Vec2 { x: 0, y: 1_000_000 },
        Vec2 { x: -950_000, y: 310_000 },
        Vec2 { x: -590_000, y: -810_000 },
        Vec2 { x: 590_000, y: -810_000 },
        Vec2 { x: 950_000, y: 310_000 },
    ];
    let b = Body::new_polygon(pentagon, Mass::Finite(2_000_000));
    assert_eq!(b.width, Vec2::new(1_900_000, 1_810_000));
    assert_eq!(b.shape, Shape::ConvexPolygon);
}
