//! The world aggregate: every current body, every current joint, and the
//! engine parameters a scenario hands through unchanged.
//!
//! Joints address bodies by arena index, so clearing the world invalidates
//! every joint together with the bodies it referenced; a joint is only ever
//! constructed from bodies already present in the current world.

use vstd::prelude::*;
use crate::math::Vec2;
use crate::body::{Body, BodyModel, vec2_ok, COORD_LIMIT};
use crate::tuning::JointTuning;

verus! {

/// Bias-correction factor a joint constructor assigns when a scenario does
/// not override it: 0.2 in fixed point.
pub const JOINT_BIAS_DEFAULT: i64 = 200_000;

/// A constraint binding two bodies, by arena index, at a shared world-space
/// anchor; `softness` and `bias_factor` tune how rigidly it is enforced.
#[derive(Clone, Copy, Debug, PartialEq, Eq, Structural)]
pub struct Joint {
    pub body_a: usize,
    pub body_b: usize,
    /// The world-space anchor the joint was constructed at.
    pub anchor: Vec2,
    /// The anchor in each body's local frame at construction time.
    pub local_anchor_a: Vec2,
    pub local_anchor_b: Vec2,
    pub softness: i64,
    pub bias_factor: i64,
}

/// The single live world: bodies and joints in insertion order, plus the
/// engine parameters chosen at construction.
#[derive(Clone, Debug, PartialEq)]
pub struct World {
    pub gravity: Vec2,
    pub iterations: u32,
    pub bodies: Vec<Body>,
    pub joints: Vec<Joint>,
}

/// The mathematical value of a `World`.
pub struct WorldModel {
    pub gravity: Vec2,
    pub iterations: u32,
    pub bodies: Seq<BodyModel>,
    pub joints: Seq<Joint>,
}

impl View for World {
    type V = WorldModel;

    open spec fn view(&self) -> WorldModel {
        WorldModel {
            gravity: self.gravity,
            iterations: self.iterations,
            bodies: self.bodies@.map_values(|b: Body| b@),
            joints: self.joints@,
        }
    }
}

/// A joint is well formed against a body count: its two indices name
/// distinct bodies that exist, and its geometry and tuning are in range.
pub open spec fn joint_wf(j: Joint, n_bodies: int) -> bool {
    &&& j.body_a < n_bodies
    &&& j.body_b < n_bodies
    &&& j.body_a != j.body_b
    &&& vec2_ok(j.anchor)
    &&& vec2_ok(j.local_anchor_a)
    &&& vec2_ok(j.local_anchor_b)
    &&& 0 <= j.softness <= COORD_LIMIT
    &&& 0 <= j.bias_factor <= COORD_LIMIT
}

impl WorldModel {
    /// Every body well formed and every joint referencing bodies present in
    /// this same world generation.
    pub open spec fn wf(self) -> bool {
        &&& vec2_ok(self.gravity)
        &&& forall|i: int| 0 <= i < self.bodies.len() ==> (#[trigger] self.bodies[i]).wf()
        &&& forall|i: int|
            0 <= i < self.joints.len() ==> joint_wf(#[trigger] self.joints[i], self.bodies.len() as int)
    }

    /// The world holds no scenario: no bodies and no joints.
    pub open spec fn is_cleared(self) -> bool {
        self.bodies.len() == 0 && self.joints.len() == 0
    }
}

/// The joint built from two bodies of `bodies` at a world anchor: local
/// anchors are the world anchor expressed in each body's frame (the bodies
/// are unrotated at construction), tuning at the documented defaults.
pub open spec fn joint_model(bodies: Seq<BodyModel>, a: usize, b: usize, anchor: Vec2) -> Joint {
    Joint {
        body_a: a,
        body_b: b,
        anchor,
        local_anchor_a: Vec2 {
            x: (anchor.x - bodies[a as int].position.x) as i64,
            y: (anchor.y - bodies[a as int].position.y) as i64,
        },
        local_anchor_b: Vec2 {
            x: (anchor.x - bodies[b as int].position.x) as i64,
            y: (anchor.y - bodies[b as int].position.y) as i64,
        },
        softness: 0,
        bias_factor: JOINT_BIAS_DEFAULT,
    }
}

impl World {
    /// An empty world under the given gravity and solver iteration count.
    pub fn new(gravity: Vec2, iterations: u32) -> (r: World)
        ensures
            r@ == (WorldModel {
                gravity,
                iterations,
                bodies: Seq::<BodyModel>::empty(),
                joints: Seq::<Joint>::empty(),
            }),
    {
        let r = World { gravity, iterations, bodies: Vec::new(), joints: Vec::new() };
        proof {
            assert(r@.bodies =~= Seq::<BodyModel>::empty());
        }
        r
    }

    /// Removes every body, joint and (with them) contact; gravity and the
    /// iteration count are kept.
    pub fn clear(&mut self)
        ensures
            final(self)@.is_cleared(),
            final(self)@.gravity == old(self)@.gravity,
            final(self)@.iterations == old(self)@.iterations,
    {
        self.bodies = Vec::new();
        self.joints = Vec::new();
    }

    /// Moves a body into the world; the returned index is its stable handle.
    pub fn add_body(&mut self, body: Body) -> (idx: usize)
        ensures
            idx == old(self)@.bodies.len(),
            final(self)@.bodies == old(self)@.bodies.push(body@),
            final(self)@.joints == old(self)@.joints,
            final(self)@.gravity == old(self)@.gravity,
            final(self)@.iterations == old(self)@.iterations,
    {
        let idx = self.bodies.len();
        self.bodies.push(body);
        proof {
            assert(self@.bodies =~= old(self)@.bodies.push(self.bodies@.last()@));
        }
        idx
    }

    /// Constructs a joint between two bodies already added to this world, at
    /// a world-space anchor, and adds it. The bodies must still be unrotated,
    /// as they are at scenario-construction time, so the local anchors are
    /// plain offsets.
    pub fn attach_joint(&mut self, a: usize, b: usize, anchor: Vec2) -> (j: Joint)
        requires
            a < old(self)@.bodies.len(),
            b < old(self)@.bodies.len(),
            a != b,
            old(self)@.bodies[a as int].rotation == 0,
            old(self)@.bodies[b as int].rotation == 0,
            vec2_ok(old(self)@.bodies[a as int].position),
            vec2_ok(old(self)@.bodies[b as int].position),
            vec2_ok(anchor),
        ensures
            j == joint_model(old(self)@.bodies, a, b, anchor),
            final(self)@.joints == old(self)@.joints.push(j),
            final(self)@.bodies == old(self)@.bodies,
            final(self)@.gravity == old(self)@.gravity,
            final(self)@.iterations == old(self)@.iterations,
    {
        let pa = self.bodies[a].position;
        let pb = self.bodies[b].position;
        let j = Joint {
            body_a: a,
            body_b: b,
            anchor,
            local_anchor_a: Vec2 { x: anchor.x - pa.x, y: anchor.y - pa.y },
            local_anchor_b: Vec2 { x: anchor.x - pb.x, y: anchor.y - pb.y },
            softness: 0,
            bias_factor: JOINT_BIAS_DEFAULT,
        };
        self.joints.push(j);
        j
    }

    /// Like `attach_joint`, but with the joint's tuning overridden by a
    /// spring-damper-derived pair instead of the defaults.
    pub fn attach_soft_joint(&mut self, a: usize, b: usize, anchor: Vec2, t: JointTuning) -> (j:
        Joint)
        requires
            a < old(self)@.bodies.len(),
            b < old(self)@.bodies.len(),
            a != b,
            old(self)@.bodies[a as int].rotation == 0,
            old(self)@.bodies[b as int].rotation == 0,
            vec2_ok(old(self)@.bodies[a as int].position),
            vec2_ok(old(self)@.bodies[b as int].position),
            vec2_ok(anchor),
        ensures
            j == (Joint {
                softness: t.softness,
                bias_factor: t.bias_factor,
                ..joint_model(old(self)@.bodies, a, b, anchor)
            }),
            final(self)@.joints == old(self)@.joints.push(j),
            final(self)@.bodies == old(self)@.bodies,
            final(self)@.gravity == old(self)@.gravity,
            final(self)@.iterations == old(self)@.iterations,
    {
        let pa = self.bodies[a].position;
        let pb = self.bodies[b].position;
        let j = Joint {
            body_a: a,
            body_b: b,
            anchor,
            local_anchor_a: Vec2 { x: anchor.x - pa.x, y: anchor.y - pa.y },
            local_anchor_b: Vec2 { x: anchor.x - pb.x, y: anchor.y - pb.y },
            softness: t.softness,
            bias_factor: t.bias_factor,
        };
        self.joints.push(j);
        j
    }
}

} // verus!
