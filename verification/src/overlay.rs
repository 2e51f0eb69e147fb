//! The diagnostic overlay builder: a pure, stateless translation of the
//! world state the engine exposes each frame — body poses, contact slots and
//! joints — into drawable primitives.
//!
//! The builder consumes a *view*: poses as the engine reports them, with
//! each body's rotation also given as the cosine/sine pair the shell
//! evaluated, so anchor transforms are exact fixed-point algebra here.

use vstd::prelude::*;
use crate::body::{COORD_LIMIT, Shape, vec2_ok};
use crate::math::{
    RotMat,
    Vec2,
    fx_mul,
    fx_mul_spec,
    lemma_fx_mul_abs_bound,
    lemma_product_bound,
    UNIT,
};

verus! {

/// An RGB color.
#[derive(Clone, Copy, Debug, PartialEq, Eq, Structural)]
pub struct Color {
    pub r: u8,
    pub g: u8,
    pub b: u8,
}

/// The color of the first body the scenario added (by convention the
/// ground); the selection is index-based, not physics-based.
pub open spec fn ground_color() -> Color {
    Color { r: 143, g: 188, b: 143 }
}

/// The color of every body but the first.
pub open spec fn dynamic_color() -> Color {
    Color { r: 218, g: 112, b: 214 }
}

/// The fixed accent color of contact-normal arrows.
pub open spec fn accent_color() -> Color {
    Color { r: 255, g: 160, b: 122 }
}

/// The fixed color of joint segments.
pub open spec fn joint_color() -> Color {
    Color { r: 106, g: 90, b: 205 }
}

/// The process-wide, panel-mutable settings: view transform, contact marker
/// color, and the three engine feature toggles the orchestrator passes
/// through without interpreting them.
#[derive(Clone, Copy, Debug, PartialEq, Eq, Structural)]
pub struct SimulationSettings {
    pub scale: i64,
    pub x_translate: i64,
    pub y_translate: i64,
    pub marker_color: Color,
    pub warm_starting: bool,
    pub position_correction: bool,
    pub accumulate_impulse: bool,
}

/// The settings a fresh orchestrator starts from: an 18-unit scale, no
/// origin translation, a white contact marker, every engine feature on.
pub open spec fn default_settings() -> SimulationSettings {
    SimulationSettings {
        scale: 18_000_000,
        x_translate: 0,
        y_translate: 0,
        marker_color: Color { r: 255, g: 255, b: 255 },
        warm_starting: true,
        position_correction: true,
        accumulate_impulse: true,
    }
}

/// One contact point as the engine reports it: world position and unit
/// separation normal.
#[derive(Clone, Copy, Debug, PartialEq, Eq, Structural)]
pub struct ContactView {
    pub position: Vec2,
    pub normal: Vec2,
}

/// One arbiter's contact slots: up to two, each possibly absent.
#[derive(Clone, Debug, PartialEq)]
pub struct ArbiterView {
    pub contacts: Vec<Option<ContactView>>,
}

/// One body's pose as rendered: the shape data plus the live position and
/// rotation, the latter also as the shell-evaluated rotation matrix.
#[derive(Clone, Debug, PartialEq)]
pub struct BodyView {
    pub shape: Shape,
    pub width: Vec2,
    pub vertices: Vec<Vec2>,
    pub position: Vec2,
    pub rotation: i64,
    pub rot: RotMat,
}

/// One joint as rendered: its two body indices and body-local anchors.
#[derive(Clone, Copy, Debug, PartialEq, Eq, Structural)]
pub struct JointView {
    pub body_a: usize,
    pub body_b: usize,
    pub local_anchor_a: Vec2,
    pub local_anchor_b: Vec2,
}

/// The world state one frame renders.
#[derive(Clone, Debug, PartialEq)]
pub struct WorldView {
    pub bodies: Vec<BodyView>,
    pub arbiters: Vec<ArbiterView>,
    pub joints: Vec<JointView>,
}

/// The mathematical value of a `BodyView`.
pub struct BodyViewModel {
    pub shape: Shape,
    pub width: Vec2,
    pub vertices: Seq<Vec2>,
    pub position: Vec2,
    pub rotation: i64,
    pub rot: RotMat,
}

impl View for BodyView {
    type V = BodyViewModel;

    open spec fn view(&self) -> BodyViewModel {
        BodyViewModel {
            shape: self.shape,
            width: self.width,
            vertices: self.vertices@,
            position: self.position,
            rotation: self.rotation,
            rot: self.rot,
        }
    }
}

/// The mathematical value of a `WorldView`.
pub struct WorldViewModel {
    pub bodies: Seq<BodyViewModel>,
    pub arbiters: Seq<Seq<Option<ContactView>>>,
    pub joints: Seq<JointView>,
}

impl View for WorldView {
    type V = WorldViewModel;

    open spec fn view(&self) -> WorldViewModel {
        WorldViewModel {
            bodies: self.bodies@.map_values(|b: BodyView| b@),
            arbiters: self.arbiters@.map_values(|a: ArbiterView| a.contacts@),
            joints: self.joints@,
        }
    }
}

impl WorldViewModel {
    /// Geometry in range, rotation entries genuine cosine/sine magnitudes,
    /// and every joint referencing bodies the view holds.
    pub open spec fn wf(self) -> bool {
        &&& forall|i: int|
            0 <= i < self.bodies.len() ==> {
                let b = #[trigger] self.bodies[i];
                &&& vec2_ok(b.position)
                &&& -(UNIT as int) <= b.rot.c as int <= UNIT as int
                &&& -(UNIT as int) <= b.rot.s as int <= UNIT as int
            }
        &&& forall|i: int, k: int|
            0 <= i < self.arbiters.len() && 0 <= k < self.arbiters[i].len() ==> match #[trigger] self.arbiters[i][k] {
                Some(c) => vec2_ok(c.position) && vec2_ok(c.normal),
                None => true,
            }
        &&& forall|i: int|
            0 <= i < self.joints.len() ==> {
                let j = #[trigger] self.joints[i];
                &&& j.body_a < self.bodies.len()
                &&& j.body_b < self.bodies.len()
                &&& vec2_ok(j.local_anchor_a)
                &&& vec2_ok(j.local_anchor_b)
            }
    }
}

/// A drawable primitive, in world coordinates.
#[derive(Clone, Debug, PartialEq)]
pub enum Primitive {
    Rect { center: Vec2, extents: Vec2, rotation: i64, color: Color },
    Polygon { center: Vec2, rotation: i64, vertices: Vec<Vec2>, color: Color },
    Marker { position: Vec2, color: Color },
    Segment { start: Vec2, end: Vec2, color: Color },
}

/// The mathematical value of a `Primitive`.
pub enum PrimitiveModel {
    Rect { center: Vec2, extents: Vec2, rotation: i64, color: Color },
    Polygon { center: Vec2, rotation: i64, vertices: Seq<Vec2>, color: Color },
    Marker { position: Vec2, color: Color },
    Segment { start: Vec2, end: Vec2, color: Color },
}

impl View for Primitive {
    type V = PrimitiveModel;

    open spec fn view(&self) -> PrimitiveModel {
        match self {
            Primitive::Rect { center, extents, rotation, color } => PrimitiveModel::Rect {
                center: *center,
                extents: *extents,
                rotation: *rotation,
                color: *color,
            },
            Primitive::Polygon { center, rotation, vertices, color } => PrimitiveModel::Polygon {
                center: *center,
                rotation: *rotation,
                vertices: vertices@,
                color: *color,
            },
            Primitive::Marker { position, color } => PrimitiveModel::Marker {
                position: *position,
                color: *color,
            },
            Primitive::Segment { start, end, color } => PrimitiveModel::Segment {
                start: *start,
                end: *end,
                color: *color,
            },
        }
    }
}

/// The mathematical values of a primitive list.
pub open spec fn prims_of(s: Seq<Primitive>) -> Seq<PrimitiveModel> {
    s.map_values(|p: Primitive| p@)
}

/// A rotation matrix applied to a vector, in fixed point.
pub open spec fn rot_apply_spec(r: RotMat, v: Vec2) -> Vec2 {
    Vec2 {
        x: (fx_mul_spec(r.c as int, v.x as int) - fx_mul_spec(r.s as int, v.y as int)) as i64,
        y: (fx_mul_spec(r.s as int, v.x as int) + fx_mul_spec(r.c as int, v.y as int)) as i64,
    }
}

/// Applies a rotation matrix whose entries are cosine/sine magnitudes to a
/// vector within the coordinate range.
pub fn rot_apply(r: RotMat, v: Vec2) -> (w: Vec2)
    requires
        -(UNIT as int) <= r.c as int <= UNIT as int,
        -(UNIT as int) <= r.s as int <= UNIT as int,
        vec2_ok(v),
    ensures
        w == rot_apply_spec(r, v),
{
    proof {
        lemma_product_bound(r.c as int, v.x as int, UNIT as int, crate::body::COORD_LIMIT as int);
        lemma_product_bound(r.s as int, v.y as int, UNIT as int, crate::body::COORD_LIMIT as int);
        lemma_product_bound(r.s as int, v.x as int, UNIT as int, crate::body::COORD_LIMIT as int);
        lemma_product_bound(r.c as int, v.y as int, UNIT as int, crate::body::COORD_LIMIT as int);
    }
    let xc = fx_mul(r.c, v.x);
    let ys = fx_mul(r.s, v.y);
    let xs = fx_mul(r.s, v.x);
    let yc = fx_mul(r.c, v.y);
    Vec2 { x: xc - ys, y: xs + yc }
}

/// The world position of a joint anchor: the body's position plus its
/// rotation applied to the body-local anchor.
pub open spec fn anchor_world_spec(b: BodyViewModel, local: Vec2) -> Vec2 {
    Vec2 {
        x: (b.position.x + rot_apply_spec(b.rot, local).x) as i64,
        y: (b.position.y + rot_apply_spec(b.rot, local).y) as i64,
    }
}

/// The primitive drawn for the body at index `i`: a rectangle for a box, a
/// filled polygon otherwise, in the ground color for the first body.
pub open spec fn body_prim(i: int, b: BodyViewModel) -> PrimitiveModel {
    let color = if i == 0 {
        ground_color()
    } else {
        dynamic_color()
    };
    if b.shape == Shape::Box {
        PrimitiveModel::Rect { center: b.position, extents: b.width, rotation: b.rotation, color }
    } else {
        PrimitiveModel::Polygon {
            center: b.position,
            rotation: b.rotation,
            vertices: b.vertices,
            color,
        }
    }
}

pub open spec fn body_prims(bodies: Seq<BodyViewModel>) -> Seq<PrimitiveModel> {
    Seq::new(bodies.len(), |i: int| body_prim(i, bodies[i]))
}

/// What one contact slot contributes: an absent slot contributes nothing; a
/// present contact contributes a marker at its position in the configured
/// marker color, and a unit arrow along its normal in the accent color.
pub open spec fn slot_prims(c: Option<ContactView>, marker: Color) -> Seq<PrimitiveModel> {
    match c {
        Some(c) => seq![
            PrimitiveModel::Marker { position: c.position, color: marker },
            PrimitiveModel::Segment {
                start: c.position,
                end: Vec2 {
                    x: (c.position.x + c.normal.x) as i64,
                    y: (c.position.y + c.normal.y) as i64,
                },
                color: accent_color(),
            },
        ],
        None => Seq::empty(),
    }
}

/// The primitives of one arbiter's slots, in slot order.
pub open spec fn arbiter_prims(slots: Seq<Option<ContactView>>, marker: Color) -> Seq<
    PrimitiveModel,
>
    decreases slots.len(),
{
    if slots.len() == 0 {
        Seq::empty()
    } else {
        arbiter_prims(slots.drop_last(), marker) + slot_prims(slots.last(), marker)
    }
}

/// The primitives of every arbiter, in arbiter order.
pub open spec fn contact_prims(arbiters: Seq<Seq<Option<ContactView>>>, marker: Color) -> Seq<
    PrimitiveModel,
>
    decreases arbiters.len(),
{
    if arbiters.len() == 0 {
        Seq::empty()
    } else {
        contact_prims(arbiters.drop_last(), marker) + arbiter_prims(arbiters.last(), marker)
    }
}

/// What one joint contributes: a segment from each body's center to that
/// body's anchor transformed into world space by the body's live rotation.
pub open spec fn joint_prims_one(j: JointView, bodies: Seq<BodyViewModel>) -> Seq<PrimitiveModel> {
    let ba = bodies[j.body_a as int];
    let bb = bodies[j.body_b as int];
    seq![
        PrimitiveModel::Segment {
            start: ba.position,
            end: anchor_world_spec(ba, j.local_anchor_a),
            color: joint_color(),
        },
        PrimitiveModel::Segment {
            start: bb.position,
            end: anchor_world_spec(bb, j.local_anchor_b),
            color: joint_color(),
        },
    ]
}

/// The primitives of every joint, in joint order.
pub open spec fn joint_prims(joints: Seq<JointView>, bodies: Seq<BodyViewModel>) -> Seq<
    PrimitiveModel,
>
    decreases joints.len(),
{
    if joints.len() == 0 {
        Seq::empty()
    } else {
        joint_prims(joints.drop_last(), bodies) + joint_prims_one(joints.last(), bodies)
    }
}

/// Everything one frame draws, in order: bodies, then contact markers and
/// normals, then joint segments.
pub open spec fn overlay_spec(v: WorldViewModel, marker: Color) -> Seq<PrimitiveModel> {
    body_prims(v.bodies) + contact_prims(v.arbiters, marker) + joint_prims(v.joints, v.bodies)
}

/// Builds the frame's primitives from the rendered world state and the
/// settings' marker color, exactly as `overlay_spec` states.
pub fn build_overlay(view: &WorldView, settings: &SimulationSettings) -> (out: Vec<Primitive>)
    requires
        view@.wf(),
    ensures
        prims_of(out@) == overlay_spec(view@, settings.marker_color),
{
    let mut out: Vec<Primitive> = Vec::new();
    proof {
        assert(prims_of(out@) =~= body_prims(view@.bodies.take(0)));
    }

    let nb = view.bodies.len();
    let mut i: usize = 0;
    while i < nb
        invariant
            0 <= i <= nb,
            nb == view@.bodies.len(),
            view@.wf(),
            prims_of(out@) == body_prims(view@.bodies.take(i as int)),
        decreases nb - i,
    {
        let b = &view.bodies[i];
        let color = if i == 0 {
            Color { r: 143, g: 188, b: 143 }
        } else {
            Color { r: 218, g: 112, b: 214 }
        };
        let prim = match b.shape {
            Shape::Box => Primitive::Rect {
                center: b.position,
                extents: b.width,
                rotation: b.rotation,
                color,
            },
            Shape::ConvexPolygon => Primitive::Polygon {
                center: b.position,
                rotation: b.rotation,
                vertices: copy_vertices(&b.vertices),
                color,
            },
        };
        proof {
            assert(view@.bodies[i as int] == view.bodies@[i as int]@);
            assert(prim@ == body_prim(i as int, view@.bodies[i as int]));
        }
        let ghost prev = out@;
        out.push(prim);
        proof {
            assert(prims_of(out@) =~= prims_of(prev).push(prim@));
            assert(body_prims(view@.bodies.take(i + 1 as int)) =~= body_prims(
                view@.bodies.take(i as int),
            ).push(body_prim(i as int, view@.bodies[i as int])));
        }
        i = i + 1;
    }
    proof {
        assert(view@.bodies.take(nb as int) =~= view@.bodies);
    }

    let na = view.arbiters.len();
    let mut a: usize = 0;
    while a < na
        invariant
            0 <= a <= na,
            na == view@.arbiters.len(),
            view@.wf(),
            prims_of(out@) == body_prims(view@.bodies) + contact_prims(
                view@.arbiters.take(a as int),
                settings.marker_color,
            ),
        decreases na - a,
    {
        let slots = &view.arbiters[a].contacts;
        let ns = slots.len();
        proof {
            assert(view@.arbiters[a as int] == view.arbiters@[a as int].contacts@);
            assert(prims_of(out@) + arbiter_prims(
                view@.arbiters[a as int].take(0),
                settings.marker_color,
            ) =~= prims_of(out@));
        }
        let mut k: usize = 0;
        while k < ns
            invariant
                0 <= k <= ns,
                0 <= a < na,
                na == view@.arbiters.len(),
                ns == view@.arbiters[a as int].len(),
                slots@ == view@.arbiters[a as int],
                view@.wf(),
                prims_of(out@) == body_prims(view@.bodies) + contact_prims(
                    view@.arbiters.take(a as int),
                    settings.marker_color,
                ) + arbiter_prims(view@.arbiters[a as int].take(k as int), settings.marker_color),
            decreases ns - k,
        {
            proof {
                assert(slots@[k as int] == view@.arbiters[a as int][k as int]);
                assert(view@.arbiters[a as int].take(k + 1 as int).drop_last()
                    =~= view@.arbiters[a as int].take(k as int));
            }
            let ghost prev = out@;
            match &slots[k] {
                Some(c) => {
                    let marker = Primitive::Marker {
                        position: c.position,
                        color: settings.marker_color,
                    };
                    let arrow = Primitive::Segment {
                        start: c.position,
                        end: Vec2 { x: c.position.x + c.normal.x, y: c.position.y + c.normal.y },
                        color: Color { r: 255, g: 160, b: 122 },
                    };
                    let ghost marker_m = marker@;
                    let ghost arrow_m = arrow@;
                    out.push(marker);
                    out.push(arrow);
                    proof {
                        assert(prims_of(out@) =~= prims_of(prev).push(marker_m).push(arrow_m));
                        assert(prims_of(prev).push(marker_m).push(arrow_m) =~= prims_of(prev)
                            + slot_prims(slots@[k as int], settings.marker_color));
                    }
                },
                None => {
                    proof {
                        assert(prims_of(out@) =~= prims_of(prev) + slot_prims(
                            slots@[k as int],
                            settings.marker_color,
                        ));
                    }
                },
            }
            proof {
                assert(arbiter_prims(view@.arbiters[a as int].take(k + 1 as int), settings.marker_color)
                    =~= arbiter_prims(view@.arbiters[a as int].take(k as int), settings.marker_color)
                    + slot_prims(slots@[k as int], settings.marker_color));
                assert(prims_of(out@) =~= body_prims(view@.bodies) + contact_prims(
                    view@.arbiters.take(a as int),
                    settings.marker_color,
                ) + arbiter_prims(
                    view@.arbiters[a as int].take(k + 1 as int),
                    settings.marker_color,
                ));
            }
            k = k + 1;
        }
        proof {
            assert(view@.arbiters[a as int].take(ns as int) =~= view@.arbiters[a as int]);
            assert(view@.arbiters.take(a + 1 as int).drop_last() =~= view@.arbiters.take(a as int));
            assert(view@.arbiters.take(a + 1 as int).last() == view@.arbiters[a as int]);
            assert(contact_prims(view@.arbiters.take(a + 1 as int), settings.marker_color)
                =~= contact_prims(view@.arbiters.take(a as int), settings.marker_color)
                + arbiter_prims(view@.arbiters[a as int], settings.marker_color));
            assert(prims_of(out@) =~= body_prims(view@.bodies) + contact_prims(
                view@.arbiters.take(a + 1 as int),
                settings.marker_color,
            ));
        }
        a = a + 1;
    }
    proof {
        assert(view@.arbiters.take(na as int) =~= view@.arbiters);
    }

    let nj = view.joints.len();
    let mut j: usize = 0;
    while j < nj
        invariant
            0 <= j <= nj,
            nj == view@.joints.len(),
            view@.wf(),
            prims_of(out@) == body_prims(view@.bodies) + contact_prims(
                view@.arbiters,
                settings.marker_color,
            ) + joint_prims(view@.joints.take(j as int), view@.bodies),
        decreases nj - j,
    {
        let jv = view.joints[j];
        proof {
            assert(view@.joints[j as int] == jv);
            assert(jv.body_a < view@.bodies.len());
            assert(jv.body_b < view@.bodies.len());
            assert(view@.bodies[jv.body_a as int] == view.bodies@[jv.body_a as int]@);
            assert(view@.bodies[jv.body_b as int] == view.bodies@[jv.body_b as int]@);
        }
        let ba = &view.bodies[jv.body_a];
        let bb = &view.bodies[jv.body_b];
        proof {
            lemma_fx_mul_abs_bound(
                ba.rot.c as int,
                jv.local_anchor_a.x as int,
                UNIT as int,
                COORD_LIMIT as int,
            );
            lemma_fx_mul_abs_bound(
                ba.rot.s as int,
                jv.local_anchor_a.y as int,
                UNIT as int,
                COORD_LIMIT as int,
            );
            lemma_fx_mul_abs_bound(
                ba.rot.s as int,
                jv.local_anchor_a.x as int,
                UNIT as int,
                COORD_LIMIT as int,
            );
            lemma_fx_mul_abs_bound(
                ba.rot.c as int,
                jv.local_anchor_a.y as int,
                UNIT as int,
                COORD_LIMIT as int,
            );
            lemma_fx_mul_abs_bound(
                bb.rot.c as int,
                jv.local_anchor_b.x as int,
                UNIT as int,
                COORD_LIMIT as int,
            );
            lemma_fx_mul_abs_bound(
                bb.rot.s as int,
                jv.local_anchor_b.y as int,
                UNIT as int,
                COORD_LIMIT as int,
            );
            lemma_fx_mul_abs_bound(
                bb.rot.s as int,
                jv.local_anchor_b.x as int,
                UNIT as int,
                COORD_LIMIT as int,
            );
            lemma_fx_mul_abs_bound(
                bb.rot.c as int,
                jv.local_anchor_b.y as int,
                UNIT as int,
                COORD_LIMIT as int,
            );
        }
        let ra = rot_apply(ba.rot, jv.local_anchor_a);
        let rb = rot_apply(bb.rot, jv.local_anchor_b);
        let seg_a = Primitive::Segment {
            start: ba.position,
            end: Vec2 { x: ba.position.x + ra.x, y: ba.position.y + ra.y },
            color: Color { r: 106, g: 90, b: 205 },
        };
        let seg_b = Primitive::Segment {
            start: bb.position,
            end: Vec2 { x: bb.position.x + rb.x, y: bb.position.y + rb.y },
            color: Color { r: 106, g: 90, b: 205 },
        };
        let ghost seg_a_m = seg_a@;
        let ghost seg_b_m = seg_b@;
        let ghost prev = out@;
        out.push(seg_a);
        out.push(seg_b);
        proof {
            assert(prims_of(out@) =~= prims_of(prev).push(seg_a_m).push(seg_b_m));
            assert(prims_of(prev).push(seg_a_m).push(seg_b_m) =~= prims_of(prev)
                + joint_prims_one(jv, view@.bodies));
            assert(view@.joints.take(j + 1 as int).drop_last() =~= view@.joints.take(j as int));
            assert(joint_prims(view@.joints.take(j + 1 as int), view@.bodies) =~= joint_prims(
                view@.joints.take(j as int),
                view@.bodies,
            ) + joint_prims_one(jv, view@.bodies));
        }
        j = j + 1;
    }
    proof {
        assert(view@.joints.take(nj as int) =~= view@.joints);
        assert(prims_of(out@) == overlay_spec(view@, settings.marker_color));
    }
    out
}

/// Copies a vertex list.
fn copy_vertices(vs: &Vec<Vec2>) -> (r: Vec<Vec2>)
    ensures
        r@ == vs@,
{
    let mut r: Vec<Vec2> = Vec::new();
    let mut i: usize = 0;
    while i < vs.len()
        invariant
            0 <= i <= vs@.len(),
            r@ =~= vs@.take(i as int),
        decreases vs@.len() - i,
    {
        r.push(vs[i]);
        proof {
            assert(r@ =~= vs@.take(i + 1 as int));
        }
        i = i + 1;
    }
    proof {
        assert(vs@.take(vs@.len() as int) =~= vs@);
    }
    r
}

/// The overlay never draws a contact marker for an absent slot: every
/// marker among an arbiter's primitives carries the position of some
/// present contact of that arbiter, whatever mix of present and absent
/// slots it holds.
/// How many contact markers a primitive list holds.
pub open spec fn marker_count(prims: Seq<PrimitiveModel>) -> int
    decreases prims.len(),
{
    if prims.len() == 0 {
        0
    } else {
        marker_count(prims.drop_last()) + if prims.last() is Marker {
            1int
        } else {
            0int
        }
    }
}

/// How many of an arbiter's contact slots are present.
pub open spec fn present_count(slots: Seq<Option<ContactView>>) -> int
    decreases slots.len(),
{
    if slots.len() == 0 {
        0
    } else {
        present_count(slots.drop_last()) + if slots.last() is Some {
            1int
        } else {
            0int
        }
    }
}

proof fn lemma_marker_count_push(prims: Seq<PrimitiveModel>, p: PrimitiveModel)
    ensures
        marker_count(prims.push(p)) == marker_count(prims) + if p is Marker {
            1int
        } else {
            0int
        },
{
    assert(prims.push(p).drop_last() =~= prims);
}

/// An arbiter contributes exactly one marker per present contact slot and
/// none for an absent one.
pub proof fn lemma_one_marker_per_present_slot(slots: Seq<Option<ContactView>>, marker: Color)
    ensures
        marker_count(arbiter_prims(slots, marker)) == present_count(slots),
    decreases slots.len(),
{
    if slots.len() > 0 {
        lemma_one_marker_per_present_slot(slots.drop_last(), marker);
        let prefix = arbiter_prims(slots.drop_last(), marker);
        match slots.last() {
            Some(c) => {
                let m = PrimitiveModel::Marker { position: c.position, color: marker };
                let g = PrimitiveModel::Segment {
                    start: c.position,
                    end: Vec2 {
                        x: (c.position.x + c.normal.x) as i64,
                        y: (c.position.y + c.normal.y) as i64,
                    },
                    color: accent_color(),
                };
                assert(arbiter_prims(slots, marker) =~= prefix.push(m).push(g));
                lemma_marker_count_push(prefix, m);
                lemma_marker_count_push(prefix.push(m), g);
            },
            None => {
                assert(arbiter_prims(slots, marker) =~= prefix);
            },
        }
    }
}

pub open spec fn marker_has_source(
    prims: Seq<PrimitiveModel>,
    slots: Seq<Option<ContactView>>,
    p: int,
) -> bool {
    exists|i: int|
        0 <= i < slots.len() && (#[trigger] slots[i]) is Some && slots[i]->0.position == prims[
            p
        ]->Marker_position
}

pub proof fn lemma_no_marker_for_absent_slot(slots: Seq<Option<ContactView>>, marker: Color)
    ensures
        forall|p: int|
            0 <= p < arbiter_prims(slots, marker).len() && (#[trigger] arbiter_prims(
                slots,
                marker,
            )[p]) is Marker ==> marker_has_source(arbiter_prims(slots, marker), slots, p),
    decreases slots.len(),
{
    if slots.len() > 0 {
        lemma_no_marker_for_absent_slot(slots.drop_last(), marker);
        let whole = arbiter_prims(slots, marker);
        let prefix = arbiter_prims(slots.drop_last(), marker);
        let tail = slot_prims(slots.last(), marker);
        assert forall|p: int|
            0 <= p < whole.len() && (#[trigger] whole[p]) is Marker implies marker_has_source(
            whole,
            slots,
            p,
        ) by {
            if p < prefix.len() {
                assert(whole[p] == prefix[p]);
                assert(marker_has_source(prefix, slots.drop_last(), p));
                let i = choose|i: int|
                    0 <= i < slots.drop_last().len() && (#[trigger] slots.drop_last()[i]) is Some
                        && slots.drop_last()[i]->0.position == prefix[p]->Marker_position;
                assert(slots[i] == slots.drop_last()[i]);
                assert(slots[i] is Some && slots[i]->0.position == whole[p]->Marker_position);
            } else {
                assert(whole[p] == tail[p - prefix.len()]);
                let last = slots.len() - 1;
                assert(slots[last] == slots.last());
                assert(slots.last() is Some);
                assert(slots[last] is Some && slots[last]->0.position == whole[
                    p
                ]->Marker_position);
            }
        }
    }
}

} // verus!
