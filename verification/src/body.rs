//! Rigid bodies: shape variants, the infinite-mass sentinel, and the body
//! state a scenario fully determines before handing it to the engine.

use vstd::prelude::*;
use crate::math::{Vec2, fx_mul, fx_mul_spec, lemma_product_bound, UNIT};

verus! {

/// Coordinate magnitude accepted throughout the library: one million units.
pub const COORD_LIMIT: i64 = 1_000_000_000_000;

/// Friction coefficient a constructor assigns when a scenario does not
/// override it: 0.2 in fixed point.
pub const FRICTION_DEFAULT: i64 = 200_000;

/// The closed set of shape variants.
#[derive(Clone, Copy, Debug, PartialEq, Eq, Structural)]
pub enum Shape {
    Box,
    ConvexPolygon,
}

/// A body's mass: the reserved sentinel marks an immovable body and is kept
/// exactly, never scaled.
#[derive(Clone, Copy, Debug, PartialEq, Eq, Structural)]
pub enum Mass {
    Infinite,
    Finite(i64),
}

/// A rigid body as the orchestrator knows it: shape, extents, pose,
/// velocities, mass and friction, all in fixed point.
#[derive(Clone, Debug, PartialEq)]
pub struct Body {
    pub shape: Shape,
    /// Full extents: the box size, or the axis-aligned extent of the vertex
    /// list for a polygon body.
    pub width: Vec2,
    /// Body-local vertices; empty for a box.
    pub vertices: Vec<Vec2>,
    pub position: Vec2,
    /// Rotation angle in micro-radians.
    pub rotation: i64,
    pub velocity: Vec2,
    pub angular_velocity: i64,
    pub mass: Mass,
    pub friction: i64,
}

/// The mathematical value of a `Body`.
pub struct BodyModel {
    pub shape: Shape,
    pub width: Vec2,
    pub vertices: Seq<Vec2>,
    pub position: Vec2,
    pub rotation: i64,
    pub velocity: Vec2,
    pub angular_velocity: i64,
    pub mass: Mass,
    pub friction: i64,
}

impl View for Body {
    type V = BodyModel;

    open spec fn view(&self) -> BodyModel {
        BodyModel {
            shape: self.shape,
            width: self.width,
            vertices: self.vertices@,
            position: self.position,
            rotation: self.rotation,
            velocity: self.velocity,
            angular_velocity: self.angular_velocity,
            mass: self.mass,
            friction: self.friction,
        }
    }
}

pub open spec fn coord_ok(v: int) -> bool {
    -(COORD_LIMIT as int) <= v <= COORD_LIMIT as int
}

pub open spec fn vec2_ok(v: Vec2) -> bool {
    coord_ok(v.x as int) && coord_ok(v.y as int)
}

impl BodyModel {
    /// Every field within the library's coordinate range, a finite mass
    /// positive, and the vertex list consistent with the shape variant.
    pub open spec fn wf(self) -> bool {
        &&& vec2_ok(self.width)
        &&& vec2_ok(self.position)
        &&& vec2_ok(self.velocity)
        &&& coord_ok(self.rotation as int)
        &&& coord_ok(self.angular_velocity as int)
        &&& 0 <= self.friction <= COORD_LIMIT
        &&& match self.mass {
            Mass::Infinite => true,
            Mass::Finite(m) => 0 < m <= COORD_LIMIT,
        }
        &&& (self.shape == Shape::Box ==> self.vertices.len() == 0)
        &&& (self.shape == Shape::ConvexPolygon ==> 3 <= self.vertices.len() <= 64)
        &&& forall|i: int| 0 <= i < self.vertices.len() ==> vec2_ok(#[trigger] self.vertices[i])
    }
}

/// The body a box constructor yields: zero pose and velocities, default
/// friction, every field fully determined.
pub open spec fn box_model(width: Vec2, mass: Mass) -> BodyModel {
    BodyModel {
        shape: Shape::Box,
        width,
        vertices: Seq::empty(),
        position: Vec2 { x: 0, y: 0 },
        rotation: 0,
        velocity: Vec2 { x: 0, y: 0 },
        angular_velocity: 0,
        mass,
        friction: FRICTION_DEFAULT,
    }
}

/// Least x coordinate among the first `n` vertices.
pub open spec fn min_x_to(s: Seq<Vec2>, n: int) -> int
    decreases n,
{
    if n <= 1 {
        s[0].x as int
    } else {
        let m = min_x_to(s, n - 1);
        if (s[n - 1].x as int) < m { s[n - 1].x as int } else { m }
    }
}

/// Greatest x coordinate among the first `n` vertices.
pub open spec fn max_x_to(s: Seq<Vec2>, n: int) -> int
    decreases n,
{
    if n <= 1 {
        s[0].x as int
    } else {
        let m = max_x_to(s, n - 1);
        if (s[n - 1].x as int) > m { s[n - 1].x as int } else { m }
    }
}

/// Least y coordinate among the first `n` vertices.
pub open spec fn min_y_to(s: Seq<Vec2>, n: int) -> int
    decreases n,
{
    if n <= 1 {
        s[0].y as int
    } else {
        let m = min_y_to(s, n - 1);
        if (s[n - 1].y as int) < m { s[n - 1].y as int } else { m }
    }
}

/// Greatest y coordinate among the first `n` vertices.
pub open spec fn max_y_to(s: Seq<Vec2>, n: int) -> int
    decreases n,
{
    if n <= 1 {
        s[0].y as int
    } else {
        let m = max_y_to(s, n - 1);
        if (s[n - 1].y as int) > m { s[n - 1].y as int } else { m }
    }
}

/// The axis-aligned extent of a vertex list.
pub open spec fn polygon_width(vs: Seq<Vec2>) -> Vec2 {
    Vec2 {
        x: (max_x_to(vs, vs.len() as int) - min_x_to(vs, vs.len() as int)) as i64,
        y: (max_y_to(vs, vs.len() as int) - min_y_to(vs, vs.len() as int)) as i64,
    }
}

/// The body a polygon constructor yields: extents derived from the vertex
/// list, zero pose and velocities, default friction.
pub open spec fn polygon_model(vs: Seq<Vec2>, mass: Mass) -> BodyModel {
    BodyModel {
        shape: Shape::ConvexPolygon,
        width: polygon_width(vs),
        vertices: vs,
        position: Vec2 { x: 0, y: 0 },
        rotation: 0,
        velocity: Vec2 { x: 0, y: 0 },
        angular_velocity: 0,
        mass,
        friction: FRICTION_DEFAULT,
    }
}

impl Body {
    /// A box body of the given full extents and mass, everything else at the
    /// documented defaults.
    pub fn new_box(width: Vec2, mass: Mass) -> (r: Body)
        ensures
            r@ == box_model(width, mass),
    {
        Body {
            shape: Shape::Box,
            width,
            vertices: Vec::new(),
            position: Vec2 { x: 0, y: 0 },
            rotation: 0,
            velocity: Vec2 { x: 0, y: 0 },
            angular_velocity: 0,
            mass,
            friction: FRICTION_DEFAULT,
        }
    }

    /// A convex-polygon body over the given body-local vertices; `width`
    /// records the axis-aligned extent of the vertex list.
    pub fn new_polygon(vertices: Vec<Vec2>, mass: Mass) -> (r: Body)
        requires
            vertices@.len() >= 1,
            forall|i: int| 0 <= i < vertices@.len() ==> vec2_ok(#[trigger] vertices@[i]),
        ensures
            r@ == polygon_model(vertices@, mass),
    {
        let n = vertices.len();
        let first = vertices[0];
        let mut min_x: i64 = first.x;
        let mut max_x: i64 = first.x;
        let mut min_y: i64 = first.y;
        let mut max_y: i64 = first.y;
        let mut i: usize = 1;
        while i < n
            invariant
                1 <= i <= n,
                n == vertices@.len(),
                forall|k: int| 0 <= k < vertices@.len() ==> vec2_ok(#[trigger] vertices@[k]),
                min_x as int == min_x_to(vertices@, i as int),
                max_x as int == max_x_to(vertices@, i as int),
                min_y as int == min_y_to(vertices@, i as int),
                max_y as int == max_y_to(vertices@, i as int),
                -(COORD_LIMIT as int) <= min_x as int <= COORD_LIMIT as int,
                -(COORD_LIMIT as int) <= max_x as int <= COORD_LIMIT as int,
                -(COORD_LIMIT as int) <= min_y as int <= COORD_LIMIT as int,
                -(COORD_LIMIT as int) <= max_y as int <= COORD_LIMIT as int,
            decreases n - i,
        {
            let v = vertices[i];
            if v.x < min_x {
                min_x = v.x;
            }
            if v.x > max_x {
                max_x = v.x;
            }
            if v.y < min_y {
                min_y = v.y;
            }
            if v.y > max_y {
                max_y = v.y;
            }
            i = i + 1;
        }
        Body {
            shape: Shape::ConvexPolygon,
            width: Vec2 { x: max_x - min_x, y: max_y - min_y },
            vertices,
            position: Vec2 { x: 0, y: 0 },
            rotation: 0,
            velocity: Vec2 { x: 0, y: 0 },
            angular_velocity: 0,
            mass,
            friction: FRICTION_DEFAULT,
        }
    }
}

/// The vertex list scaled pointwise by a fixed-point factor.
pub open spec fn scaled_vertices(vs: Seq<Vec2>, s: i64) -> Seq<Vec2> {
    vs.map_values(
        |v: Vec2| Vec2 {
            x: fx_mul_spec(v.x as int, s as int) as i64,
            y: fx_mul_spec(v.y as int, s as int) as i64,
        },
    )
}

/// Scales every vertex by the fixed-point factor `s`.
pub fn scale_vertices(vertices: &Vec<Vec2>, s: i64) -> (r: Vec<Vec2>)
    requires
        0 <= s <= 1000 * UNIT,
        forall|i: int| 0 <= i < vertices@.len() ==> vec2_ok(#[trigger] vertices@[i]),
    ensures
        r@ == scaled_vertices(vertices@, s),
{
    let n = vertices.len();
    let mut out: Vec<Vec2> = Vec::new();
    let mut i: usize = 0;
    while i < n
        invariant
            0 <= i <= n,
            n == vertices@.len(),
            0 <= s <= 1000 * UNIT,
            forall|k: int| 0 <= k < vertices@.len() ==> vec2_ok(#[trigger] vertices@[k]),
            out@ == scaled_vertices(vertices@.take(i as int), s),
        decreases n - i,
    {
        let v = vertices[i];
        assert(vec2_ok(vertices@[i as int]));
        proof {
            lemma_product_bound(v.x as int, s as int, COORD_LIMIT as int, 1000 * UNIT as int);
            lemma_product_bound(v.y as int, s as int, COORD_LIMIT as int, 1000 * UNIT as int);
        }
        let w = Vec2 { x: fx_mul(v.x, s), y: fx_mul(v.y, s) };
        out.push(w);
        assert(vertices@.take(i + 1 as int).drop_last() =~= vertices@.take(i as int));
        assert(out@ =~= scaled_vertices(vertices@.take(i + 1 as int), s));
        i = i + 1;
    }
    assert(vertices@.take(n as int) =~= vertices@);
    out
}

} // verus!
