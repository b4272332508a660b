//! The cube mesh: 24 vertices (four per face) and 36 indices (two triangles
//! per face).
//!
//! Every vertex component is stored as a whole number of halves, so that the
//! exact values of the scene (-1.0, 0.0, 0.5, 1.0) are integers: a stored
//! `2` stands for `1.0`, a stored `1` for `0.5`.
use vstd::prelude::*;

verus! {

/// Number of vertices of the cube mesh: four corners on each face.
pub const VERTEX_COUNT: usize = 24;

/// Number of indices of the cube mesh: two triangles on each face.
pub const INDEX_COUNT: usize = 36;

/// Which variant of the cube is built.
#[derive(Clone, Copy, PartialEq, Eq, Structural, Debug)]
pub enum CubeStyle {
    /// Opaque faces, sampled through a texture.
    Textured,
    /// Vertex colours only; the +z face fades out from one corner.
    Colored,
}

/// One vertex; every component counts halves.
#[derive(Clone, Copy, PartialEq, Eq, Structural, Debug)]
pub struct Vertex {
    pub x: i8,
    pub y: i8,
    pub z: i8,
    pub r: u8,
    pub g: u8,
    pub b: u8,
    pub a: u8,
    pub u: u8,
    pub v: u8,
}

/// The axis (0 = x, 1 = y, 2 = z) that face `f` is perpendicular to.
pub open spec fn face_axis(f: int) -> int {
    if f < 2 {
        2
    } else if f < 4 {
        0
    } else {
        1
    }
}

/// The side of face `f` along its axis, in halves: even faces lie at -1.0,
/// odd faces at +1.0.
pub open spec fn face_side(f: int) -> int {
    if f % 2 == 0 {
        -2
    } else {
        2
    }
}

/// First in-face coordinate of corner `c` (in halves); corners go round the
/// face as (-,-), (+,-), (+,+), (-,+).
pub open spec fn corner_u(c: int) -> int {
    if c == 1 || c == 2 {
        2
    } else {
        -2
    }
}

/// Second in-face coordinate of corner `c` (in halves).
pub open spec fn corner_v(c: int) -> int {
    if c >= 2 {
        2
    } else {
        -2
    }
}

/// The axis after `axis`, in the cyclic order x, y, z.
pub open spec fn next_axis(axis: int) -> int {
    if axis == 2 {
        0
    } else {
        axis + 1
    }
}

/// Coordinate along `axis` of the vertex at `k`. Corners of a face are laid
/// out over the two axes that follow the face's own axis, in cyclic order.
pub open spec fn spec_coord(k: int, axis: int) -> int {
    let f = k / 4;
    let c = k % 4;
    let n = face_axis(f);
    if axis == n {
        face_side(f)
    } else if axis == next_axis(n) {
        corner_u(c)
    } else {
        corner_v(c)
    }
}

/// Red, green and blue of face `f`, in halves.
pub open spec fn face_rgb(f: int) -> (int, int, int) {
    if f == 0 {
        (2, 1, 1)
    } else if f == 1 {
        (1, 2, 1)
    } else if f == 2 {
        (1, 1, 2)
    } else if f == 3 {
        (2, 1, 0)
    } else if f == 4 {
        (0, 1, 2)
    } else {
        (2, 0, 1)
    }
}

/// Alpha of the vertex at `k`, in halves: opaque, except on the +z face of
/// the coloured cube, which is half transparent at its first corner and
/// transparent at the others.
pub open spec fn spec_alpha(style: CubeStyle, k: int) -> int {
    if style == CubeStyle::Colored && k / 4 == 1 {
        if k % 4 == 0 {
            1
        } else {
            0
        }
    } else {
        2
    }
}

/// The vertex at `k` (for `k` below 24) of the cube of the given style.
pub open spec fn spec_vertex(style: CubeStyle, k: int) -> Vertex {
    let (r, g, b) = face_rgb(k / 4);
    Vertex {
        x: spec_coord(k, 0) as i8,
        y: spec_coord(k, 1) as i8,
        z: spec_coord(k, 2) as i8,
        r: r as u8,
        g: g as u8,
        b: b as u8,
        a: spec_alpha(style, k) as u8,
        u: ((corner_u(k % 4) + 2) / 2) as u8,
        v: ((corner_v(k % 4) + 2) / 2) as u8,
    }
}

/// All vertices of the cube of the given style, in buffer order.
pub open spec fn cube_vertex_seq(style: CubeStyle) -> Seq<Vertex> {
    Seq::new(VERTEX_COUNT as nat, |k: int| spec_vertex(style, k))
}

/// Corner (0..4, within its face) that slot `j` of triangle `t` uses.
/// Even faces take corners (0, 1, 2) and (0, 2, 3); odd faces take the same
/// triangles with their order reversed.
pub open spec fn tri_corner(t: int, j: int) -> int {
    let half = t % 2;
    let slot = if (t / 2) % 2 == 0 {
        j
    } else {
        2 - j
    };
    if slot == 0 {
        0
    } else {
        slot + half
    }
}

/// Vertex index at slot `j` (0..3) of triangle `t` (0..12).
pub open spec fn tri_vertex(t: int, j: int) -> int {
    4 * (t / 2) + tri_corner(t, j)
}

/// The index buffer of the cube, in buffer order.
pub open spec fn cube_index_seq() -> Seq<u16> {
    Seq::new(INDEX_COUNT as nat, |k: int| tri_vertex(k / 3, k % 3) as u16)
}

fn coord(k: usize, axis: usize) -> (r: i8)
    requires
        k < VERTEX_COUNT,
        axis < 3,
    ensures
        r as int == spec_coord(k as int, axis as int),
{
    let f = k / 4;
    let c = k % 4;
    let n: usize = if f < 2 {
        2
    } else if f < 4 {
        0
    } else {
        1
    };
    if axis == n {
        if f % 2 == 0 {
            -2
        } else {
            2
        }
    } else if axis == (if n == 2 {
        0
    } else {
        n + 1
    }) {
        if c == 1 || c == 2 {
            2
        } else {
            -2
        }
    } else {
        if c >= 2 {
            2
        } else {
            -2
        }
    }
}

/// The vertex at index `k` of the cube of the given style.
pub fn cube_vertex(style: CubeStyle, k: usize) -> (r: Vertex)
    requires
        k < VERTEX_COUNT,
    ensures
        r == spec_vertex(style, k as int),
{
    let f = k / 4;
    let c = k % 4;
    let (r, g, b): (u8, u8, u8) = if f == 0 {
        (2, 1, 1)
    } else if f == 1 {
        (1, 2, 1)
    } else if f == 2 {
        (1, 1, 2)
    } else if f == 3 {
        (2, 1, 0)
    } else if f == 4 {
        (0, 1, 2)
    } else {
        (2, 0, 1)
    };
    let a: u8 = if style == CubeStyle::Colored && f == 1 {
        if c == 0 {
            1
        } else {
            0
        }
    } else {
        2
    };
    let u: u8 = if c == 1 || c == 2 {
        2
    } else {
        0
    };
    let v: u8 = if c >= 2 {
        2
    } else {
        0
    };
    Vertex { x: coord(k, 0), y: coord(k, 1), z: coord(k, 2), r, g, b, a, u, v }
}

/// All 24 vertices of the cube of the given style, in buffer order.
pub fn cube_vertices(style: CubeStyle) -> (r: Vec<Vertex>)
    ensures
        r@ == cube_vertex_seq(style),
{
    let mut out: Vec<Vertex> = Vec::new();
    for k in 0..VERTEX_COUNT
        invariant
            out@ == cube_vertex_seq(style).take(k as int),
    {
        out.push(cube_vertex(style, k));
        assert(out@ =~= cube_vertex_seq(style).take(k + 1));
    }
    assert(out@ =~= cube_vertex_seq(style));
    out
}

/// The index buffer of the cube: 12 triangles, two per face.
pub fn cube_indices() -> (r: Vec<u16>)
    ensures
        r@ == cube_index_seq(),
{
    let mut out: Vec<u16> = Vec::new();
    for k in 0..INDEX_COUNT
        invariant
            out@ == cube_index_seq().take(k as int),
    {
        let t = k / 3;
        let j = k % 3;
        let slot = if (t / 2) % 2 == 0 {
            j
        } else {
            2 - j
        };
        let corner = if slot == 0 {
            0
        } else {
            slot + t % 2
        };
        let index = (4 * (t / 2) + corner) as u16;
        out.push(index);
        assert(out@ =~= cube_index_seq().take(k + 1));
    }
    assert(out@ =~= cube_index_seq());
    out
}

/// Some entry of the index buffer `indices` names vertex `v`.
pub open spec fn uses_vertex(indices: Seq<u16>, v: int) -> bool {
    exists|k: int| 0 <= k < indices.len() && #[trigger] indices[k] as int == v
}

/// An indexed draw: `num_elements` indices from `base_element`, drawn
/// `num_instances` times.
#[derive(Clone, Copy, PartialEq, Eq, Structural, Debug)]
pub struct DrawCall {
    pub base_element: i32,
    pub num_elements: i32,
    pub num_instances: i32,
}

/// A mesh: a vertex buffer and an index buffer read three indices per
/// triangle.
pub struct Mesh {
    pub vertices: Vec<Vertex>,
    pub indices: Vec<u16>,
}

impl Mesh {
    /// The index buffer holds whole triangles, every index names a vertex,
    /// and both lengths fit the GPU's draw parameters.
    pub open spec fn wf(&self) -> bool {
        &&& self.indices@.len() % 3 == 0
        &&& self.indices@.len() <= i32::MAX
        &&& self.vertices@.len() <= u16::MAX as int + 1
        &&& forall|i: int|
            0 <= i < self.indices@.len() ==> (#[trigger] self.indices@[i] as int) < self.vertices@.len()
    }

    /// This mesh holds exactly the cube of the given style.
    pub open spec fn is_cube(&self, style: CubeStyle) -> bool {
        &&& self.vertices@ == cube_vertex_seq(style)
        &&& self.indices@ == cube_index_seq()
    }

    /// Builds the cube mesh of the given style.
    pub fn cube(style: CubeStyle) -> (r: Mesh)
        ensures
            r.is_cube(style),
            r.wf(),
    {
        let r = Mesh { vertices: cube_vertices(style), indices: cube_indices() };
        proof {
            lemma_cube_index_buffer();
        }
        r
    }

    /// Number of triangles that the index buffer describes.
    pub fn triangle_count(&self) -> (r: usize)
        requires
            self.wf(),
        ensures
            r as int == self.indices@.len() / 3,
    {
        self.indices.len() / 3
    }

    /// The draw call that renders the whole mesh once: every index, from
    /// the first.
    pub fn draw_call(&self) -> (r: DrawCall)
        requires
            self.wf(),
        ensures
            r.base_element == 0,
            r.num_elements as int == self.indices@.len(),
            r.num_instances == 1,
    {
        DrawCall { base_element: 0, num_elements: self.indices.len() as i32, num_instances: 1 }
    }

    /// The three vertex indices of triangle `t`.
    pub fn triangle(&self, t: usize) -> (r: (u16, u16, u16))
        requires
            self.wf(),
            t < self.indices@.len() / 3,
        ensures
            r == (self.indices@[3 * t], self.indices@[3 * t + 1], self.indices@[3 * t + 2]),
    {
        (self.indices[3 * t], self.indices[3 * t + 1], self.indices[3 * t + 2])
    }
}

/// The cube's index buffer describes exactly 12 triangles; each triangle
/// takes three distinct corners of one face (triangle `t` lies on face
/// `t / 2`), and every one of the 24 vertices is used by some triangle.
pub proof fn lemma_cube_index_buffer()
    ensures
        cube_index_seq().len() == 3 * 12,
        forall|t: int, j: int|
            0 <= t < 12 && 0 <= j < 3 ==> #[trigger] cube_index_seq()[3 * t + j] as int
                == tri_vertex(t, j),
        forall|t: int, j: int|
            0 <= t < 12 && 0 <= j < 3 ==> (#[trigger] tri_vertex(t, j)) / 4 == t / 2,
        forall|t: int|
            0 <= t < 12 ==> {
                &&& #[trigger] tri_vertex(t, 0) != tri_vertex(t, 1)
                &&& tri_vertex(t, 1) != tri_vertex(t, 2)
                &&& tri_vertex(t, 0) != tri_vertex(t, 2)
            },
        forall|k: int|
            0 <= k < cube_index_seq().len() ==> (#[trigger] cube_index_seq()[k] as int)
                < VERTEX_COUNT,
        forall|v: int| 0 <= v < VERTEX_COUNT ==> #[trigger] uses_vertex(cube_index_seq(), v),
{
    assert forall|t: int, j: int| 0 <= t < 12 && 0 <= j < 3 implies #[trigger] cube_index_seq()[3
        * t + j] as int == tri_vertex(t, j) && tri_vertex(t, j) / 4 == t / 2 by {
        assert((3 * t + j) / 3 == t && (3 * t + j) % 3 == j);
    }
    assert forall|k: int| 0 <= k < cube_index_seq().len() implies (#[trigger] cube_index_seq()[k]
        as int) < VERTEX_COUNT by {
        assert(0 <= k / 3 < 12);
    }
    assert forall|v: int| 0 <= v < VERTEX_COUNT implies #[trigger] uses_vertex(
        cube_index_seq(),
        v,
    ) by {
        let f = v / 4;
        let c = v % 4;
        // The first triangle of the face uses corners 0, 1, 2; the second
        // one reaches corner 3.
        let t = if c == 3 {
            2 * f + 1
        } else {
            2 * f
        };
        let j = if f % 2 == 0 {
            if c == 3 {
                2
            } else {
                c
            }
        } else {
            if c == 3 {
                0
            } else {
                2 - c
            }
        };
        assert((3 * t + j) / 3 == t && (3 * t + j) % 3 == j);
        assert(cube_index_seq()[3 * t + j] as int == v);
    }
}

/// Edge from slot 0 to slot `j` of triangle `t`, its coordinate along `axis`
/// (in halves).
pub open spec fn tri_edge(t: int, j: int, axis: int) -> int {
    spec_coord(tri_vertex(t, j), axis) - spec_coord(tri_vertex(t, 0), axis)
}

/// Coordinate along `axis` of the normal of triangle `t`: the cross product
/// of its two edges from slot 0, by the right-hand rule.
pub open spec fn tri_normal(t: int, axis: int) -> int {
    let p = next_axis(axis);
    let q = next_axis(p);
    tri_edge(t, 1, p) * tri_edge(t, 2, q) - tri_edge(t, 1, q) * tri_edge(t, 2, p)
}

/// The normal of triangle `t` along `axis`, for a cube wound clockwise as
/// seen from outside: perpendicular to the triangle's face, pointing inward.
pub open spec fn inward_normal(t: int, axis: int) -> int {
    if axis == face_axis(t / 2) {
        -8 * face_side(t / 2)
    } else {
        0
    }
}

/// Every triangle of the cube is wound the same way: its normal is
/// perpendicular to its face and points into the cube, so each triangle runs
/// clockwise as seen from outside.
pub proof fn lemma_cube_winding()
    ensures
        forall|t: int, axis: int|
            0 <= t < 12 && 0 <= axis < 3 ==> #[trigger] tri_normal(t, axis) == inward_normal(
                t,
                axis,
            ),
{
    assert forall|t: int, axis: int| 0 <= t < 12 && 0 <= axis < 3 implies #[trigger] tri_normal(
        t,
        axis,
    ) == inward_normal(t, axis) by {
        lemma_normal_at(t);
    }
}

/// Case split over the twelve triangles, each with its edges evaluated.
#[verifier::nonlinear]
proof fn lemma_normal_at(t: int)
    requires
        0 <= t < 12,
    ensures
        tri_normal(t, 0) == inward_normal(t, 0),
        tri_normal(t, 1) == inward_normal(t, 1),
        tri_normal(t, 2) == inward_normal(t, 2),
{
    let (x1, y1, z1) = (tri_edge(t, 1, 0), tri_edge(t, 1, 1), tri_edge(t, 1, 2));
    let (x2, y2, z2) = (tri_edge(t, 2, 0), tri_edge(t, 2, 1), tri_edge(t, 2, 2));
    assert(tri_normal(t, 0) == y1 * z2 - z1 * y2);
    assert(tri_normal(t, 1) == z1 * x2 - x1 * z2);
    assert(tri_normal(t, 2) == x1 * y2 - y1 * x2);
    if t == 0 {
    } else if t == 1 {
    } else if t == 2 {
    } else if t == 3 {
    } else if t == 4 {
    } else if t == 5 {
    } else if t == 6 {
    } else if t == 7 {
    } else if t == 8 {
    } else if t == 9 {
    } else if t == 10 {
    } else {
    }
}

} // verus!
