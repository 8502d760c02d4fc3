//! The lattice: a wireframe grid of axis-aligned quads centred at the origin.
//!
//! A grid of resolution `xz` by `y` consists of `xz` planes perpendicular to
//! X, then `xz` planes perpendicular to Z, then `y` planes perpendicular to Y.
//! Every plane is one quad with four vertices of its own and one or two
//! pairs of triangles, so vertex and index positions are closed formulas of
//! the plane's number.

use vstd::prelude::*;
use crate::bytes::{cast_u16_slice, is_image_u16};
use crate::vertex::{Vertex, AXIS_X, AXIS_Y, AXIS_Z};

verus! {

/// Number of planes perpendicular to X, and to Z, in the reference grid.
pub const XZ: u32 = 64;

/// Number of planes perpendicular to Y in the reference grid.
pub const Y: u32 = 64;

/// Number of vertices of the reference grid.
pub const NUM_VERTICES: usize = (8 * XZ + 4 * Y) as usize;

/// Number of indices of the reference grid, which is single-sided.
pub const NUM_INDICES: usize = (12 * XZ + 6 * Y) as usize;

/// The most vertices that 16-bit indices can tell apart.
pub const MAX_VERTICES: usize = 65536;

/// A generated grid mesh: vertices, and indices of a triangle list into them.
#[derive(Debug, Clone)]
pub struct Lattice {
    pub vertices: Vec<Vertex>,
    pub indices: Vec<u16>,
}

/// Number of planes of a grid: `xz` for X, `xz` for Z and `y` for Y.
pub open spec fn plane_count(xz: nat, y: nat) -> nat {
    2 * xz + y
}

/// Number of vertices of a grid: four per plane.
pub open spec fn vertex_count(xz: nat, y: nat) -> nat {
    4 * plane_count(xz, y)
}

/// Number of indices that one plane takes: two triangles, in one winding
/// order or in both.
pub open spec fn index_stride(double_sided: bool) -> nat {
    if double_sided {
        12
    } else {
        6
    }
}

/// Number of indices of a grid.
pub open spec fn index_count(xz: nat, y: nat, double_sided: bool) -> nat {
    index_stride(double_sided) * plane_count(xz, y)
}

/// The coordinate of the near (`-half`) or far (`+half`) edge of the grid
/// along an axis whose full extent is `half` half units to either side.
pub open spec fn edge(half: int, far: bool) -> int {
    if far {
        half
    } else {
        -half
    }
}

/// Corner `c` (0 to 3) of plane `p`, in half units.
///
/// The grid reaches `xz / 2` units to either side along X and Z, and `y / 2`
/// units along Y. Plane `n` of the X family lies at `n - xz / 2` with the
/// quotient rounded down, and so does plane `n` of the Z family; plane `n` of
/// the Y family lies at `n - y / 2` with the quotient exact. Of the two axes
/// that a plane spans, in the order X, Y, Z, the first is at its far edge
/// for the corners 2 and 3, the second for the corners 1 and 3.
pub open spec fn corner(xz: nat, y: nat, p: int, c: int) -> Vertex {
    let first = edge_flag_first(c);
    let second = edge_flag_second(c);
    if p < xz {
        Vertex {
            pos: [
                (2 * (p - xz / 2)) as i32,
                edge(y as int, first) as i32,
                edge(xz as int, second) as i32,
            ],
            axis: AXIS_X,
        }
    } else if p < 2 * xz {
        Vertex {
            pos: [
                edge(xz as int, first) as i32,
                edge(y as int, second) as i32,
                (2 * (p - xz - xz / 2)) as i32,
            ],
            axis: AXIS_Z,
        }
    } else {
        Vertex {
            pos: [
                edge(xz as int, first) as i32,
                (2 * (p - 2 * xz) - y) as i32,
                edge(xz as int, second) as i32,
            ],
            axis: AXIS_Y,
        }
    }
}

/// Whether corner `c` lies at the far edge of the first free axis.
pub open spec fn edge_flag_first(c: int) -> bool {
    c >= 2
}

/// Whether corner `c` lies at the far edge of the second free axis.
pub open spec fn edge_flag_second(c: int) -> bool {
    c % 2 == 1
}

/// The corner that position `j` of a quad's index run refers to.
///
/// The first six positions are the triangles (0, 1, 2) and (1, 3, 2); the
/// six that a double-sided quad adds are the same triangles turned over,
/// (0, 2, 1) and (1, 2, 3).
pub open spec fn winding(j: int) -> int {
    if j == 0 || j == 6 {
        0
    } else if j == 1 || j == 3 || j == 8 || j == 9 {
        1
    } else if j == 2 || j == 5 || j == 7 || j == 10 {
        2
    } else if j == 4 || j == 11 {
        3
    } else {
        0
    }
}

/// The number of the quad that position `i` of the index sequence belongs
/// to.
pub open spec fn quad_of(i: int, double_sided: bool) -> int {
    if double_sided {
        i / 12
    } else {
        i / 6
    }
}

/// The place that position `i` of the index sequence has within the run of
/// its quad.
pub open spec fn place_of(i: int, double_sided: bool) -> int {
    if double_sided {
        i % 12
    } else {
        i % 6
    }
}

/// The indices of one quad whose first vertex has the number `base`.
pub open spec fn quad_indices(base: int, double_sided: bool) -> Seq<u16> {
    Seq::new(index_stride(double_sided), |j: int| (base + winding(j)) as u16)
}

/// All vertices of a grid, plane by plane.
pub open spec fn grid_vertices(xz: nat, y: nat) -> Seq<Vertex> {
    Seq::new(vertex_count(xz, y), |k: int| corner(xz, y, k / 4, k % 4))
}

/// All indices of a grid, plane by plane.
pub open spec fn grid_indices(xz: nat, y: nat, double_sided: bool) -> Seq<u16> {
    Seq::new(
        index_count(xz, y, double_sided),
        |i: int| (4 * quad_of(i, double_sided) + winding(place_of(i, double_sided))) as u16,
    )
}

impl Lattice {
    /// Whether this is the grid of resolution `xz` by `y`, exactly.
    pub open spec fn is_grid(&self, xz: nat, y: nat, double_sided: bool) -> bool {
        &&& self.vertices@ == grid_vertices(xz, y)
        &&& self.indices@ == grid_indices(xz, y, double_sided)
    }

    /// Whether this holds the first `planes` planes of the grid of
    /// resolution `xz` by `y`, and nothing else.
    spec fn is_prefix(&self, xz: nat, y: nat, double_sided: bool, planes: int) -> bool {
        &&& 0 <= planes <= plane_count(xz, y)
        &&& self.vertices@ == grid_vertices(xz, y).take(4 * planes)
        &&& self.indices@ == grid_indices(xz, y, double_sided).take(
            index_stride(double_sided) * planes,
        )
    }

    /// The reference grid: [`XZ`] by [`Y`], single-sided.
    pub fn new() -> (lattice: Lattice)
        ensures
            lattice.is_grid(XZ as nat, Y as nat, false),
            lattice.vertices.len() == NUM_VERTICES,
            lattice.indices.len() == NUM_INDICES,
    {
        Lattice::generate(XZ, Y, false)
    }

    /// The grid of resolution `xz` by `y`, with one winding order per quad
    /// or, if `double_sided`, with both.
    ///
    /// The vertices must be few enough for 16-bit indices.
    pub fn generate(xz: u32, y: u32, double_sided: bool) -> (lattice: Lattice)
        requires
            vertex_count(xz as nat, y as nat) <= MAX_VERTICES,
        ensures
            lattice.is_grid(xz as nat, y as nat, double_sided),
            lattice.vertices.len() == 8 * xz + 4 * y,
            lattice.indices.len() == index_stride(double_sided) * (2 * xz + y),
            forall|i: int|
                0 <= i < lattice.indices.len() ==> 4 * quad_of(i, double_sided)
                    <= #[trigger] lattice.indices[i] < 4 * quad_of(i, double_sided) + 4
                    && lattice.indices[i] < lattice.vertices.len(),
    {
        let ghost gxz = xz as nat;
        let ghost gy = y as nat;
        let far_xz: i32 = xz as i32;
        let far_y: i32 = y as i32;
        let mid: i32 = (xz / 2) as i32;
        let mut lattice = Lattice { vertices: Vec::new(), indices: Vec::new() };
        proof {
            assert(lattice.vertices@ =~= grid_vertices(gxz, gy).take(0));
            assert(lattice.indices@ =~= grid_indices(gxz, gy, double_sided).take(0));
        }

        let mut x: u32 = 0;
        while x < xz
            invariant
                vertex_count(gxz, gy) <= MAX_VERTICES,
                gxz == xz,
                gy == y,
                far_xz == xz,
                far_y == y,
                mid == xz / 2,
                x <= xz,
                lattice.is_prefix(gxz, gy, double_sided, x as int),
            decreases xz - x,
        {
            let along: i32 = 2 * (x as i32 - mid);
            let ghost before = lattice;
            lattice.push_quad(
                [
                    Vertex { pos: [along, -far_y, -far_xz], axis: AXIS_X },
                    Vertex { pos: [along, -far_y, far_xz], axis: AXIS_X },
                    Vertex { pos: [along, far_y, -far_xz], axis: AXIS_X },
                    Vertex { pos: [along, far_y, far_xz], axis: AXIS_X },
                ],
                double_sided,
            );
            proof {
                lemma_prefix_grows(before, lattice, gxz, gy, double_sided, x as int);
            }
            x += 1;
        }

        let mut z: u32 = 0;
        while z < xz
            invariant
                vertex_count(gxz, gy) <= MAX_VERTICES,
                gxz == xz,
                gy == y,
                far_xz == xz,
                far_y == y,
                mid == xz / 2,
                z <= xz,
                lattice.is_prefix(gxz, gy, double_sided, xz + z),
            decreases xz - z,
        {
            let along: i32 = 2 * (z as i32 - mid);
            let ghost before = lattice;
            lattice.push_quad(
                [
                    Vertex { pos: [-far_xz, -far_y, along], axis: AXIS_Z },
                    Vertex { pos: [-far_xz, far_y, along], axis: AXIS_Z },
                    Vertex { pos: [far_xz, -far_y, along], axis: AXIS_Z },
                    Vertex { pos: [far_xz, far_y, along], axis: AXIS_Z },
                ],
                double_sided,
            );
            proof {
                lemma_prefix_grows(before, lattice, gxz, gy, double_sided, xz + z);
            }
            z += 1;
        }

        let mut level: u32 = 0;
        while level < y
            invariant
                vertex_count(gxz, gy) <= MAX_VERTICES,
                gxz == xz,
                gy == y,
                far_xz == xz,
                far_y == y,
                level <= y,
                lattice.is_prefix(gxz, gy, double_sided, 2 * xz + level),
            decreases y - level,
        {
            let height: i32 = 2 * (level as i32) - far_y;
            let ghost before = lattice;
            lattice.push_quad(
                [
                    Vertex { pos: [-far_xz, height, -far_xz], axis: AXIS_Y },
                    Vertex { pos: [-far_xz, height, far_xz], axis: AXIS_Y },
                    Vertex { pos: [far_xz, height, -far_xz], axis: AXIS_Y },
                    Vertex { pos: [far_xz, height, far_xz], axis: AXIS_Y },
                ],
                double_sided,
            );
            proof {
                lemma_prefix_grows(before, lattice, gxz, gy, double_sided, 2 * xz + level);
            }
            level += 1;
        }
        proof {
            assert(lattice.vertices@ =~= grid_vertices(gxz, gy));
            assert(lattice.indices@ =~= grid_indices(gxz, gy, double_sided));
            assert forall|i: int| 0 <= i < lattice.indices.len() implies 4 * quad_of(
                i,
                double_sided,
            ) <= #[trigger] lattice.indices[i] < 4 * quad_of(i, double_sided) + 4
                && lattice.indices[i] < lattice.vertices.len() by {
                lemma_index_stays_in_quad(gxz, gy, double_sided, i);
            }
        }
        lattice
    }

    /// The indices as the bytes of an index buffer: two bytes each, in the
    /// byte order of the machine.
    pub fn index_bytes(&self) -> (bytes: &[u8])
        ensures
            is_image_u16(bytes@, self.indices@),
            bytes@.len() == 2 * self.indices.len(),
    {
        cast_u16_slice(self.indices.as_slice())
    }

    /// Appends one quad: its four corners, and the indices of its triangles.
    fn push_quad(&mut self, corners: [Vertex; 4], double_sided: bool)
        requires
            old(self).vertices.len() + 4 <= MAX_VERTICES,
        ensures
            final(self).vertices@ == old(self).vertices@ + corners@,
            final(self).indices@ == old(self).indices@ + quad_indices(
                old(self).vertices.len() as int,
                double_sided,
            ),
    {
        let base: u16 = self.vertices.len() as u16;
        let ghost run = quad_indices(base as int, double_sided);
        self.vertices.push(corners[0]);
        self.vertices.push(corners[1]);
        self.vertices.push(corners[2]);
        self.vertices.push(corners[3]);
        self.indices.push(base);
        self.indices.push(base + 1);
        self.indices.push(base + 2);
        self.indices.push(base + 1);
        self.indices.push(base + 3);
        self.indices.push(base + 2);
        if double_sided {
            self.indices.push(base);
            self.indices.push(base + 2);
            self.indices.push(base + 1);
            self.indices.push(base + 1);
            self.indices.push(base + 2);
            self.indices.push(base + 3);
        }
        proof {
            assert(self.vertices@ =~= old(self).vertices@ + corners@);
            assert(self.indices@ =~= old(self).indices@ + run);
        }
    }
}

/// A lattice that holds the first `planes` planes of a grid, extended by
/// the corners and indices of plane number `planes`, holds the first
/// `planes + 1` planes.
proof fn lemma_prefix_grows(
    before: Lattice,
    after: Lattice,
    xz: nat,
    y: nat,
    double_sided: bool,
    planes: int,
)
    requires
        vertex_count(xz, y) <= MAX_VERTICES,
        before.is_prefix(xz, y, double_sided, planes),
        planes < plane_count(xz, y),
        after.vertices@ == before.vertices@ + seq![
            corner(xz, y, planes, 0),
            corner(xz, y, planes, 1),
            corner(xz, y, planes, 2),
            corner(xz, y, planes, 3),
        ],
        after.indices@ == before.indices@ + quad_indices(
            before.vertices@.len() as int,
            double_sided,
        ),
    ensures
        after.is_prefix(xz, y, double_sided, planes + 1),
{
    assert(after.vertices@ =~= grid_vertices(xz, y).take(4 * (planes + 1)));
    let stride: int = index_stride(double_sided) as int;
    let grown = grid_indices(xz, y, double_sided).take(stride * (planes + 1));
    assert(stride * (planes + 1) == stride * planes + stride) by (nonlinear_arith);
    assert(stride * (planes + 1) <= index_count(xz, y, double_sided)) by (nonlinear_arith)
        requires
            planes + 1 <= plane_count(xz, y),
            stride >= 0,
            index_count(xz, y, double_sided) == stride * plane_count(xz, y),
    ;
    assert forall|i: int| 0 <= i < stride * (planes + 1) implies after.indices@[i] == grown[i] by {
        if i >= stride * planes {
            assert(quad_of(i, double_sided) == planes);
            assert(place_of(i, double_sided) == i - stride * planes);
        }
    }
    assert(after.indices@ =~= grown);
}

/// Every index of a grid refers to a vertex that exists, and to one of the
/// four that belong to the index's own quad.
pub proof fn lemma_index_stays_in_quad(xz: nat, y: nat, double_sided: bool, i: int)
    requires
        vertex_count(xz, y) <= MAX_VERTICES,
        0 <= i < index_count(xz, y, double_sided),
    ensures
        0 <= quad_of(i, double_sided) < plane_count(xz, y),
        4 * quad_of(i, double_sided) <= grid_indices(xz, y, double_sided)[i] < 4 * quad_of(
            i,
            double_sided,
        ) + 4,
        grid_indices(xz, y, double_sided)[i] < vertex_count(xz, y),
{
}

/// Generation is a function of the resolution alone: two lattices generated
/// for the same resolution and sidedness hold the same vertices and the same
/// indices, in the same order.
pub proof fn lemma_generation_is_deterministic(
    first: Lattice,
    second: Lattice,
    xz: nat,
    y: nat,
    double_sided: bool,
)
    requires
        first.is_grid(xz, y, double_sided),
        second.is_grid(xz, y, double_sided),
    ensures
        first.vertices@ == second.vertices@,
        first.indices@ == second.indices@,
{
}

/// The four corners of a quad are four different vertices, provided the grid
/// has planes in every direction.
pub proof fn lemma_quad_corners_differ(xz: nat, y: nat, p: int, c: int, d: int)
    requires
        0 < xz,
        0 < y,
        vertex_count(xz, y) <= MAX_VERTICES,
        0 <= p < plane_count(xz, y),
        0 <= c < d < 4,
    ensures
        corner(xz, y, p, c) != corner(xz, y, p, d),
{
    let a = corner(xz, y, p, c);
    let b = corner(xz, y, p, d);
    if p < xz {
        assert(a.pos@[1] != b.pos@[1] || a.pos@[2] != b.pos@[2]);
    } else if p < 2 * xz {
        assert(a.pos@[0] != b.pos@[0] || a.pos@[1] != b.pos@[1]);
    } else {
        assert(a.pos@[0] != b.pos@[0] || a.pos@[2] != b.pos@[2]);
    }
}

/// No corner lies outside the box that the grid spans around the origin:
/// `xz` half units to either side along X and Z, `y` half units along Y.
pub proof fn lemma_corners_lie_within_extent(xz: nat, y: nat, p: int, c: int)
    requires
        vertex_count(xz, y) <= MAX_VERTICES,
        0 <= p < plane_count(xz, y),
        0 <= c < 4,
    ensures
        -xz <= corner(xz, y, p, c).pos@[0] <= xz,
        -y <= corner(xz, y, p, c).pos@[1] <= y,
        -xz <= corner(xz, y, p, c).pos@[2] <= xz,
{
}

} // verus!
