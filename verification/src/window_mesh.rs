//! The mesh of a panel: a thin box, two triangles to a face, with the texture
//! laid over it so that it reads the right way round on the front.

use vstd::prelude::*;
use crate::geometry::Point3;
use vstd::arithmetic::div_mod::lemma_fundamental_div_mod_converse;
use crate::surface::{uv_axis, SpatialEguiWindowPhysicalSize, Uv, WindowGeometry, UV_ONE};

verus! {

/// One of the eight corners of the box.
#[derive(Clone, Copy, Debug, PartialEq, Eq, Structural)]
pub struct Corner {
    /// At the positive end of the x axis.
    pub right: bool,
    /// At the positive end of the y axis.
    pub top: bool,
    /// At the positive end of the z axis.
    pub back: bool,
}

/// A texture coordinate of a vertex, in whole textures: 0 or 1 on each axis.
#[derive(Clone, Copy, Debug, PartialEq, Eq, Structural)]
pub struct TexCoord {
    pub u: u8,
    pub v: u8,
}

/// One vertex of the mesh.
#[derive(Clone, Copy, Debug, PartialEq, Eq, Structural)]
pub struct MeshVertex {
    pub corner: Corner,
    /// In nanometres, the centre of the box at the origin.
    pub position: Point3,
    pub uv: TexCoord,
}

/// One of the six faces of the box.
#[derive(Clone, Copy, Debug, PartialEq, Eq, Structural)]
pub enum Face {
    Front,
    Back,
    Top,
    Bottom,
    Left,
    Right,
}

/// The number of vertices of the mesh: six faces of two triangles.
pub const VERTEX_COUNT: usize = 36;

pub open spec fn top_left_front() -> Corner {
    Corner { right: false, top: true, back: false }
}

pub open spec fn top_right_front() -> Corner {
    Corner { right: true, top: true, back: false }
}

pub open spec fn bottom_left_front() -> Corner {
    Corner { right: false, top: false, back: false }
}

pub open spec fn bottom_right_front() -> Corner {
    Corner { right: true, top: false, back: false }
}

pub open spec fn top_left_back() -> Corner {
    Corner { right: false, top: true, back: true }
}

pub open spec fn top_right_back() -> Corner {
    Corner { right: true, top: true, back: true }
}

pub open spec fn bottom_left_back() -> Corner {
    Corner { right: false, top: false, back: true }
}

pub open spec fn bottom_right_back() -> Corner {
    Corner { right: true, top: false, back: true }
}

/// Half of `extent`, rounded down, towards the positive or the negative end
/// of an axis.
pub open spec fn half_extent(extent: u64, positive: bool) -> int {
    if positive {
        extent as int / 2
    } else {
        -(extent as int / 2)
    }
}

/// The corners of the mesh in order: front, back, top, bottom, left, right,
/// three to a triangle.
pub open spec fn mesh_corners() -> Seq<Corner> {
    seq![
        top_left_front(),
        top_right_front(),
        bottom_left_front(),
        bottom_left_front(),
        top_right_front(),
        bottom_right_front(),
        top_left_back(),
        bottom_left_back(),
        top_right_back(),
        bottom_left_back(),
        bottom_right_back(),
        top_right_back(),
        top_left_back(),
        top_right_back(),
        top_left_front(),
        top_right_back(),
        top_right_front(),
        top_left_front(),
        bottom_left_back(),
        bottom_left_front(),
        bottom_right_back(),
        bottom_right_back(),
        bottom_left_front(),
        bottom_right_front(),
        top_left_back(),
        top_left_front(),
        bottom_left_back(),
        bottom_left_back(),
        top_left_front(),
        bottom_left_front(),
        top_right_front(),
        top_right_back(),
        bottom_right_front(),
        bottom_right_front(),
        top_right_back(),
        bottom_right_back(),
    ]
}

impl Corner {
    /// Where the corner lies on a box of the given size: half the extent from
    /// the centre on each axis, halves rounded down.
    pub open spec fn position(self, size: SpatialEguiWindowPhysicalSize) -> Point3 {
        Point3 {
            x: half_extent(size.width, self.right) as i64,
            y: half_extent(size.height, self.top) as i64,
            z: half_extent(size.depth, self.back) as i64,
        }
    }

    /// The texture coordinate of the corner: the texture starts at the top
    /// right of the box as its axes run, which is the top left for one who
    /// looks at the front.
    pub open spec fn uv(self) -> TexCoord {
        TexCoord {
            u: if self.right {
                0
            } else {
                1
            },
            v: if self.top {
                0
            } else {
                1
            },
        }
    }

    /// The vertex at the corner.
    pub open spec fn vertex(self, size: SpatialEguiWindowPhysicalSize) -> MeshVertex {
        MeshVertex { corner: self, position: self.position(size), uv: self.uv() }
    }

    /// Whether the corner lies on `face`.
    pub open spec fn on(self, face: Face) -> bool {
        match face {
            Face::Front => !self.back,
            Face::Back => self.back,
            Face::Top => self.top,
            Face::Bottom => !self.top,
            Face::Left => !self.right,
            Face::Right => self.right,
        }
    }

    /// The corner as a vector of signs.
    pub open spec fn signs(self) -> (int, int, int) {
        (
            if self.right {
                1
            } else {
                -1
            },
            if self.top {
                1
            } else {
                -1
            },
            if self.back {
                1
            } else {
                -1
            },
        )
    }

    /// Makes the vertex at the corner.
    pub fn to_vertex(self, size: &SpatialEguiWindowPhysicalSize) -> (vertex: MeshVertex)
        ensures
            vertex == self.vertex(*size),
    {
        let half_width: i64 = (size.width / 2) as i64;
        let half_height: i64 = (size.height / 2) as i64;
        let half_depth: i64 = (size.depth / 2) as i64;
        MeshVertex {
            corner: self,
            position: Point3 {
                x: if self.right {
                    half_width
                } else {
                    -half_width
                },
                y: if self.top {
                    half_height
                } else {
                    -half_height
                },
                z: if self.back {
                    half_depth
                } else {
                    -half_depth
                },
            },
            uv: TexCoord {
                u: if self.right {
                    0
                } else {
                    1
                },
                v: if self.top {
                    0
                } else {
                    1
                },
            },
        }
    }
}

impl Face {
    /// The direction in which the face looks away from the box.
    pub open spec fn outward(self) -> (int, int, int) {
        match self {
            Face::Front => (0, 0, -1),
            Face::Back => (0, 0, 1),
            Face::Top => (0, 1, 0),
            Face::Bottom => (0, -1, 0),
            Face::Left => (-1, 0, 0),
            Face::Right => (1, 0, 0),
        }
    }
}

/// The face that the triangle with the given number lies on.
pub open spec fn face_of_triangle(triangle: int) -> Face {
    if triangle < 2 {
        Face::Front
    } else if triangle < 4 {
        Face::Back
    } else if triangle < 6 {
        Face::Top
    } else if triangle < 8 {
        Face::Bottom
    } else if triangle < 10 {
        Face::Left
    } else {
        Face::Right
    }
}

/// The mesh of a box of the given size.
pub open spec fn window_mesh(size: SpatialEguiWindowPhysicalSize) -> Seq<MeshVertex> {
    Seq::new(mesh_corners().len(), |i: int| mesh_corners()[i].vertex(size))
}

/// How far the triangle `a`, `b`, `c` turns towards `outward`: the product of
/// the normal of the triangle, as its corners run, with that direction.
pub open spec fn turn(a: Corner, b: Corner, c: Corner, outward: (int, int, int)) -> int {
    let (ax, ay, az) = a.signs();
    let (bx, by, bz) = b.signs();
    let (cx, cy, cz) = c.signs();
    let (ux, uy, uz) = (bx - ax, by - ay, bz - az);
    let (vx, vy, vz) = (cx - ax, cy - ay, cz - az);
    (uy * vz - uz * vy) * outward.0 + (uz * vx - ux * vz) * outward.1 + (ux * vy - uy * vx)
        * outward.2
}

/// Builds the mesh of a panel of the given size.
pub fn construct_window_mesh(size: &SpatialEguiWindowPhysicalSize) -> (mesh: Vec<MeshVertex>)
    ensures
        mesh@ == window_mesh(*size),
        mesh.len() == VERTEX_COUNT,
{
    let top_left_front = Corner { right: false, top: true, back: false };
    let top_right_front = Corner { right: true, top: true, back: false };
    let bottom_left_front = Corner { right: false, top: false, back: false };
    let bottom_right_front = Corner { right: true, top: false, back: false };
    let top_left_back = Corner { right: false, top: true, back: true };
    let top_right_back = Corner { right: true, top: true, back: true };
    let bottom_left_back = Corner { right: false, top: false, back: true };
    let bottom_right_back = Corner { right: true, top: false, back: true };
    let corners: Vec<Corner> = vec![
        // front
        top_left_front,
        top_right_front,
        bottom_left_front,
        bottom_left_front,
        top_right_front,
        bottom_right_front,
        // back
        top_left_back,
        bottom_left_back,
        top_right_back,
        bottom_left_back,
        bottom_right_back,
        top_right_back,
        // top
        top_left_back,
        top_right_back,
        top_left_front,
        top_right_back,
        top_right_front,
        top_left_front,
        // bottom
        bottom_left_back,
        bottom_left_front,
        bottom_right_back,
        bottom_right_back,
        bottom_left_front,
        bottom_right_front,
        // left
        top_left_back,
        top_left_front,
        bottom_left_back,
        bottom_left_back,
        top_left_front,
        bottom_left_front,
        // right
        top_right_front,
        top_right_back,
        bottom_right_front,
        bottom_right_front,
        top_right_back,
        bottom_right_back,
    ];
    assert(corners@ =~= mesh_corners());
    let mut mesh: Vec<MeshVertex> = Vec::new();
    let mut i: usize = 0;
    while i < corners.len()
        invariant
            i <= corners.len(),
            corners@ == mesh_corners(),
            mesh.len() == i,
            forall|k: int| 0 <= k < i ==> #[trigger] mesh[k] == mesh_corners()[k].vertex(*size),
        decreases corners.len() - i,
    {
        mesh.push(corners[i].to_vertex(size));
        i = i + 1;
    }
    assert(mesh@ =~= window_mesh(*size));
    mesh
}

/// The product of a small whole number with any other, without multiplying.
proof fn lemma_small_product(small: int, other: int)
    requires
        -2 <= small <= 2,
    ensures
        small == 0 ==> small * other == 0 && other * small == 0,
        small == 1 ==> small * other == other && other * small == other,
        small == -1 ==> small * other == -other && other * small == -other,
        small == 2 ==> small * other == other + other && other * small == other + other,
        small == -2 ==> small * other == -other - other && other * small == -other - other,
{
    assert(small * other == other * small) by (nonlinear_arith);
    if small == 0 {
        assert(small * other == 0) by (nonlinear_arith)
            requires
                small == 0,
        ;
    } else if small == 1 {
        assert(small * other == other) by (nonlinear_arith)
            requires
                small == 1,
        ;
    } else if small == -1 {
        assert(small * other == -other) by (nonlinear_arith)
            requires
                small == -1,
        ;
    } else if small == 2 {
        assert(small * other == other + other) by (nonlinear_arith)
            requires
                small == 2,
        ;
    } else {
        assert(small * other == -other - other) by (nonlinear_arith)
            requires
                small == -2,
        ;
    }
}

/// The mesh is a closed box. Each triangle has three different corners, all
/// on the face that the triangle belongs to, and runs anticlockwise for one
/// who looks at that face from outside. The two triangles of a face share a
/// diagonal and between them reach all four corners of the face.
pub proof fn lemma_mesh_is_a_box(triangle: int)
    requires
        0 <= triangle < 12,
    ensures
        ({
            let corners = mesh_corners();
            let face = face_of_triangle(triangle);
            let a = corners[3 * triangle];
            let b = corners[3 * triangle + 1];
            let c = corners[3 * triangle + 2];
            &&& corners.len() == 36
            &&& a != b && b != c && a != c
            &&& a.on(face) && b.on(face) && c.on(face)
            &&& turn(a, b, c, face.outward()) > 0
        }),
        ({
            let corners = mesh_corners();
            let first = 6 * (triangle / 2);
            forall|corner: Corner| #[trigger]
                corner.on(face_of_triangle(triangle)) ==> exists|k: int|
                    first <= k < first + 6 && corners[k] == corner
        }),
{
    let corners = mesh_corners();
    let face = face_of_triangle(triangle);
    let first = 6 * (triangle / 2);
    assert(triangle == 0 || triangle == 1 || triangle == 2 || triangle == 3 || triangle == 4
        || triangle == 5 || triangle == 6 || triangle == 7 || triangle == 8 || triangle == 9
        || triangle == 10 || triangle == 11);
    let a = corners[3 * triangle];
    let b = corners[3 * triangle + 1];
    let c = corners[3 * triangle + 2];
    assert(turn(a, b, c, face.outward()) > 0) by {
        let (ax, ay, az) = a.signs();
        let (bx, by, bz) = b.signs();
        let (cx, cy, cz) = c.signs();
        let (ux, uy, uz) = (bx - ax, by - ay, bz - az);
        let (vx, vy, vz) = (cx - ax, cy - ay, cz - az);
        lemma_small_product(uy, vz);
        lemma_small_product(uz, vy);
        lemma_small_product(uz, vx);
        lemma_small_product(ux, vz);
        lemma_small_product(ux, vy);
        lemma_small_product(uy, vx);
        lemma_small_product(face.outward().0, uy * vz - uz * vy);
        lemma_small_product(face.outward().1, uz * vx - ux * vz);
        lemma_small_product(face.outward().2, ux * vy - uy * vx);
    }
    assert forall|corner: Corner| #[trigger] corner.on(face) implies exists|k: int|
        first <= k < first + 6 && corners[k] == corner by {
        if corners[first] == corner {
        } else if corners[first + 1] == corner {
        } else if corners[first + 2] == corner {
        } else if corners[first + 4] == corner {
        } else {
            assert(corners[first + 5] == corner);
        }
    }
}

/// The texture coordinate of every vertex depends only on where the vertex
/// lies across the panel, not on its depth: the sides of the box repeat the
/// edge of the texture.
pub proof fn lemma_mesh_uv_ignores_depth(size: SpatialEguiWindowPhysicalSize, i: int, j: int)
    requires
        0 <= i < 36,
        0 <= j < 36,
        window_mesh(size)[i].corner.right == window_mesh(size)[j].corner.right,
        window_mesh(size)[i].corner.top == window_mesh(size)[j].corner.top,
    ensures
        window_mesh(size)[i].uv == window_mesh(size)[j].uv,
{
}

/// On a panel of even extent, the edge at the positive end of an axis has
/// the texture coordinate 0 under the pointer, the other edge 1.
proof fn lemma_edge_uv(extent: u64, positive: bool)
    requires
        extent > 0,
        extent % 2 == 0,
    ensures
        uv_axis(half_extent(extent, positive), extent as int) == (if positive {
            0
        } else {
            UV_ONE as int
        }),
{
    let half = extent as int / 2;
    let doubled = 2 * (extent as int);
    if positive {
        assert((extent - 2 * half) * UV_ONE == 0) by (nonlinear_arith)
            requires
                extent - 2 * half == 0,
        ;
        lemma_fundamental_div_mod_converse(0, doubled, 0, 0);
    } else {
        assert((extent - 2 * (-half)) * UV_ONE == UV_ONE * doubled + 0) by (nonlinear_arith)
            requires
                extent - 2 * (-half) == doubled,
        ;
        lemma_fundamental_div_mod_converse(
            (extent - 2 * (-half)) * UV_ONE,
            doubled,
            UV_ONE as int,
            0,
        );
    }
}

/// The texture lies where the pointer lands: on a panel of even extent, a
/// point of contact at a vertex of the mesh maps to the texture coordinate of
/// that vertex.
pub proof fn lemma_mesh_uv_is_where_the_pointer_lands(geometry: WindowGeometry, i: int)
    requires
        geometry.wf(),
        geometry.size.width % 2 == 0,
        geometry.size.height % 2 == 0,
        0 <= i < 36,
    ensures
        ({
            let vertex = window_mesh(geometry.size)[i];
            geometry.uv_of(vertex.position) == (Uv {
                u: (vertex.uv.u * UV_ONE) as i128,
                v: (vertex.uv.v * UV_ONE) as i128,
            })
        }),
{
    let corner = mesh_corners()[i];
    lemma_edge_uv(geometry.size.width, corner.right);
    lemma_edge_uv(geometry.size.height, corner.top);
}

} // verus!
