//! Face-culled meshing of one chunk, with per-corner ambient occlusion.
//!
//! Faces are numbered 0 to 5: left (x-), right (x+), bottom (y-), top (y+),
//! back (z-), front (z+). Each visible face becomes two triangles, six
//! vertices, over the four corners of the face.

use vstd::prelude::*;
use crate::block::{Block, BlockType};
use crate::chunk::{CHUNK_HEIGHT, CHUNK_SIZE, Chunk, grid_index, in_bounds};
use crate::texture::{TextureAtlas, tile_index};
use crate::world::{World, WorldView, world_block};

verus! {

/// Vertex positions are counted in tenths of a voxel edge.
pub const POSITION_SCALE: i32 = 10;

/// Height of a water surface above the bottom of its voxel, in tenths.
pub const WATER_SURFACE: i32 = 8;

/// Ambient occlusion is counted in quarters: 4 is fully lit, 1 is darkest.
pub const AO_SCALE: u32 = 4;

/// One mesh vertex, nine numbers: the chunk-local position `(x, y, z)` in
/// tenths of a voxel, the texture coordinate `(u, v)` in atlas tiles, the
/// unit axis normal `(nx, ny, nz)`, and the occlusion `ao` in quarters.
#[derive(Clone, Copy, Debug, PartialEq, Eq, Structural)]
pub struct Vertex {
    pub x: i32,
    pub y: i32,
    pub z: i32,
    pub u: u32,
    pub v: u32,
    pub nx: i32,
    pub ny: i32,
    pub nz: i32,
    pub ao: u32,
}

/// The renderable surface of one chunk: a triangle list, three vertices per
/// triangle, two triangles per visible face.
pub struct Mesh {
    pub vertices: Vec<Vertex>,
}

/// Step from a voxel to its neighbour across face `face`; also the face's
/// outward normal. Faces beyond 5 have no direction.
pub open spec fn face_offset(face: int) -> (int, int, int) {
    if face == 0 {
        (-1, 0, 0)
    } else if face == 1 {
        (1, 0, 0)
    } else if face == 2 {
        (0, -1, 0)
    } else if face == 3 {
        (0, 1, 0)
    } else if face == 4 {
        (0, 0, -1)
    } else if face == 5 {
        (0, 0, 1)
    } else {
        (0, 0, 0)
    }
}

/// Corner `corner` (0 to 3) of face `face` on the unit cube, in winding
/// order.
pub open spec fn face_corner(face: int, corner: int) -> (int, int, int) {
    if face == 0 {
        if corner == 0 {
            (0, 0, 0)
        } else if corner == 1 {
            (0, 1, 0)
        } else if corner == 2 {
            (0, 1, 1)
        } else {
            (0, 0, 1)
        }
    } else if face == 1 {
        if corner == 0 {
            (1, 0, 1)
        } else if corner == 1 {
            (1, 1, 1)
        } else if corner == 2 {
            (1, 1, 0)
        } else {
            (1, 0, 0)
        }
    } else if face == 2 {
        if corner == 0 {
            (0, 0, 0)
        } else if corner == 1 {
            (1, 0, 0)
        } else if corner == 2 {
            (1, 0, 1)
        } else {
            (0, 0, 1)
        }
    } else if face == 3 {
        if corner == 0 {
            (0, 1, 1)
        } else if corner == 1 {
            (1, 1, 1)
        } else if corner == 2 {
            (1, 1, 0)
        } else {
            (0, 1, 0)
        }
    } else if face == 4 {
        if corner == 0 {
            (1, 0, 0)
        } else if corner == 1 {
            (1, 1, 0)
        } else if corner == 2 {
            (0, 1, 0)
        } else {
            (0, 0, 0)
        }
    } else if face == 5 {
        if corner == 0 {
            (0, 0, 1)
        } else if corner == 1 {
            (0, 1, 1)
        } else if corner == 2 {
            (1, 1, 1)
        } else {
            (1, 0, 1)
        }
    } else {
        (0, 0, 0)
    }
}

/// The corner of the face that vertex `k` (0 to 5) of its two triangles uses:
/// the pattern 0, 1, 2, 0, 2, 3.
pub open spec fn triangle_corner(k: int) -> int {
    if k == 0 || k == 3 {
        0
    } else if k == 1 {
        1
    } else if k == 2 || k == 4 {
        2
    } else {
        3
    }
}

/// The step from a voxel towards a corner of one of its faces along an axis
/// that lies in the face: forwards when the corner sits at 1 on that axis of
/// the unit cube, backwards when it sits at 0.
pub open spec fn corner_step(p: int) -> int {
    if p > 0 {
        1
    } else {
        -1
    }
}

/// The three cells sampled for the occlusion of corner `corner` of face
/// `face`, as steps from the voxel: the two edge neighbours, then the
/// diagonal one. All three lie one step out along the normal of the face.
/// Each edge neighbour lies one further step towards the corner along one of
/// the two axes of the face, the first along the earlier axis; the diagonal
/// neighbour takes both steps.
pub open spec fn ao_neighbors(face: int, corner: int) -> (
    (int, int, int),
    (int, int, int),
    (int, int, int),
) {
    let n = face_offset(face);
    let p = face_corner(face, corner);
    let sx = corner_step(p.0);
    let sy = corner_step(p.1);
    let sz = corner_step(p.2);
    if n.0 != 0 {
        ((n.0, sy, 0), (n.0, 0, sz), (n.0, sy, sz))
    } else if n.1 != 0 {
        ((sx, n.1, 0), (0, n.1, sz), (sx, n.1, sz))
    } else {
        ((sx, 0, n.2), (0, sy, n.2), (sx, sy, n.2))
    }
}

/// Where the occlusion samples of a corner lie. With `n` the normal of the
/// face and `p` the corner on the unit cube: every sample has the normal's
/// component along the normal; the diagonal sample is the sum of the two edge
/// samples less the normal; an edge sample differs from the normal by one
/// step along one axis of the face, the two edges along different axes; and
/// along an axis of the face every sample that moves at all moves towards the
/// corner. So the four corners of a face sample four different triples.
pub proof fn lemma_ao_neighbors_geometry(face: int, corner: int)
    requires
        0 <= face < 6,
        0 <= corner < 4,
    ensures
        ({
            let n = face_offset(face);
            let p = face_corner(face, corner);
            let s = ao_neighbors(face, corner);
            let step = (corner_step(p.0), corner_step(p.1), corner_step(p.2));
            &&& n.0 != 0 ==> s.0.0 == n.0 && s.1.0 == n.0 && s.2.0 == n.0
            &&& n.1 != 0 ==> s.0.1 == n.1 && s.1.1 == n.1 && s.2.1 == n.1
            &&& n.2 != 0 ==> s.0.2 == n.2 && s.1.2 == n.2 && s.2.2 == n.2
            &&& s.2.0 == s.0.0 + s.1.0 - n.0
            &&& s.2.1 == s.0.1 + s.1.1 - n.1
            &&& s.2.2 == s.0.2 + s.1.2 - n.2
            &&& magnitude3(s.0.0 - n.0, s.0.1 - n.1, s.0.2 - n.2) == 1
            &&& magnitude3(s.1.0 - n.0, s.1.1 - n.1, s.1.2 - n.2) == 1
            &&& magnitude3(s.2.0 - n.0, s.2.1 - n.1, s.2.2 - n.2) == 2
            &&& n.0 == 0 ==> s.2.0 == step.0 && (s.0.0 == 0 || s.0.0 == step.0) && (s.1.0 == 0
                || s.1.0 == step.0)
            &&& n.1 == 0 ==> s.2.1 == step.1 && (s.0.1 == 0 || s.0.1 == step.1) && (s.1.1 == 0
                || s.1.1 == step.1)
            &&& n.2 == 0 ==> s.2.2 == step.2 && (s.0.2 == 0 || s.0.2 == step.2) && (s.1.2 == 0
                || s.1.2 == step.2)
        }),
        forall|other: int|
            0 <= other < 4 && other != corner ==> ao_neighbors(face, other).2 != ao_neighbors(
                face,
                corner,
            ).2,
{
}

/// Number of unit steps in `(dx, dy, dz)`, counted axis by axis.
pub open spec fn magnitude3(dx: int, dy: int, dz: int) -> int {
    (if dx < 0 {
        -dx
    } else {
        dx
    }) + (if dy < 0 {
        -dy
    } else {
        dy
    }) + (if dz < 0 {
        -dz
    } else {
        dz
    })
}

/// Whether `(x, y, z)` is a voxel of the chunk and holds a solid block.
pub open spec fn solid_in_grid(grid: Seq<Block>, x: int, y: int, z: int) -> bool {
    in_bounds(x, y, z) && grid[grid_index(x, y, z)].spec_is_solid()
}

/// Occlusion of a corner, in quarters, from the solidity of its two edge
/// neighbours and its diagonal neighbour: darkest when both edges are solid,
/// whatever the diagonal; otherwise one quarter off full light per solid
/// sample.
pub open spec fn ao_level(side1: bool, side2: bool, diagonal: bool) -> int {
    if side1 && side2 {
        1
    } else {
        4 - ((if side1 { 1int } else { 0int }) + (if side2 { 1int } else { 0int }) + (if diagonal {
            1int
        } else {
            0int
        }))
    }
}

/// Occlusion of corner `corner` of face `face` of the voxel at `(x, y, z)`,
/// in quarters. Cells outside the chunk count as not solid.
pub open spec fn corner_ao(
    grid: Seq<Block>,
    x: int,
    y: int,
    z: int,
    face: int,
    corner: int,
) -> int {
    let n = ao_neighbors(face, corner);
    ao_level(
        solid_in_grid(grid, x + n.0.0, y + n.0.1, z + n.0.2),
        solid_in_grid(grid, x + n.1.0, y + n.1.1, z + n.1.2),
        solid_in_grid(grid, x + n.2.0, y + n.2.1, z + n.2.2),
    )
}

/// A corner of a face whose two edge neighbours are both solid is darkest,
/// one quarter, whatever its diagonal neighbour; a corner none of whose three
/// neighbours is solid is fully lit, four quarters. The voxel itself is none
/// of its neighbours.
pub proof fn lemma_corner_ao_extremes(
    grid: Seq<Block>,
    x: int,
    y: int,
    z: int,
    face: int,
    corner: int,
)
    requires
        0 <= face < 6,
        0 <= corner < 4,
    ensures
        ({
            let s = ao_neighbors(face, corner);
            let edge1 = solid_in_grid(grid, x + s.0.0, y + s.0.1, z + s.0.2);
            let edge2 = solid_in_grid(grid, x + s.1.0, y + s.1.1, z + s.1.2);
            let diagonal = solid_in_grid(grid, x + s.2.0, y + s.2.1, z + s.2.2);
            &&& edge1 && edge2 ==> corner_ao(grid, x, y, z, face, corner) == 1
            &&& !edge1 && !edge2 && !diagonal ==> corner_ao(grid, x, y, z, face, corner) == 4
            &&& s.0 != (0int, 0int, 0int) && s.1 != (0int, 0int, 0int) && s.2 != (
                0int,
                0int,
                0int,
            )
        }),
{
}

/// A corner whose two edge neighbours are both solid is darkest, one quarter;
/// a corner with no solid neighbour is fully lit, four quarters; every level
/// lies between the two.
pub proof fn lemma_ao_level_extremes(side1: bool, side2: bool, diagonal: bool)
    ensures
        side1 && side2 ==> ao_level(side1, side2, diagonal) == 1,
        !side1 && !side2 && !diagonal ==> ao_level(side1, side2, diagonal) == 4,
        1 <= ao_level(side1, side2, diagonal) <= 4,
{
}

/// The block next to a voxel of the chunk at chunk coordinate
/// `(chunk_x, chunk_z)`: read from the chunk's own grid when `(nx, ny, nz)`
/// lies inside it, otherwise looked up in the world at the matching global
/// coordinate.
pub open spec fn neighbor_block(
    world: WorldView,
    chunk_x: int,
    chunk_z: int,
    grid: Seq<Block>,
    nx: int,
    ny: int,
    nz: int,
) -> Option<Block> {
    if in_bounds(nx, ny, nz) {
        Some(grid[grid_index(nx, ny, nz)])
    } else {
        world_block(world, chunk_x * 16 + nx, ny, chunk_z * 16 + nz)
    }
}

/// Whether a block of kind `block_type` shows a face towards `neighbor`.
/// Water hides its face against water and otherwise shows it only towards
/// air or leaves. Leaves always show a face towards leaves. Everything else,
/// and leaves towards other kinds, shows a face exactly towards transparent
/// blocks.
pub open spec fn face_rule(block_type: BlockType, neighbor: Block) -> bool {
    if block_type == BlockType::Water {
        neighbor.block_type != BlockType::Water && (neighbor.block_type == BlockType::Air
            || neighbor.block_type == BlockType::Leaves)
    } else if block_type == BlockType::Leaves {
        neighbor.block_type == BlockType::Leaves || neighbor.spec_is_transparent()
    } else {
        neighbor.spec_is_transparent()
    }
}

/// Whether face `face` of a block of kind `block_type` at `(x, y, z)` is
/// drawn. A face whose neighbour does not exist, because it lies outside the
/// chunk height or in a chunk that is not loaded, is always drawn.
pub open spec fn face_visible(
    world: WorldView,
    chunk_x: int,
    chunk_z: int,
    grid: Seq<Block>,
    x: int,
    y: int,
    z: int,
    face: int,
    block_type: BlockType,
) -> bool {
    let d = face_offset(face);
    match neighbor_block(world, chunk_x, chunk_z, grid, x + d.0, y + d.1, z + d.2) {
        Some(neighbor) => face_rule(block_type, neighbor),
        None => true,
    }
}

/// Height of a face corner above the bottom of its voxel, in tenths, for a
/// corner whose unit-cube height is `cy`. Water is lowered to eight tenths:
/// on its top face at every corner, on its side faces at the two upper
/// corners; its bottom face is untouched.
pub open spec fn corner_height(block_type: BlockType, face: int, cy: int) -> int {
    if block_type == BlockType::Water && (face == 3 || (face != 2 && cy > 0)) {
        WATER_SURFACE as int
    } else {
        cy * POSITION_SCALE
    }
}

/// The vertex at corner `corner` of face `face` of a block of kind
/// `block_type` at `(x, y, z)`. The texture rectangle of the face is laid
/// over the corners in winding order, starting at its lower left.
pub open spec fn face_vertex(
    grid: Seq<Block>,
    block_type: BlockType,
    x: int,
    y: int,
    z: int,
    face: int,
    corner: int,
) -> Vertex {
    let c = face_corner(face, corner);
    let n = face_offset(face);
    let tile = tile_index(block_type, face);
    Vertex {
        x: (x * POSITION_SCALE + c.0 * POSITION_SCALE) as i32,
        y: (y * POSITION_SCALE + corner_height(block_type, face, c.1)) as i32,
        z: (z * POSITION_SCALE + c.2 * POSITION_SCALE) as i32,
        u: (if corner == 1 || corner == 2 {
            tile + 1
        } else {
            tile
        }) as u32,
        v: (if corner == 0 || corner == 1 {
            1int
        } else {
            0int
        }) as u32,
        nx: n.0 as i32,
        ny: n.1 as i32,
        nz: n.2 as i32,
        ao: corner_ao(grid, x, y, z, face, corner) as u32,
    }
}

/// The six vertices, two triangles, of face `face` of a block of kind
/// `block_type` at `(x, y, z)`.
pub open spec fn face_quad(
    grid: Seq<Block>,
    block_type: BlockType,
    x: int,
    y: int,
    z: int,
    face: int,
) -> Seq<Vertex> {
    Seq::new(6, |k: int| face_vertex(grid, block_type, x, y, z, face, triangle_corner(k)))
}

/// Number of (voxel, face) pairs of a chunk.
pub const FACE_SLOTS: usize = 393216;

/// Position of face `face` of voxel `(x, y, z)` in the scan order of the
/// mesher: x outermost, then y, then z, then the face.
pub open spec fn face_slot(x: int, y: int, z: int, face: int) -> int {
    grid_index(x, y, z) * 6 + face
}

/// What the (voxel, face) pair at position `slot` of the scan order adds to
/// the mesh: the six vertices of the face when the voxel is not air and the
/// face is visible, nothing otherwise.
pub open spec fn slot_vertices(
    world: WorldView,
    chunk_x: int,
    chunk_z: int,
    grid: Seq<Block>,
    slot: int,
) -> Seq<Vertex> {
    let cell = slot / 6;
    let face = slot % 6;
    let x = cell / 4096;
    let y = (cell / 16) % 256;
    let z = cell % 16;
    let block_type = grid[cell].block_type;
    if block_type != BlockType::Air && face_visible(
        world,
        chunk_x,
        chunk_z,
        grid,
        x,
        y,
        z,
        face,
        block_type,
    ) {
        face_quad(grid, block_type, x, y, z, face)
    } else {
        Seq::empty()
    }
}

/// The vertices contributed by the first `n` (voxel, face) pairs of the scan
/// order, in that order.
pub open spec fn mesh_prefix(
    world: WorldView,
    chunk_x: int,
    chunk_z: int,
    grid: Seq<Block>,
    n: nat,
) -> Seq<Vertex>
    decreases n,
{
    if n == 0 {
        Seq::empty()
    } else {
        mesh_prefix(world, chunk_x, chunk_z, grid, (n - 1) as nat) + slot_vertices(
            world,
            chunk_x,
            chunk_z,
            grid,
            n - 1,
        )
    }
}

/// The whole mesh of the chunk with grid `grid` at chunk coordinate
/// `(chunk_x, chunk_z)`, seen in `world`.
pub open spec fn chunk_mesh(world: WorldView, chunk_x: int, chunk_z: int, grid: Seq<Block>) -> Seq<
    Vertex,
> {
    mesh_prefix(world, chunk_x, chunk_z, grid, FACE_SLOTS as nat)
}

fn get_face_data(face: usize) -> (data: ([(i32, i32, i32); 4], (i32, i32, i32)))
    requires
        face < 6,
    ensures
        forall|c: int|
            0 <= c < 4 ==> {
                &&& (#[trigger] data.0[c]).0 == face_corner(face as int, c).0
                &&& data.0[c].1 == face_corner(face as int, c).1
                &&& data.0[c].2 == face_corner(face as int, c).2
            },
        data.1.0 == face_offset(face as int).0,
        data.1.1 == face_offset(face as int).1,
        data.1.2 == face_offset(face as int).2,
{
    match face {
        0 => ([(0, 0, 0), (0, 1, 0), (0, 1, 1), (0, 0, 1)], (-1, 0, 0)),
        1 => ([(1, 0, 1), (1, 1, 1), (1, 1, 0), (1, 0, 0)], (1, 0, 0)),
        2 => ([(0, 0, 0), (1, 0, 0), (1, 0, 1), (0, 0, 1)], (0, -1, 0)),
        3 => ([(0, 1, 1), (1, 1, 1), (1, 1, 0), (0, 1, 0)], (0, 1, 0)),
        4 => ([(1, 0, 0), (1, 1, 0), (0, 1, 0), (0, 0, 0)], (0, 0, -1)),
        _ => ([(0, 0, 1), (0, 1, 1), (1, 1, 1), (1, 0, 1)], (0, 0, 1)),
    }
}

/// The three cells sampled for the occlusion of corner `corner`, one of
/// four, of face `face`, one of six: the two edge neighbours, then the
/// diagonal one, as steps from the voxel.
pub fn get_ao_neighbors(face: usize, corner: usize) -> (n: (
    (i32, i32, i32),
    (i32, i32, i32),
    (i32, i32, i32),
))
    requires
        face < 6,
        corner < 4,
    ensures
        n.0.0 == ao_neighbors(face as int, corner as int).0.0,
        n.0.1 == ao_neighbors(face as int, corner as int).0.1,
        n.0.2 == ao_neighbors(face as int, corner as int).0.2,
        n.1.0 == ao_neighbors(face as int, corner as int).1.0,
        n.1.1 == ao_neighbors(face as int, corner as int).1.1,
        n.1.2 == ao_neighbors(face as int, corner as int).1.2,
        n.2.0 == ao_neighbors(face as int, corner as int).2.0,
        n.2.1 == ao_neighbors(face as int, corner as int).2.1,
        n.2.2 == ao_neighbors(face as int, corner as int).2.2,
{
    let (positions, normal) = get_face_data(face);
    let p = positions[corner];
    let sx: i32 = if p.0 > 0 {
        1
    } else {
        -1
    };
    let sy: i32 = if p.1 > 0 {
        1
    } else {
        -1
    };
    let sz: i32 = if p.2 > 0 {
        1
    } else {
        -1
    };
    if normal.0 != 0 {
        ((normal.0, sy, 0), (normal.0, 0, sz), (normal.0, sy, sz))
    } else if normal.1 != 0 {
        ((sx, normal.1, 0), (0, normal.1, sz), (sx, normal.1, sz))
    } else {
        ((sx, 0, normal.2), (0, sy, normal.2), (sx, sy, normal.2))
    }
}

/// Whether `(x, y, z)` is a voxel of `chunk` and holds a solid block.
pub fn is_solid_at(chunk: &Chunk, x: i64, y: i64, z: i64) -> (solid: bool)
    ensures
        solid == solid_in_grid(chunk@, x as int, y as int, z as int),
{
    if x < 0 || x >= 16 || y < 0 || y >= 256 || z < 0 || z >= 16 {
        return false;
    }
    match chunk.get_block(x as usize, y as usize, z as usize) {
        Some(block) => block.is_solid(),
        None => false,
    }
}

/// Occlusion of corner `corner`, one of four, of face `face`, one of six, of
/// the voxel at `(x, y, z)` of `chunk`, in quarters.
pub fn calculate_ao(chunk: &Chunk, x: i32, y: i32, z: i32, face: usize, corner: usize) -> (ao: u32)
    requires
        face < 6,
        corner < 4,
    ensures
        ao == corner_ao(chunk@, x as int, y as int, z as int, face as int, corner as int),
        1 <= ao <= 4,
{
    let (side1, side2, diagonal) = get_ao_neighbors(face, corner);
    let s1 = is_solid_at(
        chunk,
        x as i64 + side1.0 as i64,
        y as i64 + side1.1 as i64,
        z as i64 + side1.2 as i64,
    );
    let s2 = is_solid_at(
        chunk,
        x as i64 + side2.0 as i64,
        y as i64 + side2.1 as i64,
        z as i64 + side2.2 as i64,
    );
    let c = is_solid_at(
        chunk,
        x as i64 + diagonal.0 as i64,
        y as i64 + diagonal.1 as i64,
        z as i64 + diagonal.2 as i64,
    );
    if s1 && s2 {
        1
    } else {
        let mut lit: u32 = 4;
        if s1 {
            lit = lit - 1;
        }
        if s2 {
            lit = lit - 1;
        }
        if c {
            lit = lit - 1;
        }
        lit
    }
}

/// Whether face `face`, one of six, of the block of kind `block_type` at
/// `(x, y, z)` of `chunk` is drawn, given the chunks loaded in `world`.
pub fn should_render_face(
    world: &World,
    chunk: &Chunk,
    x: i32,
    y: i32,
    z: i32,
    face: usize,
    block_type: &BlockType,
) -> (visible: bool)
    requires
        face < 6,
    ensures
        visible == face_visible(
            world@,
            chunk.spec_x() as int,
            chunk.spec_z() as int,
            chunk@,
            x as int,
            y as int,
            z as int,
            face as int,
            *block_type,
        ),
{
    let (dx, dy, dz): (i64, i64, i64) = match face {
        0 => (-1, 0, 0),
        1 => (1, 0, 0),
        2 => (0, -1, 0),
        3 => (0, 1, 0),
        4 => (0, 0, -1),
        _ => (0, 0, 1),
    };
    let nx: i64 = x as i64 + dx;
    let ny: i64 = y as i64 + dy;
    let nz: i64 = z as i64 + dz;
    let n_block = if nx < 0 || nx >= 16 || ny < 0 || ny >= 256 || nz < 0 || nz >= 16 {
        let gx: i64 = chunk.x() as i64 * 16 + nx;
        let gz: i64 = chunk.z() as i64 * 16 + nz;
        match world.block_at(gx, ny, gz) {
            Some(block) => block,
            None => {
                return true;
            },
        }
    } else {
        match chunk.get_block(nx as usize, ny as usize, nz as usize) {
            Some(block) => *block,
            None => {
                return true;
            },
        }
    };
    if *block_type == BlockType::Water {
        if n_block.block_type == BlockType::Water {
            return false;
        }
        return n_block.block_type == BlockType::Air || n_block.block_type == BlockType::Leaves;
    }
    if *block_type == BlockType::Leaves {
        if n_block.block_type == BlockType::Leaves {
            return true;
        }
        return n_block.is_transparent();
    }
    n_block.is_transparent()
}

/// Appends the six vertices of face `face`, one of six, of the block of kind
/// `block_type` at voxel `(bx, by, bz)` of `chunk` to `vertices`.
#[verifier::loop_isolation(false)]
pub fn add_face(
    vertices: &mut Vec<Vertex>,
    face: usize,
    block_type: &BlockType,
    chunk: &Chunk,
    bx: i32,
    by: i32,
    bz: i32,
)
    requires
        in_bounds(bx as int, by as int, bz as int),
        face < 6,
    ensures
        final(vertices)@ == old(vertices)@ + face_quad(
            chunk@,
            *block_type,
            bx as int,
            by as int,
            bz as int,
            face as int,
        ),
{
    let (positions, normal) = get_face_data(face);
    let (u_min, v_min, u_max, v_max) = TextureAtlas::get_uv(block_type, face);
    let ao = [
        calculate_ao(chunk, bx, by, bz, face, 0),
        calculate_ao(chunk, bx, by, bz, face, 1),
        calculate_ao(chunk, bx, by, bz, face, 2),
        calculate_ao(chunk, bx, by, bz, face, 3),
    ];
    let indices: [usize; 6] = [0, 1, 2, 0, 2, 3];
    let uvs = [(u_min, v_max), (u_max, v_max), (u_max, v_min), (u_min, v_min)];
    let ghost quad = face_quad(chunk@, *block_type, bx as int, by as int, bz as int, face as int);
    let mut k: usize = 0;
    while k < 6
        invariant
            k <= 6,
            vertices@ == old(vertices)@ + quad.subrange(0, k as int),
        decreases 6 - k,
    {
        let i = indices[k];
        let pos = positions[i];
        let uv = uvs[i];
        let mut height: i32 = pos.1 * POSITION_SCALE;
        if *block_type == BlockType::Water {
            if face == 3 {
                height = WATER_SURFACE;
            } else if face != 2 {
                if pos.1 > 0 {
                    height = WATER_SURFACE;
                }
            }
        }
        let vertex = Vertex {
            x: bx * POSITION_SCALE + pos.0 * POSITION_SCALE,
            y: by * POSITION_SCALE + height,
            z: bz * POSITION_SCALE + pos.2 * POSITION_SCALE,
            u: uv.0,
            v: uv.1,
            nx: normal.0,
            ny: normal.1,
            nz: normal.2,
            ao: ao[i],
        };
        vertices.push(vertex);
        proof {
            assert(i == triangle_corner(k as int));
            assert(vertex == quad[k as int]);
            assert(quad.subrange(0, k as int + 1) =~= quad.subrange(0, k as int).push(
                quad[k as int],
            ));
        }
        k = k + 1;
    }
    proof {
        assert(quad.subrange(0, 6) =~= quad);
    }
}

/// The scan position of a face determines its voxel and face again.
pub proof fn lemma_face_slot_decodes(x: int, y: int, z: int, face: int)
    requires
        in_bounds(x, y, z),
        0 <= face < 6,
    ensures
        0 <= face_slot(x, y, z, face) < FACE_SLOTS,
        face_slot(x, y, z, face) / 6 == grid_index(x, y, z),
        face_slot(x, y, z, face) % 6 == face,
        grid_index(x, y, z) / 4096 == x,
        (grid_index(x, y, z) / 16) % 256 == y,
        grid_index(x, y, z) % 16 == z,
{
}

/// Extending the scanned part of a chunk by the face `face` of voxel
/// `(x, y, z)` appends the six vertices of that face when the voxel is not air
/// and the face is visible, and nothing otherwise.
pub proof fn lemma_mesh_prefix_step(
    world: WorldView,
    chunk_x: int,
    chunk_z: int,
    grid: Seq<Block>,
    x: int,
    y: int,
    z: int,
    face: int,
)
    requires
        in_bounds(x, y, z),
        0 <= face < 6,
    ensures
        mesh_prefix(world, chunk_x, chunk_z, grid, (face_slot(x, y, z, face) + 1) as nat) == {
            let slot = face_slot(x, y, z, face);
            let before = mesh_prefix(world, chunk_x, chunk_z, grid, slot as nat);
            let block_type = grid[grid_index(x, y, z)].block_type;
            if block_type != BlockType::Air && face_visible(
                world,
                chunk_x,
                chunk_z,
                grid,
                x,
                y,
                z,
                face,
                block_type,
            ) {
                before + face_quad(grid, block_type, x, y, z, face)
            } else {
                before
            }
        },
{
    lemma_face_slot_decodes(x, y, z, face);
    let slot = face_slot(x, y, z, face);
    let before = mesh_prefix(world, chunk_x, chunk_z, grid, slot as nat);
    assert(mesh_prefix(world, chunk_x, chunk_z, grid, (slot + 1) as nat) == before + slot_vertices(
        world,
        chunk_x,
        chunk_z,
        grid,
        slot,
    ));
    assert(before + Seq::<Vertex>::empty() =~= before);
}

/// The first `faces` faces of an air voxel add nothing to the mesh.
proof fn lemma_air_adds_nothing(
    world: WorldView,
    chunk_x: int,
    chunk_z: int,
    grid: Seq<Block>,
    x: int,
    y: int,
    z: int,
    faces: nat,
)
    requires
        in_bounds(x, y, z),
        grid[grid_index(x, y, z)].block_type == BlockType::Air,
        faces <= 6,
    ensures
        mesh_prefix(world, chunk_x, chunk_z, grid, (face_slot(x, y, z, 0) + faces) as nat)
            == mesh_prefix(world, chunk_x, chunk_z, grid, face_slot(x, y, z, 0) as nat),
    decreases faces,
{
    if faces > 0 {
        lemma_air_adds_nothing(world, chunk_x, chunk_z, grid, x, y, z, (faces - 1) as nat);
        lemma_mesh_prefix_step(world, chunk_x, chunk_z, grid, x, y, z, faces - 1);
    }
}

/// No face is drawn towards a neighbour that exists and is not transparent,
/// whatever the kind of the block; in particular none between two adjacent
/// stone voxels.
pub proof fn lemma_opaque_neighbor_hides_face(
    world: WorldView,
    chunk_x: int,
    chunk_z: int,
    grid: Seq<Block>,
    x: int,
    y: int,
    z: int,
    face: int,
    neighbor: Block,
)
    requires
        in_bounds(x, y, z),
        0 <= face < 6,
        neighbor_block(
            world,
            chunk_x,
            chunk_z,
            grid,
            x + face_offset(face).0,
            y + face_offset(face).1,
            z + face_offset(face).2,
        ) == Some(neighbor),
        !neighbor.spec_is_transparent(),
    ensures
        forall|block_type: BlockType|
            !face_visible(world, chunk_x, chunk_z, grid, x, y, z, face, block_type),
        slot_vertices(world, chunk_x, chunk_z, grid, face_slot(x, y, z, face)) == Seq::<
            Vertex,
        >::empty(),
{
    lemma_face_slot_decodes(x, y, z, face);
}

/// Leaves next to leaves do draw the face between them.
pub proof fn lemma_leaves_show_face_to_leaves(
    world: WorldView,
    chunk_x: int,
    chunk_z: int,
    grid: Seq<Block>,
    x: int,
    y: int,
    z: int,
    face: int,
)
    requires
        in_bounds(x, y, z),
        0 <= face < 6,
        grid[grid_index(x, y, z)].block_type == BlockType::Leaves,
        neighbor_block(
            world,
            chunk_x,
            chunk_z,
            grid,
            x + face_offset(face).0,
            y + face_offset(face).1,
            z + face_offset(face).2,
        ) == Some(Block { block_type: BlockType::Leaves }),
    ensures
        face_visible(world, chunk_x, chunk_z, grid, x, y, z, face, BlockType::Leaves),
        slot_vertices(world, chunk_x, chunk_z, grid, face_slot(x, y, z, face)) == face_quad(
            grid,
            BlockType::Leaves,
            x,
            y,
            z,
            face,
        ),
{
    lemma_face_slot_decodes(x, y, z, face);
}

/// Water next to water draws no face between them. Water next to air draws
/// the face, and no vertex of it reaches the full height of the voxel: the
/// top face lies at eight tenths, a side face spans from the bottom to eight
/// tenths, the bottom face lies at the bottom.
pub proof fn lemma_water_faces(
    world: WorldView,
    chunk_x: int,
    chunk_z: int,
    grid: Seq<Block>,
    x: int,
    y: int,
    z: int,
    face: int,
    neighbor: Block,
)
    requires
        in_bounds(x, y, z),
        0 <= face < 6,
        grid[grid_index(x, y, z)].block_type == BlockType::Water,
        neighbor_block(
            world,
            chunk_x,
            chunk_z,
            grid,
            x + face_offset(face).0,
            y + face_offset(face).1,
            z + face_offset(face).2,
        ) == Some(neighbor),
    ensures
        neighbor.block_type == BlockType::Water ==> slot_vertices(
            world,
            chunk_x,
            chunk_z,
            grid,
            face_slot(x, y, z, face),
        ) == Seq::<Vertex>::empty(),
        neighbor.block_type == BlockType::Air ==> slot_vertices(
            world,
            chunk_x,
            chunk_z,
            grid,
            face_slot(x, y, z, face),
        ) == face_quad(grid, BlockType::Water, x, y, z, face),
        forall|k: int|
            0 <= k < 6 ==> {
                let vertex = #[trigger] face_quad(grid, BlockType::Water, x, y, z, face)[k];
                let corner = face_corner(face, triangle_corner(k));
                &&& face == 3 ==> vertex.y == y * POSITION_SCALE + WATER_SURFACE
                &&& face == 2 ==> vertex.y == y * POSITION_SCALE
                &&& face != 2 && face != 3 ==> vertex.y == y * POSITION_SCALE + (if corner.1 > 0 {
                    WATER_SURFACE as int
                } else {
                    0int
                })
            },
{
    lemma_face_slot_decodes(x, y, z, face);
}

impl Mesh {
    /// Wraps a finished vertex list.
    pub fn new(vertices: Vec<Vertex>) -> (mesh: Self)
        ensures
            mesh.vertices@ == vertices@,
    {
        Self { vertices }
    }

    /// Number of vertices of the mesh.
    pub fn vertex_count(&self) -> (count: usize)
        ensures
            count == self.vertices@.len(),
    {
        self.vertices.len()
    }
}

/// Builds the mesh of `chunk`: for every voxel that is not air, in scan
/// order, each of its six faces that is visible given the chunks loaded in
/// `world`.
#[verifier::loop_isolation(false)]
pub fn generate_chunk_mesh(world: &World, chunk: &Chunk) -> (mesh: Mesh)
    ensures
        mesh.vertices@ == chunk_mesh(
            world@,
            chunk.spec_x() as int,
            chunk.spec_z() as int,
            chunk@,
        ),
{
    let mut vertices: Vec<Vertex> = Vec::new();
    let ghost w = world@;
    let ghost cx = chunk.spec_x() as int;
    let ghost cz = chunk.spec_z() as int;
    let ghost g = chunk@;
    let mut x: usize = 0;
    while x < CHUNK_SIZE
        invariant
            x <= 16,
            vertices@ == mesh_prefix(w, cx, cz, g, face_slot(x as int, 0, 0, 0) as nat),
        decreases 16 - x,
    {
        let mut y: usize = 0;
        while y < CHUNK_HEIGHT
            invariant
                y <= 256,
                vertices@ == mesh_prefix(w, cx, cz, g, face_slot(x as int, y as int, 0, 0) as nat),
            decreases 256 - y,
        {
            let mut z: usize = 0;
            while z < CHUNK_SIZE
                invariant
                    z <= 16,
                    vertices@ == mesh_prefix(
                        w,
                        cx,
                        cz,
                        g,
                        face_slot(x as int, y as int, z as int, 0) as nat,
                    ),
                decreases 16 - z,
            {
                let block_type = match chunk.get_block(x, y, z) {
                    Some(block) => block.block_type,
                    None => BlockType::Air,
                };
                if block_type != BlockType::Air {
                    let mut face: usize = 0;
                    while face < 6
                        invariant
                            face <= 6,
                            vertices@ == mesh_prefix(
                                w,
                                cx,
                                cz,
                                g,
                                face_slot(x as int, y as int, z as int, face as int) as nat,
                            ),
                        decreases 6 - face,
                    {
                        proof {
                            lemma_mesh_prefix_step(
                                w,
                                cx,
                                cz,
                                g,
                                x as int,
                                y as int,
                                z as int,
                                face as int,
                            );
                        }
                        if should_render_face(
                            world,
                            chunk,
                            x as i32,
                            y as i32,
                            z as i32,
                            face,
                            &block_type,
                        ) {
                            add_face(
                                &mut vertices,
                                face,
                                &block_type,
                                chunk,
                                x as i32,
                                y as i32,
                                z as i32,
                            );
                        }
                        face = face + 1;
                    }
                } else {
                    proof {
                        lemma_air_adds_nothing(w, cx, cz, g, x as int, y as int, z as int, 6);
                    }
                }
                z = z + 1;
            }
            y = y + 1;
        }
        x = x + 1;
    }
    Mesh::new(vertices)
}

} // verus!
