//! Terrain: the rules that turn the noise sampled over a chunk's columns into
//! the blocks of the chunk.
//!
//! The noise itself is sampled by the caller. This module says where to
//! sample it and what every sample means. Noise values are in millionths:
//! `NOISE_SCALE` stands for a noise value of one. Points of noise space are in
//! thousandths.

use vstd::prelude::*;
use crate::block::{Block, BlockType};
use crate::chunk::{
    CHUNK_HEIGHT, CHUNK_SIZE, Chunk, grid_index, grid_kind, in_bounds, is_grid,
    lemma_grid_set_kinds,
};

verus! {

/// The integer that stands for a noise value of one.
pub const NOISE_SCALE: i64 = 1_000_000;

/// Height below which an empty voxel holds water.
pub const SEA_LEVEL: usize = 60;

/// Trees grow only where the surface is higher than this.
pub const TREE_LINE: usize = 62;

/// Trees grow only where the tree channel exceeds this: seven tenths.
pub const TREE_THRESHOLD: i32 = 700_000;

/// Height of a tree trunk.
pub const TRUNK_HEIGHT: usize = 5;

/// The noise sampled for one column, in millionths: the height channel at
/// its base frequency, at twice and at four times that frequency, and the
/// tree channel, a noise of its own that shares nothing with the heights.
#[derive(Clone, Copy, Debug, PartialEq, Eq, Structural)]
pub struct ColumnNoise {
    pub octave1: i32,
    pub octave2: i32,
    pub octave3: i32,
    pub tree: i32,
}

/// The points of noise space, in thousandths, at which the noise of one
/// column is sampled.
#[derive(Clone, Copy, Debug, PartialEq, Eq)]
pub struct NoisePoints {
    pub octave1: (i64, i64),
    pub octave2: (i64, i64),
    pub octave3: (i64, i64),
    pub tree: (i64, i64),
}

/// Where the noise of the column at global `(world_x, world_z)` is sampled:
/// the height channel at `0.01`, `0.02` and `0.04` times the coordinate, the
/// tree channel at `0.1` times the coordinate.
pub fn noise_points(world_x: i32, world_z: i32) -> (points: NoisePoints)
    ensures
        points.octave1.0 == world_x * 10 && points.octave1.1 == world_z * 10,
        points.octave2.0 == world_x * 20 && points.octave2.1 == world_z * 20,
        points.octave3.0 == world_x * 40 && points.octave3.1 == world_z * 40,
        points.tree.0 == world_x * 100 && points.tree.1 == world_z * 100,
{
    let x: i64 = world_x as i64;
    let z: i64 = world_z as i64;
    NoisePoints {
        octave1: (x * 10, z * 10),
        octave2: (x * 20, z * 20),
        octave3: (x * 40, z * 40),
        tree: (x * 100, z * 100),
    }
}

/// Height of the surface of a column: `70 + 30 a + 15 b + 7 c` for the three
/// octaves `a`, `b`, `c` of the height channel, rounded down and held within
/// `[1, 255]`.
pub open spec fn surface_height(noise: ColumnNoise) -> int {
    let raw = (70 * NOISE_SCALE + 30 * noise.octave1 + 15 * noise.octave2 + 7 * noise.octave3) / (
    NOISE_SCALE as int);
    if raw < 1 {
        1
    } else if raw > 255 {
        255
    } else {
        raw
    }
}

/// The block at height `y` of a bare column whose surface is at `height`:
/// grass on top, three layers of dirt under it, stone below; above the
/// surface water up to sea level, then air.
pub open spec fn column_block(height: int, y: int) -> BlockType {
    if y < height {
        if y < height - 4 {
            BlockType::Stone
        } else if y < height - 1 {
            BlockType::Dirt
        } else {
            BlockType::Grass
        }
    } else if y < SEA_LEVEL {
        BlockType::Water
    } else {
        BlockType::Air
    }
}

/// Whether a tree grows on a column: its surface lies above the tree line and
/// its tree channel exceeds the threshold.
pub open spec fn has_tree(noise: ColumnNoise) -> bool {
    surface_height(noise) > TREE_LINE && noise.tree > TREE_THRESHOLD
}

/// Whether `(x, y, z)` belongs to the trunk of a tree rooted at
/// `(tx, base, tz)`: five voxels straight up from the root.
pub open spec fn in_trunk(tx: int, base: int, tz: int, x: int, y: int, z: int) -> bool {
    x == tx && z == tz && base <= y < base + TRUNK_HEIGHT
}

/// Whether `(x, y, z)` belongs to the canopy of a tree rooted at
/// `(tx, base, tz)`: the cells of the 5 x 3 x 5 box that starts five above
/// the root whose distance from the trunk, sideways plus upwards, is at most
/// three.
pub open spec fn in_canopy(tx: int, base: int, tz: int, x: int, y: int, z: int) -> bool {
    let dx = x - tx;
    let dz = z - tz;
    let dy = y - (base + TRUNK_HEIGHT);
    &&& -2 <= dx <= 2
    &&& -2 <= dz <= 2
    &&& 0 <= dy <= 2
    &&& (if dx < 0 {
        -dx
    } else {
        dx
    }) + (if dz < 0 {
        -dz
    } else {
        dz
    }) + dy <= 3
}

/// The kind at `(x, y, z)` after a tree rooted at `(tx, base, tz)` has been
/// set over a voxel of kind `before`: leaves in the canopy, oak in the trunk,
/// the voxel as it was elsewhere.
pub open spec fn tree_block(
    before: BlockType,
    tx: int,
    base: int,
    tz: int,
    x: int,
    y: int,
    z: int,
) -> BlockType {
    if in_canopy(tx, base, tz, x, y, z) {
        BlockType::Leaves
    } else if in_trunk(tx, base, tz, x, y, z) {
        BlockType::OakLog
    } else {
        before
    }
}

/// Height of the surface of a column.
pub fn get_height(noise: &ColumnNoise) -> (height: usize)
    ensures
        height == surface_height(*noise),
        1 <= height <= 255,
{
    let total: i64 = 70 * NOISE_SCALE + 30 * (noise.octave1 as i64) + 15 * (noise.octave2 as i64)
        + 7 * (noise.octave3 as i64);
    let raw: i64 = if total >= 0 {
        total / NOISE_SCALE
    } else {
        (total + 1) / NOISE_SCALE - 1
    };
    if raw < 1 {
        1
    } else if raw > 255 {
        255
    } else {
        raw as usize
    }
}

/// Whether the tree channel of a column calls for a tree.
pub fn should_place_tree(noise: &ColumnNoise) -> (place: bool)
    ensures
        place == (noise.tree > TREE_THRESHOLD),
{
    noise.tree > TREE_THRESHOLD
}

/// The block at height `y` of a bare column whose surface is at `height`.
pub fn column_block_at(height: usize, y: usize) -> (block_type: BlockType)
    ensures
        block_type == column_block(height as int, y as int),
{
    if y < height {
        if height >= 4 && y < height - 4 {
            BlockType::Stone
        } else if y < height - 1 {
            BlockType::Dirt
        } else {
            BlockType::Grass
        }
    } else if y < SEA_LEVEL {
        BlockType::Water
    } else {
        BlockType::Air
    }
}

/// Fills the column at local `(x, z)` of `chunk` as a bare column whose
/// surface is at `height`.
#[verifier::loop_isolation(false)]
fn fill_column(chunk: &mut Chunk, x: usize, z: usize, height: usize)
    requires
        x < 16,
        z < 16,
    ensures
        final(chunk).spec_x() == old(chunk).spec_x(),
        final(chunk).spec_z() == old(chunk).spec_z(),
        forall|cx: int, cy: int, cz: int|
            in_bounds(cx, cy, cz) ==> #[trigger] grid_kind(final(chunk)@, cx, cy, cz) == (if cx == x
                && cz == z {
                column_block(height as int, cy)
            } else {
                grid_kind(old(chunk)@, cx, cy, cz)
            }),
{
    let mut y: usize = 0;
    while y < CHUNK_HEIGHT
        invariant
            y <= CHUNK_HEIGHT,
            chunk.spec_x() == old(chunk).spec_x(),
            chunk.spec_z() == old(chunk).spec_z(),
            forall|cx: int, cy: int, cz: int|
                in_bounds(cx, cy, cz) ==> #[trigger] grid_kind(chunk@, cx, cy, cz) == (if cx == x
                    && cz == z && cy < y {
                    column_block(height as int, cy)
                } else {
                    grid_kind(old(chunk)@, cx, cy, cz)
                }),
        decreases CHUNK_HEIGHT - y,
    {
        let block_type = column_block_at(height, y);
        proof {
            chunk.lemma_view_is_grid();
            lemma_grid_set_kinds(chunk@, x as int, y as int, z as int, block_type);
        }
        chunk.set_block(x, y, z, block_type);
        y = y + 1;
    }
}

/// Whether `(x, y, z)` belongs to the part of the canopy of a tree rooted at
/// `(tx, base, tz)` that is set before the scan of the canopy box reaches the
/// step `(dx, dz, dy)` from its centre line. The scan runs over x outermost,
/// then z, then y.
spec fn canopy_set_before(
    tx: int,
    base: int,
    tz: int,
    dx: int,
    dz: int,
    dy: int,
    x: int,
    y: int,
    z: int,
) -> bool {
    &&& in_canopy(tx, base, tz, x, y, z)
    &&& x - tx < dx || (x - tx == dx && (z - tz < dz || (z - tz == dz && y - (base + TRUNK_HEIGHT)
        < dy)))
}

/// Sets the trunk of a tree rooted at `(x, base_y, z)` into `chunk`, as far
/// as it lies inside the chunk.
#[verifier::loop_isolation(false)]
fn add_trunk(chunk: &mut Chunk, x: usize, base_y: usize, z: usize)
    ensures
        final(chunk).spec_x() == old(chunk).spec_x(),
        final(chunk).spec_z() == old(chunk).spec_z(),
        forall|cx: int, cy: int, cz: int|
            in_bounds(cx, cy, cz) ==> #[trigger] grid_kind(final(chunk)@, cx, cy, cz) == (
            if in_trunk(x as int, base_y as int, z as int, cx, cy, cz) {
                BlockType::OakLog
            } else {
                grid_kind(old(chunk)@, cx, cy, cz)
            }),
{
    if x >= CHUNK_SIZE || z >= CHUNK_SIZE || base_y >= CHUNK_HEIGHT {
        return;
    }
    let mut y: usize = 0;
    while y < TRUNK_HEIGHT
        invariant
            y <= TRUNK_HEIGHT,
            chunk.spec_x() == old(chunk).spec_x(),
            chunk.spec_z() == old(chunk).spec_z(),
            forall|cx: int, cy: int, cz: int|
                in_bounds(cx, cy, cz) ==> #[trigger] grid_kind(chunk@, cx, cy, cz) == (if cx == x
                    && cz == z && base_y <= cy < base_y + y {
                    BlockType::OakLog
                } else {
                    grid_kind(old(chunk)@, cx, cy, cz)
                }),
        decreases TRUNK_HEIGHT - y,
    {
        if base_y + y < CHUNK_HEIGHT {
            proof {
                chunk.lemma_view_is_grid();
                lemma_grid_set_kinds(chunk@, x as int, base_y + y, z as int, BlockType::OakLog);
            }
            chunk.set_block(x, base_y + y, z, BlockType::OakLog);
        }
        y = y + 1;
    }
}

/// Sets the canopy of a tree rooted at `(x, base_y, z)` into `chunk`, as far
/// as it lies inside the chunk. The root itself may stand up to two columns
/// outside the chunk.
#[verifier::loop_isolation(false)]
fn add_canopy(chunk: &mut Chunk, x: usize, base_y: usize, z: usize)
    ensures
        final(chunk).spec_x() == old(chunk).spec_x(),
        final(chunk).spec_z() == old(chunk).spec_z(),
        forall|cx: int, cy: int, cz: int|
            in_bounds(cx, cy, cz) ==> #[trigger] grid_kind(final(chunk)@, cx, cy, cz) == (
            if in_canopy(x as int, base_y as int, z as int, cx, cy, cz) {
                BlockType::Leaves
            } else {
                grid_kind(old(chunk)@, cx, cy, cz)
            }),
{
    if x > 17 || z > 17 || base_y > 255 {
        return;
    }
    let ghost tx = x as int;
    let ghost base = base_y as int;
    let ghost tz = z as int;
    let leaf_y: i64 = base_y as i64 + TRUNK_HEIGHT as i64;
    let mut dx: i64 = -2;
    while dx <= 2
        invariant
            -2 <= dx <= 3,
            chunk.spec_x() == old(chunk).spec_x(),
            chunk.spec_z() == old(chunk).spec_z(),
            forall|cx: int, cy: int, cz: int|
                in_bounds(cx, cy, cz) ==> #[trigger] grid_kind(chunk@, cx, cy, cz) == (
                if canopy_set_before(tx, base, tz, dx as int, -2, 0, cx, cy, cz) {
                    BlockType::Leaves
                } else {
                    grid_kind(old(chunk)@, cx, cy, cz)
                }),
        decreases 3 - dx,
    {
        let mut dz: i64 = -2;
        while dz <= 2
            invariant
                -2 <= dz <= 3,
                chunk.spec_x() == old(chunk).spec_x(),
                chunk.spec_z() == old(chunk).spec_z(),
                forall|cx: int, cy: int, cz: int|
                    in_bounds(cx, cy, cz) ==> #[trigger] grid_kind(chunk@, cx, cy, cz) == (
                    if canopy_set_before(tx, base, tz, dx as int, dz as int, 0, cx, cy, cz) {
                        BlockType::Leaves
                    } else {
                        grid_kind(old(chunk)@, cx, cy, cz)
                    }),
            decreases 3 - dz,
        {
            let mut dy: i64 = 0;
            while dy <= 2
                invariant
                    0 <= dy <= 3,
                    chunk.spec_x() == old(chunk).spec_x(),
                    chunk.spec_z() == old(chunk).spec_z(),
                    forall|cx: int, cy: int, cz: int|
                        in_bounds(cx, cy, cz) ==> #[trigger] grid_kind(chunk@, cx, cy, cz) == (
                        if canopy_set_before(
                            tx,
                            base,
                            tz,
                            dx as int,
                            dz as int,
                            dy as int,
                            cx,
                            cy,
                            cz,
                        ) {
                            BlockType::Leaves
                        } else {
                            grid_kind(old(chunk)@, cx, cy, cz)
                        }),
                decreases 3 - dy,
            {
                let spread = (if dx < 0 {
                    -dx
                } else {
                    dx
                }) + (if dz < 0 {
                    -dz
                } else {
                    dz
                }) + dy;
                if spread <= 3 {
                    let lx = x as i64 + dx;
                    let lz = z as i64 + dz;
                    let ly = leaf_y + dy;
                    if lx >= 0 && lx < CHUNK_SIZE as i64 && lz >= 0 && lz < CHUNK_SIZE as i64 && ly
                        < CHUNK_HEIGHT as i64 {
                        proof {
                            chunk.lemma_view_is_grid();
                            lemma_grid_set_kinds(
                                chunk@,
                                lx as int,
                                ly as int,
                                lz as int,
                                BlockType::Leaves,
                            );
                        }
                        chunk.set_block(lx as usize, ly as usize, lz as usize, BlockType::Leaves);
                    }
                }
                dy = dy + 1;
            }
            dz = dz + 1;
        }
        dx = dx + 1;
    }
}

/// Sets a tree rooted at `(x, base_y, z)` into `chunk`: first the trunk,
/// then the canopy over it. Whatever part of the tree falls outside the chunk
/// is left out.
pub fn add_tree(chunk: &mut Chunk, x: usize, base_y: usize, z: usize)
    ensures
        final(chunk).spec_x() == old(chunk).spec_x(),
        final(chunk).spec_z() == old(chunk).spec_z(),
        forall|cx: int, cy: int, cz: int|
            in_bounds(cx, cy, cz) ==> #[trigger] grid_kind(final(chunk)@, cx, cy, cz) == tree_block(
                grid_kind(old(chunk)@, cx, cy, cz),
                x as int,
                base_y as int,
                z as int,
                cx,
                cy,
                cz,
            ),
{
    add_trunk(chunk, x, base_y, z);
    add_canopy(chunk, x, base_y, z);
}

/// The noise of every column of a chunk, indexed by local x, then local z.
pub type NoiseField = [[ColumnNoise; 16]; 16];

/// Position of the column at local `(x, z)` when the columns of a chunk are
/// counted x outermost.
pub open spec fn column_order(x: int, z: int) -> int {
    x * 16 + z
}

/// Whether the column at position `t` of the column order grows a tree whose
/// canopy holds `(x, y, z)`.
pub open spec fn canopy_from(noise: NoiseField, t: int, x: int, y: int, z: int) -> bool {
    let column = noise[t / 16][t % 16];
    has_tree(column) && in_canopy(t / 16, surface_height(column), t % 16, x, y, z)
}

/// Whether `(x, y, z)` lies in the canopy of a tree that grows on one of the
/// first `upto` columns of the chunk.
pub open spec fn canopy_covers(noise: NoiseField, upto: int, x: int, y: int, z: int) -> bool {
    exists|t: int| 0 <= t < upto && #[trigger] canopy_from(noise, t, x, y, z)
}

/// The kind at `(x, y, z)` before any canopy is set: oak in the trunk of the
/// tree on the voxel's own column, otherwise what the bare column holds at
/// that height.
pub open spec fn trunk_or_column(noise: NoiseField, x: int, y: int, z: int) -> BlockType {
    let column = noise[x][z];
    let height = surface_height(column);
    if has_tree(column) && in_trunk(x, height, z, x, y, z) {
        BlockType::OakLog
    } else {
        column_block(height, y)
    }
}

/// The kind at `(x, y, z)` once the canopies of the trees on the first `upto`
/// columns have been set.
pub open spec fn terrain_block_upto(
    noise: NoiseField,
    upto: int,
    x: int,
    y: int,
    z: int,
) -> BlockType {
    if canopy_covers(noise, upto, x, y, z) {
        BlockType::Leaves
    } else {
        trunk_or_column(noise, x, y, z)
    }
}

/// The kind at voxel `(x, y, z)` of the chunk generated from `noise`: leaves
/// wherever the canopy of any tree of the chunk holds the voxel; otherwise
/// oak in the trunk of the tree on the voxel's own column; otherwise what the
/// bare column holds at that height. A canopy is whole on every side of its
/// trunk, cut off only at the edge of the chunk, and leaves win over whatever
/// they meet: ground that rises into a canopy and the trunk of a neighbouring
/// tree alike.
pub open spec fn terrain_block(noise: NoiseField, x: int, y: int, z: int) -> BlockType {
    terrain_block_upto(noise, 256, x, y, z)
}

/// A tree that grows on a column of the chunk has its whole canopy in leaves,
/// as far as the canopy lies inside the chunk.
pub proof fn lemma_canopy_is_whole(noise: NoiseField, tx: int, tz: int, x: int, y: int, z: int)
    requires
        0 <= tx < 16,
        0 <= tz < 16,
        has_tree(noise[tx][tz]),
        in_canopy(tx, surface_height(noise[tx][tz]), tz, x, y, z),
    ensures
        terrain_block(noise, x, y, z) == BlockType::Leaves,
{
    assert(canopy_from(noise, column_order(tx, tz), x, y, z));
}

/// A voxel that no canopy of the chunk holds is oak in the trunk on its own
/// column and the bare column's block elsewhere.
pub proof fn lemma_outside_every_canopy(noise: NoiseField, x: int, y: int, z: int)
    requires
        forall|tx: int, tz: int|
            0 <= tx < 16 && 0 <= tz < 16 && has_tree(#[trigger] noise[tx][tz]) ==> !in_canopy(
                tx,
                surface_height(noise[tx][tz]),
                tz,
                x,
                y,
                z,
            ),
    ensures
        terrain_block(noise, x, y, z) == trunk_or_column(noise, x, y, z),
{
    assert forall|t: int| 0 <= t < 256 implies !#[trigger] canopy_from(noise, t, x, y, z) by {
        let column = noise[t / 16][t % 16];
        if has_tree(column) {
            assert(!in_canopy(t / 16, surface_height(column), t % 16, x, y, z));
        }
    }
}

/// Whether `grid` is the grid of the chunk generated from `noise`.
pub open spec fn is_generated(noise: NoiseField, grid: Seq<Block>) -> bool {
    &&& is_grid(grid)
    &&& forall|x: int, y: int, z: int|
        in_bounds(x, y, z) ==> #[trigger] grid_kind(grid, x, y, z) == terrain_block(noise, x, y, z)
}

/// Generation is a function of the noise alone: two chunks generated from the
/// same noise hold the same block in every voxel.
pub proof fn lemma_generation_is_deterministic(noise: NoiseField, a: Seq<Block>, b: Seq<Block>)
    requires
        is_generated(noise, a),
        is_generated(noise, b),
    ensures
        a == b,
{
    assert forall|i: int| 0 <= i < 65536 implies a[i] == b[i] by {
        let x = i / 4096;
        let y = (i / 16) % 256;
        let z = i % 16;
        assert(in_bounds(x, y, z));
        assert(grid_index(x, y, z) == i);
        assert(grid_kind(a, x, y, z) == grid_kind(b, x, y, z));
    }
    assert(a =~= b);
}

/// Generates the chunk at chunk coordinate `(chunk_x, chunk_z)` from the
/// noise sampled over its columns: first every column with the trunk of its
/// tree, then the canopy of every tree.
#[verifier::loop_isolation(false)]
pub fn generate_chunk(chunk_x: i32, chunk_z: i32, noise: &NoiseField) -> (chunk: Chunk)
    ensures
        chunk.spec_x() == chunk_x,
        chunk.spec_z() == chunk_z,
        is_generated(*noise, chunk@),
{
    let mut chunk = Chunk::new(chunk_x, chunk_z);
    let mut x: usize = 0;
    while x < CHUNK_SIZE
        invariant
            x <= CHUNK_SIZE,
            chunk.spec_x() == chunk_x,
            chunk.spec_z() == chunk_z,
            forall|cx: int, cy: int, cz: int|
                in_bounds(cx, cy, cz) && column_order(cx, cz) < column_order(x as int, 0)
                    ==> #[trigger] grid_kind(chunk@, cx, cy, cz) == trunk_or_column(
                    *noise,
                    cx,
                    cy,
                    cz,
                ),
        decreases CHUNK_SIZE - x,
    {
        let mut z: usize = 0;
        while z < CHUNK_SIZE
            invariant
                z <= CHUNK_SIZE,
                chunk.spec_x() == chunk_x,
                chunk.spec_z() == chunk_z,
                forall|cx: int, cy: int, cz: int|
                    in_bounds(cx, cy, cz) && column_order(cx, cz) < column_order(x as int, z as int)
                        ==> #[trigger] grid_kind(chunk@, cx, cy, cz) == trunk_or_column(
                        *noise,
                        cx,
                        cy,
                        cz,
                    ),
            decreases CHUNK_SIZE - z,
        {
            let column = &noise[x][z];
            let height = get_height(column);
            fill_column(&mut chunk, x, z, height);
            if height > TREE_LINE && should_place_tree(column) {
                add_trunk(&mut chunk, x, height, z);
            }
            z = z + 1;
        }
        x = x + 1;
    }
    let mut x: usize = 0;
    while x < CHUNK_SIZE
        invariant
            x <= CHUNK_SIZE,
            chunk.spec_x() == chunk_x,
            chunk.spec_z() == chunk_z,
            forall|cx: int, cy: int, cz: int|
                in_bounds(cx, cy, cz) ==> #[trigger] grid_kind(chunk@, cx, cy, cz)
                    == terrain_block_upto(*noise, column_order(x as int, 0), cx, cy, cz),
        decreases CHUNK_SIZE - x,
    {
        let mut z: usize = 0;
        while z < CHUNK_SIZE
            invariant
                z <= CHUNK_SIZE,
                chunk.spec_x() == chunk_x,
                chunk.spec_z() == chunk_z,
                forall|cx: int, cy: int, cz: int|
                    in_bounds(cx, cy, cz) ==> #[trigger] grid_kind(chunk@, cx, cy, cz)
                        == terrain_block_upto(
                        *noise,
                        column_order(x as int, z as int),
                        cx,
                        cy,
                        cz,
                    ),
            decreases CHUNK_SIZE - z,
        {
            let column = &noise[x][z];
            let height = get_height(column);
            let planted = height > TREE_LINE && should_place_tree(column);
            if planted {
                add_canopy(&mut chunk, x, height, z);
            }
            proof {
                let t = column_order(x as int, z as int);
                assert forall|cx: int, cy: int, cz: int| in_bounds(cx, cy, cz) implies #[trigger]
                    grid_kind(chunk@, cx, cy, cz) == terrain_block_upto(
                    *noise,
                    t + 1,
                    cx,
                    cy,
                    cz,
                ) by {
                    // The only canopy that can newly hold the voxel is that of this column.
                    let covered = canopy_from(*noise, t, cx, cy, cz);
                    assert(covered == (planted && in_canopy(
                        x as int,
                        height as int,
                        z as int,
                        cx,
                        cy,
                        cz,
                    )));
                    assert(canopy_covers(*noise, t + 1, cx, cy, cz) == (canopy_covers(
                        *noise,
                        t,
                        cx,
                        cy,
                        cz,
                    ) || covered));
                }
            }
            z = z + 1;
        }
        x = x + 1;
    }
    proof {
        chunk.lemma_view_is_grid();
    }
    chunk
}

} // verus!
