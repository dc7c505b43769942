//! The world: every loaded chunk, keyed by chunk coordinate, and the mapping
//! from global voxel coordinates to a chunk and a voxel inside it.

use std::collections::HashMap;
use vstd::prelude::*;
use crate::block::{Block, BlockType};
use crate::chunk::{CHUNK_HEIGHT, CHUNK_SIZE, Chunk, grid_get, grid_set, is_grid};

verus! {

broadcast use vstd::std_specs::hash::group_hash_axioms;

/// The mathematical content of a world: the grid of each loaded chunk, by
/// chunk coordinate.
pub type WorldView = Map<(int, int), Seq<Block>>;

/// Whether `(cx, cz)` is a chunk coordinate that a world can hold: one whose
/// voxels all have global coordinates that fit in an `i32`.
pub open spec fn is_chunk_coord(cx: int, cz: int) -> bool {
    -0x800_0000 <= cx < 0x800_0000 && -0x800_0000 <= cz < 0x800_0000
}

/// The chunk coordinate that owns global coordinate `v` along one axis: floor
/// division by the chunk size.
pub open spec fn chunk_of(v: int) -> int {
    v / 16
}

/// The position of global coordinate `v` inside its chunk along one axis: the
/// never-negative remainder of division by the chunk size.
pub open spec fn local_of(v: int) -> int {
    v % 16
}

/// The block at global coordinate `(x, y, z)`: nothing when `y` is outside
/// the chunk height or the owning chunk is not loaded.
pub open spec fn world_block(world: WorldView, x: int, y: int, z: int) -> Option<Block> {
    if 0 <= y < CHUNK_HEIGHT && world.contains_key((chunk_of(x), chunk_of(z))) {
        grid_get(world[(chunk_of(x), chunk_of(z))], local_of(x), y, local_of(z))
    } else {
        None
    }
}

/// `world` after writing `block_type` at global coordinate `(x, y, z)`: the
/// same world when `y` is outside the chunk height or the owning chunk is not
/// loaded.
pub open spec fn world_set_block(
    world: WorldView,
    x: int,
    y: int,
    z: int,
    block_type: BlockType,
) -> WorldView {
    if 0 <= y < CHUNK_HEIGHT && world.contains_key((chunk_of(x), chunk_of(z))) {
        world.insert(
            (chunk_of(x), chunk_of(z)),
            grid_set(world[(chunk_of(x), chunk_of(z))], local_of(x), y, local_of(z), block_type),
        )
    } else {
        world
    }
}

/// Whether the block at global coordinate `(x, y, z)` exists and is solid.
pub open spec fn world_solid(world: WorldView, x: int, y: int, z: int) -> bool {
    match world_block(world, x, y, z) {
        Some(block) => block.spec_is_solid(),
        None => false,
    }
}

/// Whether `y` is the height of the highest solid block of the column at
/// global `(x, z)`.
pub open spec fn is_column_top(world: WorldView, x: int, y: int, z: int) -> bool {
    &&& world_solid(world, x, y, z)
    &&& forall|above: int| y < above ==> !#[trigger] world_solid(world, x, above, z)
}

/// Whether every grid held by `world` is a full chunk grid.
pub open spec fn is_world(world: WorldView) -> bool {
    forall|c: (int, int)| #[trigger] world.contains_key(c) ==> is_grid(world[c])
}

/// Splitting a global coordinate into chunk and local part loses nothing:
/// `chunk * 16 + local` is the coordinate again, and the local part lies in
/// `[0, 16)`, for negative coordinates too.
pub proof fn lemma_chunk_local_round_trip(v: int)
    ensures
        chunk_of(v) * CHUNK_SIZE + local_of(v) == v,
        0 <= local_of(v) < CHUNK_SIZE,
{
}

/// Reading back a voxel that was just written yields the written kind,
/// provided the voxel lies in a loaded chunk and inside the chunk height;
/// every other voxel reads as before. A write outside the chunk height or into
/// a chunk that is not loaded leaves the world as it was.
pub proof fn lemma_world_set_get(
    world: WorldView,
    x: int,
    y: int,
    z: int,
    block_type: BlockType,
    ox: int,
    oy: int,
    oz: int,
)
    requires
        is_world(world),
    ensures
        is_world(world_set_block(world, x, y, z, block_type)),
        world_set_block(world, x, y, z, block_type).dom() == world.dom(),
        world_block(world, x, y, z) is Some ==> world_block(
            world_set_block(world, x, y, z, block_type),
            x,
            y,
            z,
        ) == Some(Block { block_type }),
        (ox != x || oy != y || oz != z) ==> world_block(
            world_set_block(world, x, y, z, block_type),
            ox,
            oy,
            oz,
        ) == world_block(world, ox, oy, oz),
        world_block(world, x, y, z) is None ==> world_set_block(world, x, y, z, block_type)
            == world,
{
    let after = world_set_block(world, x, y, z, block_type);
    let c = (chunk_of(x), chunk_of(z));
    lemma_chunk_local_round_trip(x);
    lemma_chunk_local_round_trip(z);
    lemma_chunk_local_round_trip(ox);
    lemma_chunk_local_round_trip(oz);
    if 0 <= y < CHUNK_HEIGHT && world.contains_key(c) {
        crate::chunk::lemma_grid_set_get(
            world[c],
            local_of(x),
            y,
            local_of(z),
            block_type,
            local_of(ox),
            oy,
            local_of(oz),
        );
        assert(after.dom() =~= world.dom());
        assert forall|k: (int, int)| #[trigger] after.contains_key(k) implies is_grid(after[k]) by {
            if k != c {
                assert(world.contains_key(k));
            }
        }
    }
}

/// Key under which the chunk at `(cx, cz)` is stored: both coordinates shifted
/// to be non-negative and laid side by side.
spec fn chunk_key(cx: int, cz: int) -> int {
    (cx + 0x8000_0000) * 0x1_0000_0000 + (cz + 0x8000_0000)
}

fn key_of(cx: i32, cz: i32) -> (key: u64)
    ensures
        key == chunk_key(cx as int, cz as int),
{
    let hi: u64 = (cx as i64 + 0x8000_0000) as u64;
    let lo: u64 = (cz as i64 + 0x8000_0000) as u64;
    hi * 0x1_0000_0000 + lo
}

/// All loaded chunks. A chunk is either absent or present as a whole.
pub struct World {
    chunks: HashMap<u64, Chunk>,
}

impl World {
    #[verifier::type_invariant]
    spec fn keyed_by_coordinate(&self) -> bool {
        forall|k: u64| #[trigger]
            self.chunks@.contains_key(k) ==> {
                &&& is_chunk_coord(
                    self.chunks@[k].spec_x() as int,
                    self.chunks@[k].spec_z() as int,
                )
                &&& k == chunk_key(self.chunks@[k].spec_x() as int, self.chunks@[k].spec_z() as int)
            }
    }

    /// The grid of each loaded chunk, by chunk coordinate.
    pub closed spec fn view(&self) -> WorldView {
        Map::new(
            |c: (int, int)|
                is_chunk_coord(c.0, c.1) && self.chunks@.contains_key(chunk_key(c.0, c.1) as u64),
            |c: (int, int)| self.chunks@[chunk_key(c.0, c.1) as u64]@,
        )
    }

    /// Every loaded chunk has a valid chunk coordinate and a full grid.
    pub proof fn lemma_view_is_world(&self)
        ensures
            is_world(self@),
            forall|c: (int, int)| #[trigger] self@.contains_key(c) ==> is_chunk_coord(c.0, c.1),
    {
        assert forall|c: (int, int)| #[trigger] self@.contains_key(c) implies is_grid(self@[c]) by {
            self.chunks@[chunk_key(c.0, c.1) as u64].lemma_view_is_grid();
        }
    }

    /// A voxel that holds a block has global coordinates that fit in an
    /// `i32` and a height inside the chunk.
    pub proof fn lemma_block_coordinates(&self, x: int, y: int, z: int)
        requires
            world_block(self@, x, y, z) is Some,
        ensures
            i32::MIN <= x <= i32::MAX,
            0 <= y < CHUNK_HEIGHT,
            i32::MIN <= z <= i32::MAX,
    {
        self.lemma_view_is_world();
        assert(self@.contains_key((chunk_of(x), chunk_of(z))));
    }

    /// Creates a world with no chunk loaded.
    pub fn new() -> (world: Self)
        ensures
            world@ == Map::<(int, int), Seq<Block>>::empty(),
    {
        let world = Self { chunks: HashMap::new() };
        assert(world@ =~= Map::<(int, int), Seq<Block>>::empty());
        world
    }

    /// Splits global `(world_x, world_z)` into the owning chunk coordinate and
    /// the position inside that chunk.
    pub fn world_to_chunk_coords(world_x: i32, world_z: i32) -> (r: ((i32, i32), (usize, usize)))
        ensures
            r.0.0 == chunk_of(world_x as int),
            r.0.1 == chunk_of(world_z as int),
            r.1.0 == local_of(world_x as int),
            r.1.1 == local_of(world_z as int),
            r.0.0 * CHUNK_SIZE + r.1.0 == world_x,
            r.0.1 * CHUNK_SIZE + r.1.1 == world_z,
            r.1.0 < CHUNK_SIZE,
            r.1.1 < CHUNK_SIZE,
    {
        let chunk_x = if world_x >= 0 {
            world_x / 16
        } else {
            (world_x + 1) / 16 - 1
        };
        let chunk_z = if world_z >= 0 {
            world_z / 16
        } else {
            (world_z + 1) / 16 - 1
        };
        let local_x = (world_x as i64 - chunk_x as i64 * 16) as usize;
        let local_z = (world_z as i64 - chunk_z as i64 * 16) as usize;
        ((chunk_x, chunk_z), (local_x, local_z))
    }

    /// Loads `chunk` under its own chunk coordinate, replacing a chunk already
    /// loaded there, and reports whether it did. A chunk whose coordinate the
    /// world cannot hold is dropped and the world stays as it was.
    pub fn insert_chunk(&mut self, chunk: Chunk) -> (loaded: bool)
        ensures
            loaded == is_chunk_coord(chunk.spec_x() as int, chunk.spec_z() as int),
            loaded ==> final(self)@ == old(self)@.insert(
                (chunk.spec_x() as int, chunk.spec_z() as int),
                chunk@,
            ),
            !loaded ==> final(self)@ == old(self)@,
    {
        proof {
            use_type_invariant(&*self);
        }
        let cx = chunk.x();
        let cz = chunk.z();
        if cx < -0x800_0000 || cx >= 0x800_0000 || cz < -0x800_0000 || cz >= 0x800_0000 {
            return false;
        }
        let key = key_of(cx, cz);
        // The map is taken out while it changes and put back when it is whole again.
        let mut chunks = HashMap::new();
        std::mem::swap(&mut chunks, &mut self.chunks);
        chunks.insert(key, chunk);
        self.chunks = chunks;
        assert(self@ =~= old(self)@.insert((chunk.spec_x() as int, chunk.spec_z() as int), chunk@));
        true
    }

    /// The chunk loaded at chunk coordinate `(chunk_x, chunk_z)`, if any.
    pub fn get_chunk_ref(&self, chunk_x: i32, chunk_z: i32) -> (chunk: Option<&Chunk>)
        ensures
            match chunk {
                Some(c) => self@.contains_key((chunk_x as int, chunk_z as int)) && c@ == self@[(
                    chunk_x as int,
                    chunk_z as int,
                )] && c.spec_x() == chunk_x && c.spec_z() == chunk_z,
                None => !self@.contains_key((chunk_x as int, chunk_z as int)),
            },
    {
        proof {
            use_type_invariant(self);
        }
        let key = key_of(chunk_x, chunk_z);
        self.chunks.get(&key)
    }

    /// The block at global coordinate `(x, y, z)`, for coordinates of any
    /// size: nothing when `y` is outside the chunk height or the owning chunk
    /// is not loaded.
    pub fn block_at(&self, x: i64, y: i64, z: i64) -> (block: Option<Block>)
        ensures
            block == world_block(self@, x as int, y as int, z as int),
    {
        if y < 0 || y >= CHUNK_HEIGHT as i64 {
            return None;
        }
        let chunk_x = if x >= 0 {
            x / 16
        } else {
            (x + 1) / 16 - 1
        };
        let chunk_z = if z >= 0 {
            z / 16
        } else {
            (z + 1) / 16 - 1
        };
        if chunk_x < i32::MIN as i64 || chunk_x > i32::MAX as i64 || chunk_z < i32::MIN as i64
            || chunk_z > i32::MAX as i64 {
            return None;
        }
        let local_x = (x - chunk_x * 16) as usize;
        let local_z = (z - chunk_z * 16) as usize;
        if let Some(chunk) = self.get_chunk_ref(chunk_x as i32, chunk_z as i32) {
            if let Some(block) = chunk.get_block(local_x, y as usize, local_z) {
                return Some(*block);
            }
        }
        None
    }

    /// The block at global coordinate `(x, y, z)`: nothing when `y` is outside
    /// the chunk height or the owning chunk is not loaded.
    pub fn get_block(&self, x: i32, y: i32, z: i32) -> (block: Option<Block>)
        ensures
            block == world_block(self@, x as int, y as int, z as int),
    {
        if y < 0 || y >= CHUNK_HEIGHT as i32 {
            return None;
        }
        let ((chunk_x, chunk_z), (local_x, local_z)) = Self::world_to_chunk_coords(x, z);
        if let Some(chunk) = self.get_chunk_ref(chunk_x, chunk_z) {
            if let Some(block) = chunk.get_block(local_x, y as usize, local_z) {
                return Some(*block);
            }
        }
        None
    }

    /// The height of the highest solid block of the column at global
    /// `(x, z)`, or nothing when the column holds no solid block.
    pub fn highest_solid(&self, x: i32, z: i32) -> (top: Option<i32>)
        ensures
            match top {
                Some(y) => is_column_top(self@, x as int, y as int, z as int),
                None => forall|y: int| !#[trigger] world_solid(self@, x as int, y, z as int),
            },
    {
        let mut y: i32 = CHUNK_HEIGHT as i32;
        while y > 0
            invariant
                0 <= y <= CHUNK_HEIGHT,
                forall|above: int|
                    y <= above ==> !#[trigger] world_solid(self@, x as int, above, z as int),
            decreases y,
        {
            y = y - 1;
            if let Some(block) = self.get_block(x, y, z) {
                if block.is_solid() {
                    return Some(y);
                }
            }
        }
        None
    }

    /// Writes `block` at global coordinate `(x, y, z)`. Nothing happens when
    /// `y` is outside the chunk height or the owning chunk is not loaded.
    pub fn set_block(&mut self, x: i32, y: i32, z: i32, block: Block)
        ensures
            final(self)@ == world_set_block(
                old(self)@,
                x as int,
                y as int,
                z as int,
                block.block_type,
            ),
    {
        if y < 0 || y >= CHUNK_HEIGHT as i32 {
            return;
        }
        proof {
            use_type_invariant(&*self);
        }
        let ((chunk_x, chunk_z), (local_x, local_z)) = Self::world_to_chunk_coords(x, z);
        let key = key_of(chunk_x, chunk_z);
        let mut chunks = HashMap::new();
        std::mem::swap(&mut chunks, &mut self.chunks);
        if let Some(mut chunk) = chunks.remove(&key) {
            chunk.set_block(local_x, y as usize, local_z, block.block_type);
            chunks.insert(key, chunk);
        }
        self.chunks = chunks;
        assert(self@ =~= world_set_block(
            old(self)@,
            x as int,
            y as int,
            z as int,
            block.block_type,
        ));
    }
}

} // verus!
