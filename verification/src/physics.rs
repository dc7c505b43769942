//! Collision and ray queries against the voxel grid.
//!
//! Positions, sizes and directions are in fixed point: `UNITS_PER_BLOCK`
//! units to one voxel edge. A direction of unit length has length
//! `UNITS_PER_BLOCK`.

use vstd::prelude::*;
use crate::world::{World, WorldView, is_column_top, world_block, world_solid};

verus! {

/// Fixed-point units per voxel edge.
pub const UNITS_PER_BLOCK: i64 = 1000;

/// Width and depth of the actor's box.
pub const PLAYER_WIDTH: i64 = 600;

/// Height of the actor's box.
pub const PLAYER_HEIGHT: i64 = 1800;

/// Height of the actor's reference point, the eye, above its feet.
pub const EYE_HEIGHT: i64 = 1620;

/// Positions farther than this from the origin along an axis lie outside
/// every world: no chunk coordinate reaches them.
pub const WORLD_REACH: i64 = 0x4000_0000_0000;

/// A point, size or direction in fixed-point world space.
#[derive(Clone, Copy, Debug, PartialEq, Eq, Structural)]
pub struct FixedVec3 {
    pub x: i64,
    pub y: i64,
    pub z: i64,
}

impl FixedVec3 {
    pub fn new(x: i64, y: i64, z: i64) -> (v: Self)
        ensures
            v == (FixedVec3 { x, y, z }),
    {
        Self { x, y, z }
    }
}

/// An axis-aligned box given by its least and greatest corner.
#[derive(Clone, Copy, Debug)]
pub struct AABB {
    pub min: FixedVec3,
    pub max: FixedVec3,
}

impl AABB {
    /// Whether the two boxes overlap on every axis, touching included.
    pub open spec fn overlaps(&self, other: &AABB) -> bool {
        &&& self.min.x <= other.max.x
        &&& self.max.x >= other.min.x
        &&& self.min.y <= other.max.y
        &&& self.max.y >= other.min.y
        &&& self.min.z <= other.max.z
        &&& self.max.z >= other.min.z
    }

    pub fn new(min: FixedVec3, max: FixedVec3) -> (aabb: Self)
        ensures
            aabb.min == min,
            aabb.max == max,
    {
        Self { min, max }
    }

    /// Whether the two boxes overlap on every axis, touching included.
    pub fn intersects(&self, other: &AABB) -> (hit: bool)
        ensures
            hit == self.overlaps(other),
    {
        self.min.x <= other.max.x && self.max.x >= other.min.x && self.min.y <= other.max.y
            && self.max.y >= other.min.y && self.min.z <= other.max.z && self.max.z
            >= other.min.z
    }
}

/// The voxel coordinate at or below position `v` along one axis.
pub open spec fn floor_cell(v: int) -> int {
    v / (UNITS_PER_BLOCK as int)
}

/// The voxel coordinate at or above position `v` along one axis.
pub open spec fn ceil_cell(v: int) -> int {
    if v % (UNITS_PER_BLOCK as int) == 0 {
        floor_cell(v)
    } else {
        floor_cell(v) + 1
    }
}

/// The voxel coordinate at or below position `v` along one axis.
pub fn voxel_floor(v: i64) -> (cell: i64)
    ensures
        cell == floor_cell(v as int),
{
    if v >= 0 {
        v / UNITS_PER_BLOCK
    } else {
        (v + 1) / UNITS_PER_BLOCK - 1
    }
}

/// The voxel coordinate at or above position `v` along one axis.
pub fn voxel_ceil(v: i64) -> (cell: i64)
    ensures
        cell == ceil_cell(v as int),
{
    let floor = voxel_floor(v);
    if v % UNITS_PER_BLOCK == 0 {
        floor
    } else {
        floor + 1
    }
}

/// Whether voxel `(cx, cy, cz)` stops an actor whose reference point is at
/// `(x, y, z)`. The actor's box reaches half its width to each side, down to
/// its feet and up to its head. The voxel must lie between the floor of the
/// box's least corner and the ceiling of its greatest, hold a solid block,
/// and its unit cube must overlap the box, touching included.
pub open spec fn cell_blocks_actor(
    world: WorldView,
    x: int,
    y: int,
    z: int,
    cx: int,
    cy: int,
    cz: int,
) -> bool {
    let min_x = x - PLAYER_WIDTH / 2;
    let max_x = x + PLAYER_WIDTH / 2;
    let min_y = y - EYE_HEIGHT;
    let max_y = y + (PLAYER_HEIGHT - EYE_HEIGHT);
    let min_z = z - PLAYER_WIDTH / 2;
    let max_z = z + PLAYER_WIDTH / 2;
    &&& floor_cell(min_x) <= cx <= ceil_cell(max_x)
    &&& floor_cell(min_y) <= cy <= ceil_cell(max_y)
    &&& floor_cell(min_z) <= cz <= ceil_cell(max_z)
    &&& world_solid(world, cx, cy, cz)
    &&& min_x <= (cx + 1) * UNITS_PER_BLOCK && max_x >= cx * UNITS_PER_BLOCK
    &&& min_y <= (cy + 1) * UNITS_PER_BLOCK && max_y >= cy * UNITS_PER_BLOCK
    &&& min_z <= (cz + 1) * UNITS_PER_BLOCK && max_z >= cz * UNITS_PER_BLOCK
}

/// Whether an actor whose reference point is at `(x, y, z)` collides with
/// the world: whether some voxel stops it.
pub open spec fn actor_collides(world: WorldView, x: int, y: int, z: int) -> bool {
    exists|cx: int, cy: int, cz: int| #[trigger] cell_blocks_actor(world, x, y, z, cx, cy, cz)
}

/// Whether an actor whose reference point is at `position` collides with the
/// world.
pub open spec fn collides(world: WorldView, position: FixedVec3) -> bool {
    actor_collides(world, position.x as int, position.y as int, position.z as int)
}

/// An actor farther than `WORLD_REACH` from the origin along some axis
/// collides with nothing: no loaded chunk reaches that far.
pub proof fn lemma_far_actor_is_free(world: &World, x: int, y: int, z: int)
    requires
        x < -WORLD_REACH || x > WORLD_REACH || y < -WORLD_REACH || y > WORLD_REACH || z
            < -WORLD_REACH || z > WORLD_REACH,
    ensures
        !actor_collides(world@, x, y, z),
{
    assert forall|cx: int, cy: int, cz: int| !#[trigger] cell_blocks_actor(
        world@,
        x,
        y,
        z,
        cx,
        cy,
        cz,
    ) by {
        if world_block(world@, cx, cy, cz) is Some {
            world.lemma_block_coordinates(cx, cy, cz);
        }
    }
}

/// An actor surrounded by no solid voxel collides with nothing.
pub proof fn lemma_open_air_is_free(world: WorldView, x: int, y: int, z: int)
    requires
        forall|cx: int, cy: int, cz: int|
            floor_cell(x - PLAYER_WIDTH / 2) <= cx <= ceil_cell(x + PLAYER_WIDTH / 2)
                && floor_cell(y - EYE_HEIGHT) <= cy <= ceil_cell(
                y + (PLAYER_HEIGHT - EYE_HEIGHT),
            ) && floor_cell(z - PLAYER_WIDTH / 2) <= cz <= ceil_cell(z + PLAYER_WIDTH / 2)
                ==> !#[trigger] world_solid(world, cx, cy, cz),
    ensures
        !actor_collides(world, x, y, z),
{
}

/// Whether an actor whose reference point, its eye, is at `pos` collides
/// with the world.
#[verifier::loop_isolation(false)]
pub fn check_collision(pos: FixedVec3, world: &World) -> (hit: bool)
    ensures
        hit == collides(world@, pos),
{
    if pos.x < -WORLD_REACH || pos.x > WORLD_REACH || pos.y < -WORLD_REACH || pos.y > WORLD_REACH
        || pos.z < -WORLD_REACH || pos.z > WORLD_REACH {
        proof {
            lemma_far_actor_is_free(world, pos.x as int, pos.y as int, pos.z as int);
        }
        return false;
    }
    let player_box = AABB::new(
        FixedVec3::new(pos.x - PLAYER_WIDTH / 2, pos.y - EYE_HEIGHT, pos.z - PLAYER_WIDTH / 2),
        FixedVec3::new(
            pos.x + PLAYER_WIDTH / 2,
            pos.y + (PLAYER_HEIGHT - EYE_HEIGHT),
            pos.z + PLAYER_WIDTH / 2,
        ),
    );
    let min_x = voxel_floor(player_box.min.x);
    let max_x = voxel_ceil(player_box.max.x);
    let min_y = voxel_floor(player_box.min.y);
    let max_y = voxel_ceil(player_box.max.y);
    let min_z = voxel_floor(player_box.min.z);
    let max_z = voxel_ceil(player_box.max.z);
    let ghost w = world@;
    let ghost px = pos.x as int;
    let ghost py = pos.y as int;
    let ghost pz = pos.z as int;
    let mut x = min_x;
    while x <= max_x
        invariant
            min_x <= x <= max_x + 1,
            forall|cx: int, cy: int, cz: int|
                cx < x ==> !#[trigger] cell_blocks_actor(w, px, py, pz, cx, cy, cz),
        decreases max_x + 1 - x,
    {
        let mut y = min_y;
        while y <= max_y
            invariant
                min_y <= y <= max_y + 1,
                forall|cx: int, cy: int, cz: int|
                    cx < x || (cx == x && cy < y) ==> !#[trigger] cell_blocks_actor(
                        w,
                        px,
                        py,
                        pz,
                        cx,
                        cy,
                        cz,
                    ),
            decreases max_y + 1 - y,
        {
            let mut z = min_z;
            while z <= max_z
                invariant
                    min_z <= z <= max_z + 1,
                    forall|cx: int, cy: int, cz: int|
                        cx < x || (cx == x && cy < y) || (cx == x && cy == y && cz < z)
                            ==> !#[trigger] cell_blocks_actor(w, px, py, pz, cx, cy, cz),
                decreases max_z + 1 - z,
            {
                if let Some(block) = world.block_at(x, y, z) {
                    if block.is_solid() {
                        let block_box = AABB::new(
                            FixedVec3::new(
                                x * UNITS_PER_BLOCK,
                                y * UNITS_PER_BLOCK,
                                z * UNITS_PER_BLOCK,
                            ),
                            FixedVec3::new(
                                (x + 1) * UNITS_PER_BLOCK,
                                (y + 1) * UNITS_PER_BLOCK,
                                (z + 1) * UNITS_PER_BLOCK,
                            ),
                        );
                        if player_box.intersects(&block_box) {
                            assert(cell_blocks_actor(w, px, py, pz, x as int, y as int, z as int));
                            return true;
                        }
                    }
                }
                z = z + 1;
            }
            y = y + 1;
        }
        x = x + 1;
    }
    false
}

/// Length of one step of a ray, in fixed-point units: a tenth of a voxel.
pub const RAY_STEP: i64 = 100;

/// Number of ray steps to one voxel edge.
pub const STEPS_PER_BLOCK: i64 = 10;

/// The first solid voxel met by a ray: its global coordinate, and the unit
/// axis vector of the face that was struck.
#[derive(Clone, Copy, Debug, PartialEq, Eq)]
pub struct RaycastHit {
    pub block_pos: (i32, i32, i32),
    pub face_normal: (i32, i32, i32),
}

impl RaycastHit {
    /// The voxel in front of the struck face, where a block set against that
    /// face goes; nothing when that voxel has no `i32` coordinate.
    pub fn placement(&self) -> (target: Option<(i32, i32, i32)>)
        ensures
            match target {
                Some(p) => p.0 == self.block_pos.0 + self.face_normal.0 && p.1 == self.block_pos.1
                    + self.face_normal.1 && p.2 == self.block_pos.2 + self.face_normal.2,
                None => !(i32::MIN <= self.block_pos.0 + self.face_normal.0 <= i32::MAX)
                    || !(i32::MIN <= self.block_pos.1 + self.face_normal.1 <= i32::MAX)
                    || !(i32::MIN <= self.block_pos.2 + self.face_normal.2 <= i32::MAX),
            },
    {
        let x = self.block_pos.0.checked_add(self.face_normal.0);
        let y = self.block_pos.1.checked_add(self.face_normal.1);
        let z = self.block_pos.2.checked_add(self.face_normal.2);
        match (x, y, z) {
            (Some(x), Some(y), Some(z)) => Some((x, y, z)),
            _ => None,
        }
    }
}

/// Number of steps a ray of length `max_distance` takes: one per `RAY_STEP`
/// that fits, none for a length that is not positive.
pub open spec fn ray_steps(max_distance: int) -> int {
    if max_distance <= 0 {
        0
    } else if max_distance / (RAY_STEP as int) > i32::MAX {
        i32::MAX as int
    } else {
        max_distance / (RAY_STEP as int)
    }
}

/// Position along one axis after `n` steps from `origin` in direction
/// `direction`, rounded down: a direction of unit length advances by
/// `RAY_STEP` with each step.
pub open spec fn ray_coord(origin: int, direction: int, n: int) -> int {
    origin + (direction * n) / (STEPS_PER_BLOCK as int)
}

/// Whether the ray stands in a solid voxel after `n` steps.
pub open spec fn ray_hits(
    world: WorldView,
    origin: FixedVec3,
    direction: FixedVec3,
    n: int,
) -> bool {
    world_solid(
        world,
        floor_cell(ray_coord(origin.x as int, direction.x as int, n)),
        floor_cell(ray_coord(origin.y as int, direction.y as int, n)),
        floor_cell(ray_coord(origin.z as int, direction.z as int, n)),
    )
}

/// Whether step `n` is the first at which the ray stands in a solid voxel.
pub open spec fn ray_first_hit(
    world: WorldView,
    origin: FixedVec3,
    direction: FixedVec3,
    n: int,
) -> bool {
    &&& 1 <= n
    &&& ray_hits(world, origin, direction, n)
    &&& forall|m: int| 1 <= m < n ==> !#[trigger] ray_hits(world, origin, direction, m)
}

/// Offset of position `v` from the centre of its voxel along one axis.
pub open spec fn center_offset(v: int) -> int {
    v - (floor_cell(v) * UNITS_PER_BLOCK + UNITS_PER_BLOCK / 2)
}

/// `1` for an offset that is zero or positive, `-1` for a negative one.
pub open spec fn axis_sign(v: int) -> int {
    if v >= 0 {
        1
    } else {
        -1
    }
}

/// Magnitude of `v`.
pub open spec fn magnitude(v: int) -> int {
    if v >= 0 {
        v
    } else {
        -v
    }
}

/// The face struck, from the offset `(ox, oy, oz)` of the hit point from the
/// centre of the voxel: the unit vector along the axis of strictly greatest
/// magnitude, x before y before z, pointing the way of that offset.
pub open spec fn hit_normal(ox: int, oy: int, oz: int) -> (int, int, int) {
    if magnitude(ox) > magnitude(oy) && magnitude(ox) > magnitude(oz) {
        (axis_sign(ox), 0, 0)
    } else if magnitude(oy) > magnitude(oz) {
        (0, axis_sign(oy), 0)
    } else {
        (0, 0, axis_sign(oz))
    }
}

/// Whether `hit` describes the voxel in which the ray stands after `n` steps
/// and the face of it nearest to that point.
pub open spec fn describes_hit(
    hit: RaycastHit,
    origin: FixedVec3,
    direction: FixedVec3,
    n: int,
) -> bool {
    let px = ray_coord(origin.x as int, direction.x as int, n);
    let py = ray_coord(origin.y as int, direction.y as int, n);
    let pz = ray_coord(origin.z as int, direction.z as int, n);
    let normal = hit_normal(center_offset(px), center_offset(py), center_offset(pz));
    &&& hit.block_pos.0 == floor_cell(px)
    &&& hit.block_pos.1 == floor_cell(py)
    &&& hit.block_pos.2 == floor_cell(pz)
    &&& hit.face_normal.0 == normal.0
    &&& hit.face_normal.1 == normal.1
    &&& hit.face_normal.2 == normal.2
}

fn step_product(direction: i64, n: i32) -> (product: i128)
    requires
        n >= 0,
    ensures
        product == direction * n,
{
    proof {
        assert(-0x8000_0000_0000_0000 * 0x8000_0000 <= direction * n <= 0x8000_0000_0000_0000
            * 0x8000_0000) by (nonlinear_arith)
            requires
                -0x8000_0000_0000_0000 <= direction < 0x8000_0000_0000_0000,
                0 <= n < 0x8000_0000,
        ;
    }
    direction as i128 * n as i128
}

fn tenth(v: i128) -> (q: i128)
    ensures
        q == v as int / (STEPS_PER_BLOCK as int),
{
    if v >= 0 {
        v / 10
    } else {
        (v + 1) / 10 - 1
    }
}

fn wide_voxel_floor(v: i128) -> (cell: i128)
    ensures
        cell == floor_cell(v as int),
{
    if v >= 0 {
        v / 1000
    } else {
        (v + 1) / 1000 - 1
    }
}

fn wide_center_offset(v: i128, cell: i128) -> (offset: i128)
    requires
        cell == floor_cell(v as int),
        i32::MIN <= cell <= i32::MAX,
    ensures
        offset == center_offset(v as int),
        -500 <= offset < 500,
{
    v - cell * 1000 - 500
}

fn sign_of(v: i128) -> (s: i32)
    ensures
        s == axis_sign(v as int),
{
    if v >= 0 {
        1
    } else {
        -1
    }
}

fn magnitude_of(v: i128) -> (m: i128)
    requires
        v > i128::MIN,
    ensures
        m == magnitude(v as int),
{
    if v >= 0 {
        v
    } else {
        -v
    }
}

/// Marches from `origin` along `direction` in steps of `RAY_STEP`, up to
/// `max_distance`, and reports the first solid voxel in which a step lands,
/// with the face of it nearest to the landing point. Reports nothing when no
/// step lands in a solid voxel.
#[verifier::loop_isolation(false)]
pub fn raycast(
    origin: FixedVec3,
    direction: FixedVec3,
    max_distance: i64,
    world: &World,
) -> (result: Option<RaycastHit>)
    ensures
        match result {
            Some(hit) => exists|n: int|
                n <= ray_steps(max_distance as int) && #[trigger] ray_first_hit(
                    world@,
                    origin,
                    direction,
                    n,
                ) && describes_hit(hit, origin, direction, n),
            None => forall|n: int|
                1 <= n <= ray_steps(max_distance as int) ==> !#[trigger] ray_hits(
                    world@,
                    origin,
                    direction,
                    n,
                ),
        },
{
    let steps: i32 = if max_distance <= 0 {
        0
    } else if max_distance / RAY_STEP > i32::MAX as i64 {
        i32::MAX
    } else {
        (max_distance / RAY_STEP) as i32
    };
    let mut n: i32 = 0;
    while n < steps
        invariant
            0 <= n <= steps,
            forall|m: int| 1 <= m <= n ==> !#[trigger] ray_hits(world@, origin, direction, m),
        decreases steps - n,
    {
        n = n + 1;
        let px: i128 = origin.x as i128 + tenth(step_product(direction.x, n));
        let py: i128 = origin.y as i128 + tenth(step_product(direction.y, n));
        let pz: i128 = origin.z as i128 + tenth(step_product(direction.z, n));
        let x = wide_voxel_floor(px);
        let y = wide_voxel_floor(py);
        let z = wide_voxel_floor(pz);
        proof {
            if world_block(world@, x as int, y as int, z as int) is Some {
                world.lemma_block_coordinates(x as int, y as int, z as int);
            }
        }
        if x >= i32::MIN as i128 && x <= i32::MAX as i128 && y >= 0 && y < 256 && z
            >= i32::MIN as i128 && z <= i32::MAX as i128 {
            if let Some(block) = world.block_at(x as i64, y as i64, z as i64) {
                if block.is_solid() {
                    let ox = wide_center_offset(px, x);
                    let oy = wide_center_offset(py, y);
                    let oz = wide_center_offset(pz, z);
                    let ax = magnitude_of(ox);
                    let ay = magnitude_of(oy);
                    let az = magnitude_of(oz);
                    let face_normal = if ax > ay && ax > az {
                        (sign_of(ox), 0, 0)
                    } else if ay > az {
                        (0, sign_of(oy), 0)
                    } else {
                        (0, 0, sign_of(oz))
                    };
                    let hit = RaycastHit {
                        block_pos: (x as i32, y as i32, z as i32),
                        face_normal,
                    };
                    assert(ray_first_hit(world@, origin, direction, n as int));
                    assert(describes_hit(hit, origin, direction, n as int));
                    return Some(hit);
                }
            }
        }
    }
    None
}

/// Distance below the actor that is probed for ground.
pub const GROUND_PROBE: i64 = 100;

/// Where an actor stands and how fast it moves after a step of movement.
#[derive(Clone, Copy, Debug, PartialEq, Eq, Structural)]
pub struct Motion {
    pub position: FixedVec3,
    pub velocity: FixedVec3,
}

/// Whether `position + displacement` can be written down on every axis.
pub open spec fn displacement_fits(position: FixedVec3, displacement: FixedVec3) -> bool {
    &&& i64::MIN <= position.x + displacement.x <= i64::MAX
    &&& i64::MIN <= position.y + displacement.y <= i64::MAX
    &&& i64::MIN <= position.z + displacement.z <= i64::MAX
}

/// Whether `position + displacement` can be written down on every axis.
pub fn can_displace(position: FixedVec3, displacement: FixedVec3) -> (fits: bool)
    ensures
        fits == displacement_fits(position, displacement),
{
    position.x.checked_add(displacement.x).is_some() && position.y.checked_add(
        displacement.y,
    ).is_some() && position.z.checked_add(displacement.z).is_some()
}

/// The outcome of walking from `position` by `displacement`. The axes are
/// taken one at a time, x, then z, then y, each from where the ones before
/// left the actor: where the displaced position is free the actor moves
/// there, where it collides the actor stays and loses its velocity along that
/// axis.
pub open spec fn walk(
    world: WorldView,
    position: FixedVec3,
    velocity: FixedVec3,
    displacement: FixedVec3,
) -> Motion {
    let blocked_x = actor_collides(
        world,
        position.x + displacement.x,
        position.y as int,
        position.z as int,
    );
    let x = if blocked_x {
        position.x as int
    } else {
        position.x + displacement.x
    };
    let blocked_z = actor_collides(world, x, position.y as int, position.z + displacement.z);
    let z = if blocked_z {
        position.z as int
    } else {
        position.z + displacement.z
    };
    let blocked_y = actor_collides(world, x, position.y + displacement.y, z);
    let y = if blocked_y {
        position.y as int
    } else {
        position.y + displacement.y
    };
    Motion {
        position: FixedVec3 { x: x as i64, y: y as i64, z: z as i64 },
        velocity: FixedVec3 {
            x: if blocked_x {
                0
            } else {
                velocity.x
            },
            y: if blocked_y {
                0
            } else {
                velocity.y
            },
            z: if blocked_z {
                0
            } else {
                velocity.z
            },
        },
    }
}

/// The position reached by flying from `position` by `displacement`. The
/// axes are taken one at a time, x, then y, then z, each from where the ones
/// before left the actor: where the displaced position is free the actor
/// moves there, where it collides the actor stays.
pub open spec fn fly(world: WorldView, position: FixedVec3, displacement: FixedVec3) -> FixedVec3 {
    let x = if actor_collides(
        world,
        position.x + displacement.x,
        position.y as int,
        position.z as int,
    ) {
        position.x as int
    } else {
        position.x + displacement.x
    };
    let y = if actor_collides(world, x, position.y + displacement.y, position.z as int) {
        position.y as int
    } else {
        position.y + displacement.y
    };
    let z = if actor_collides(world, x, y, position.z + displacement.z) {
        position.z as int
    } else {
        position.z + displacement.z
    };
    FixedVec3 { x: x as i64, y: y as i64, z: z as i64 }
}

/// Walks from `position` by `displacement`, sliding along what stands in the
/// way: x first, then z, then y.
pub fn integrate_walk(
    position: FixedVec3,
    velocity: FixedVec3,
    displacement: FixedVec3,
    world: &World,
) -> (motion: Motion)
    requires
        displacement_fits(position, displacement),
    ensures
        motion == walk(world@, position, velocity, displacement),
{
    let mut position = position;
    let mut velocity = velocity;
    let mut next = position;
    next.x = position.x + displacement.x;
    if check_collision(next, world) {
        velocity.x = 0;
    } else {
        position.x = next.x;
    }
    next = position;
    next.z = position.z + displacement.z;
    if check_collision(next, world) {
        velocity.z = 0;
    } else {
        position.z = next.z;
    }
    next = position;
    next.y = position.y + displacement.y;
    if check_collision(next, world) {
        velocity.y = 0;
    } else {
        position.y = next.y;
    }
    Motion { position, velocity }
}

/// Flies from `position` by `displacement`, sliding along what stands in the
/// way: x first, then y, then z.
pub fn integrate_fly(position: FixedVec3, displacement: FixedVec3, world: &World) -> (reached:
    FixedVec3)
    requires
        displacement_fits(position, displacement),
    ensures
        reached == fly(world@, position, displacement),
{
    let mut position = position;
    let mut next = position;
    next.x = position.x + displacement.x;
    if !check_collision(next, world) {
        position.x = next.x;
    }
    next = position;
    next.y = position.y + displacement.y;
    if !check_collision(next, world) {
        position.y = next.y;
    }
    next = position;
    next.z = position.z + displacement.z;
    if !check_collision(next, world) {
        position.z = next.z;
    }
    position
}

/// Whether an actor at `position` stands on something: whether it would
/// collide `GROUND_PROBE` lower.
pub fn is_grounded(position: FixedVec3, world: &World) -> (grounded: bool)
    ensures
        grounded == actor_collides(
            world@,
            position.x as int,
            position.y - GROUND_PROBE,
            position.z as int,
        ),
{
    if position.y < -WORLD_REACH {
        proof {
            lemma_far_actor_is_free(
                world,
                position.x as int,
                position.y - GROUND_PROBE,
                position.z as int,
            );
        }
        return false;
    }
    check_collision(FixedVec3::new(position.x, position.y - GROUND_PROBE, position.z), world)
}

/// An actor enters the world this many voxels above the ground.
pub const SPAWN_DROP: i32 = 60;

/// Height, in voxels, at which an actor enters a world without ground.
pub const DEFAULT_SPAWN: i32 = 150;

/// The height of the highest solid block of the column at the origin, if the
/// column holds a solid block.
pub open spec fn spawn_ground(world: WorldView) -> Option<int> {
    if exists|y: int| is_column_top(world, 0, y, 0) {
        Some(choose|y: int| is_column_top(world, 0, y, 0))
    } else {
        None
    }
}

/// Where an actor enters the world: over the origin column, `SPAWN_DROP`
/// voxels above its highest solid block, or at `DEFAULT_SPAWN` when the
/// column holds no solid block.
pub fn spawn_position(world: &World) -> (position: FixedVec3)
    ensures
        position.x == 0,
        position.z == 0,
        match spawn_ground(world@) {
            Some(top) => position.y == (top + SPAWN_DROP) * UNITS_PER_BLOCK,
            None => position.y == DEFAULT_SPAWN * UNITS_PER_BLOCK,
        },
{
    match world.highest_solid(0, 0) {
        Some(top) => {
            proof {
                world.lemma_block_coordinates(0, top as int, 0);
            }
            FixedVec3::new(0, (top as i64 + SPAWN_DROP as i64) * UNITS_PER_BLOCK, 0)
        },
        None => FixedVec3::new(0, DEFAULT_SPAWN as i64 * UNITS_PER_BLOCK, 0),
    }
}

} // verus!
