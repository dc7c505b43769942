use voxel_engine::block::{Block, BlockType};
use voxel_engine::chunk::Chunk;
use voxel_engine::physics::{
    can_displace, check_collision, integrate_fly, integrate_walk, is_grounded, raycast,
    spawn_position, voxel_ceil, voxel_floor, FixedVec3, Motion, RaycastHit, AABB,
};
use voxel_engine::world::World;

fn open_world() -> World {
    let mut world = World::new();
    for cx in -1..=1 {
        for cz in -1..=1 {
            assert!(world.insert_chunk(Chunk::new(cx, cz)));
        }
    }
    world
}

fn world_with_stone_at_origin() -> World {
    let mut world = open_world();
    world.set_block(0, 0, 0, Block::new(BlockType::Stone));
    world
}

fn world_with_stone_floor() -> World {
    let mut world = open_world();
    for x in -16..32 {
        for z in -16..32 {
            world.set_block(x, 0, z, Block::new(BlockType::Stone));
        }
    }
    world
}

fn at(x: i64, y: i64, z: i64) -> FixedVec3 {
    FixedVec3::new(x, y, z)
}

#[test]
fn voxel_floor_and_ceil_round_towards_their_side() {
    let cases = [
        (0, 0, 0),
        (1, 0, 1),
        (999, 0, 1),
        (1000, 1, 1),
        (1001, 1, 2),
        (-1, -1, 0),
        (-999, -1, 0),
        (-1000, -1, -1),
        (-1001, -2, -1),
        (i64::MAX, 9223372036854775, 9223372036854776),
        (i64::MIN, -9223372036854776, -9223372036854775),
    ];
    for (v, floor, ceil) in cases {
        assert_eq!(voxel_floor(v), floor);
        assert_eq!(voxel_ceil(v), ceil);
    }
}

#[test]
fn boxes_intersect_when_they_touch() {
    let a = AABB::new(at(0, 0, 0), at(1000, 1000, 1000));
    let touching = AABB::new(at(1000, 0, 0), at(2000, 1000, 1000));
    let apart = AABB::new(at(1001, 0, 0), at(2000, 1000, 1000));
    let inside = AABB::new(at(200, 200, 200), at(300, 300, 300));
    let above = AABB::new(at(0, 1500, 0), at(1000, 2500, 1000));
    assert!(a.intersects(&touching));
    assert!(touching.intersects(&a));
    assert!(!a.intersects(&apart));
    assert!(!apart.intersects(&a));
    assert!(a.intersects(&inside));
    assert!(inside.intersects(&a));
    assert!(!a.intersects(&above));
}

#[test]
fn actor_in_open_air_does_not_collide() {
    let world = world_with_stone_at_origin();
    assert!(!check_collision(at(5500, 10000, 5500), &world));
    assert!(!check_collision(at(500, 5000, 500), &world));
    assert!(!check_collision(at(-5500, 1620, -5500), &world));
}

#[test]
fn actor_overlapping_a_stone_voxel_collides() {
    let world = world_with_stone_at_origin();
    assert!(check_collision(at(500, 2120, 500), &world));
    assert!(check_collision(at(500, 500, 500), &world));
    assert!(check_collision(at(1200, 1700, -200), &world));
}

#[test]
fn actor_in_water_or_air_does_not_collide() {
    let mut world = open_world();
    world.set_block(0, 0, 0, Block::new(BlockType::Water));
    assert!(!check_collision(at(500, 2120, 500), &world));
    world.set_block(0, 0, 0, Block::new(BlockType::Leaves));
    assert!(check_collision(at(500, 2120, 500), &world));
}

#[test]
fn collision_at_the_faces_of_a_voxel() {
    let world = world_with_stone_at_origin();
    assert!(!check_collision(at(500, 2620, 500), &world));
    assert!(check_collision(at(500, 2619, 500), &world));
    assert!(check_collision(at(-300, 1620, 500), &world));
    assert!(!check_collision(at(-301, 1620, 500), &world));
    assert!(!check_collision(at(1300, 1620, 500), &world));
    assert!(check_collision(at(1299, 1620, 500), &world));
    assert!(check_collision(at(500, -180, 500), &world));
    assert!(!check_collision(at(500, -181, 500), &world));
}

#[test]
fn actor_outside_every_chunk_does_not_collide() {
    let world = world_with_stone_floor();
    assert!(!check_collision(at(100_000, 1000, 100_000), &world));
    assert!(!check_collision(at(i64::MAX, 1000, 0), &world));
    assert!(!check_collision(at(0, i64::MIN, 0), &world));
    assert!(!check_collision(at(1 << 50, 1 << 50, -(1 << 50)), &world));
    assert!(!is_grounded(at(0, i64::MIN, 0), &world));
}

#[test]
fn actor_stands_on_the_floor() {
    let world = world_with_stone_floor();
    let standing = at(500, 2620, 500);
    assert!(!check_collision(standing, &world));
    assert!(is_grounded(standing, &world));
    assert!(is_grounded(at(500, 2719, 500), &world));
    assert!(!is_grounded(at(500, 2720, 500), &world));
}

#[test]
fn ray_straight_down_hits_the_floor_from_above() {
    let world = world_with_stone_floor();
    let hit = raycast(at(500, 5500, 500), at(0, -1000, 0), 10_000, &world);
    assert_eq!(hit, Some(RaycastHit { block_pos: (0, 0, 0), face_normal: (0, 1, 0) }));
}

#[test]
fn ray_stops_at_its_maximum_distance() {
    let world = world_with_stone_floor();
    assert_eq!(raycast(at(500, 5500, 500), at(0, -1000, 0), 4_599, &world), None);
    assert!(raycast(at(500, 5500, 500), at(0, -1000, 0), 4_600, &world).is_some());
    assert_eq!(raycast(at(500, 500, 500), at(0, -1000, 0), 0, &world), None);
    assert_eq!(raycast(at(500, 500, 500), at(0, -1000, 0), -5_000, &world), None);
    assert_eq!(raycast(at(500, 500, 500), at(0, -1000, 0), 99, &world), None);
}

#[test]
fn ray_reports_the_face_it_came_through() {
    let world = world_with_stone_at_origin();
    assert_eq!(
        raycast(at(2500, 500, 500), at(-1000, 0, 0), 10_000, &world),
        Some(RaycastHit { block_pos: (0, 0, 0), face_normal: (1, 0, 0) })
    );
    assert_eq!(
        raycast(at(-1500, 500, 500), at(1000, 0, 0), 10_000, &world),
        Some(RaycastHit { block_pos: (0, 0, 0), face_normal: (-1, 0, 0) })
    );
    assert_eq!(
        raycast(at(500, 500, 2500), at(0, 0, -1000), 10_000, &world),
        Some(RaycastHit { block_pos: (0, 0, 0), face_normal: (0, 0, 1) })
    );
    assert_eq!(
        raycast(at(500, 500, -1500), at(0, 0, 1000), 10_000, &world),
        Some(RaycastHit { block_pos: (0, 0, 0), face_normal: (0, 0, -1) })
    );
}

#[test]
fn ray_along_a_diagonal_rounds_each_step_down() {
    let world = world_with_stone_at_origin();
    let hit = raycast(at(2050, 2050, 500), at(-707, -707, 0), 10_000, &world);
    assert_eq!(hit, Some(RaycastHit { block_pos: (0, 0, 0), face_normal: (0, 1, 0) }));
    assert_eq!(raycast(at(2050, 2050, 500), at(-707, -707, 0), 1_499, &world), None);
    let hit = raycast(at(2050, 1950, 450), at(-707, -707, 0), 10_000, &world);
    assert_eq!(hit, Some(RaycastHit { block_pos: (0, 0, 0), face_normal: (1, 0, 0) }));
}

#[test]
fn ray_through_open_air_hits_nothing() {
    let world = world_with_stone_at_origin();
    assert_eq!(raycast(at(500, 5500, 500), at(0, 1000, 0), 100_000, &world), None);
    assert_eq!(raycast(at(500, 5500, 500), at(1000, 0, 0), 1_000_000, &world), None);
    let corner = at(i64::MAX, i64::MAX, i64::MIN);
    assert_eq!(raycast(corner, at(i64::MAX, 0, i64::MIN), 100_000, &world), None);
}

#[test]
fn ray_passes_through_water() {
    let mut world = world_with_stone_floor();
    world.set_block(0, 1, 0, Block::new(BlockType::Water));
    world.set_block(0, 2, 0, Block::new(BlockType::Water));
    let hit = raycast(at(500, 5500, 500), at(0, -1000, 0), 10_000, &world);
    assert_eq!(hit, Some(RaycastHit { block_pos: (0, 0, 0), face_normal: (0, 1, 0) }));
}

#[test]
fn walking_into_a_wall_slides_along_it() {
    let mut world = world_with_stone_floor();
    for y in 1..4 {
        for z in -16..32 {
            world.set_block(3, y, z, Block::new(BlockType::Stone));
        }
    }
    let start = at(2500, 2620, 500);
    let motion = integrate_walk(start, at(4000, -2000, 3000), at(400, -200, 300), &world);
    assert_eq!(
        motion,
        Motion { position: at(2500, 2620, 800), velocity: at(0, 0, 3000) }
    );
}

#[test]
fn walking_in_the_open_applies_every_axis() {
    let world = world_with_stone_floor();
    let velocity = at(1000, -500, -250);
    let motion = integrate_walk(at(500, 5000, 500), velocity, at(100, -50, -25), &world);
    assert_eq!(
        motion,
        Motion { position: at(600, 4950, 475), velocity: at(1000, -500, -250) }
    );
}

#[test]
fn walking_resolves_x_before_z_before_y() {
    let mut world = open_world();
    world.set_block(1, 1, 1, Block::new(BlockType::Stone));
    let start = at(500, 2700, 500);
    let motion = integrate_walk(start, at(1, 1, 1), at(400, 0, 400), &world);
    assert_eq!(motion, Motion { position: at(900, 2700, 500), velocity: at(1, 1, 0) });
    let motion = integrate_walk(at(500, 4700, 500), at(1, -1, 1), at(400, -1200, 400), &world);
    assert_eq!(motion, Motion { position: at(900, 4700, 900), velocity: at(1, 0, 1) });
}

#[test]
fn flying_keeps_to_free_axes() {
    let mut world = world_with_stone_floor();
    for y in 1..4 {
        for z in -16..32 {
            world.set_block(3, y, z, Block::new(BlockType::Stone));
        }
    }
    let reached = integrate_fly(at(2500, 2620, 500), at(400, 1000, 300), &world);
    assert_eq!(reached, at(2500, 3620, 800));
    let reached = integrate_fly(at(2500, 2620, 500), at(400, 2000, 300), &world);
    assert_eq!(reached, at(2500, 4620, 800));
    let reached = integrate_fly(at(2500, 2620, 500), at(-400, -10, -300), &world);
    assert_eq!(reached, at(2100, 2620, 200));
}

#[test]
fn flying_resolves_x_before_y_before_z() {
    let mut world = open_world();
    world.set_block(1, 3, 1, Block::new(BlockType::Stone));
    let reached = integrate_fly(at(500, 2700, 500), at(400, 400, 400), &world);
    assert_eq!(reached, at(900, 3100, 500));
}

#[test]
fn actor_enters_sixty_above_the_ground() {
    let mut world = open_world();
    assert_eq!(spawn_position(&world), at(0, 150_000, 0));
    world.set_block(0, 0, 0, Block::new(BlockType::Water));
    assert_eq!(spawn_position(&world), at(0, 150_000, 0));
    world.set_block(0, 64, 0, Block::new(BlockType::Grass));
    world.set_block(0, 10, 0, Block::new(BlockType::Stone));
    world.set_block(1, 200, 0, Block::new(BlockType::Stone));
    assert_eq!(spawn_position(&world), at(0, 124_000, 0));
    world.set_block(0, 255, 0, Block::new(BlockType::Leaves));
    assert_eq!(spawn_position(&world), at(0, 315_000, 0));
    assert_eq!(spawn_position(&World::new()), at(0, 150_000, 0));
}

#[test]
fn block_is_placed_in_front_of_the_struck_face() {
    let hit = RaycastHit { block_pos: (3, 0, -5), face_normal: (0, 1, 0) };
    assert_eq!(hit.placement(), Some((3, 1, -5)));
    let hit = RaycastHit { block_pos: (0, 7, 0), face_normal: (-1, 0, 0) };
    assert_eq!(hit.placement(), Some((-1, 7, 0)));
    let hit = RaycastHit { block_pos: (i32::MAX, 7, 0), face_normal: (1, 0, 0) };
    assert_eq!(hit.placement(), None);
    let hit = RaycastHit { block_pos: (0, 7, i32::MIN), face_normal: (0, 0, -1) };
    assert_eq!(hit.placement(), None);
    let hit = RaycastHit { block_pos: (i32::MAX, 7, i32::MIN), face_normal: (-1, 0, 1) };
    assert_eq!(hit.placement(), Some((i32::MAX - 1, 7, i32::MIN + 1)));
}

#[test]
fn displacement_fits_unless_a_sum_overflows() {
    assert!(can_displace(at(0, 0, 0), at(1, 2, 3)));
    assert!(can_displace(at(i64::MAX, i64::MIN, 0), at(0, 0, i64::MIN)));
    assert!(can_displace(at(i64::MAX - 1, i64::MIN + 1, 0), at(1, -1, 0)));
    assert!(!can_displace(at(i64::MAX, 0, 0), at(1, 0, 0)));
    assert!(!can_displace(at(0, i64::MIN, 0), at(0, -1, 0)));
    assert!(!can_displace(at(0, 0, i64::MAX), at(0, 0, i64::MAX)));
}
