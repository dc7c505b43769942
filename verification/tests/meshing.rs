use voxel_engine::block::BlockType;
use voxel_engine::chunk::Chunk;
use voxel_engine::mesh::{
    add_face, calculate_ao, generate_chunk_mesh, get_ao_neighbors, is_solid_at,
    should_render_face, Mesh, Vertex,
};
use voxel_engine::texture::{build_atlas, TextureAtlas};
use voxel_engine::world::World;

fn world_with(chunk: Chunk) -> World {
    let mut world = World::new();
    assert!(world.insert_chunk(chunk));
    world
}

fn mesh_of(build: fn(&mut Chunk)) -> Vec<Vertex> {
    let mut chunk = Chunk::new(0, 0);
    build(&mut chunk);
    let mut copy = Chunk::new(0, 0);
    build(&mut copy);
    let world = world_with(copy);
    generate_chunk_mesh(&world, &chunk).vertices
}

fn vertex(
    position: (i32, i32, i32),
    uv: (u32, u32),
    normal: (i32, i32, i32),
    ao: u32,
) -> Vertex {
    Vertex {
        x: position.0,
        y: position.1,
        z: position.2,
        u: uv.0,
        v: uv.1,
        nx: normal.0,
        ny: normal.1,
        nz: normal.2,
        ao,
    }
}

#[test]
fn empty_chunk_has_empty_mesh() {
    let vertices = mesh_of(|_| {});
    assert!(vertices.is_empty());
}

#[test]
fn lone_stone_shows_six_faces() {
    let vertices = mesh_of(|c| c.set_block(5, 5, 5, BlockType::Stone));
    assert_eq!(vertices.len(), 36);
    let mesh = Mesh::new(vertices);
    assert_eq!(mesh.vertex_count(), 36);
}

#[test]
fn lone_stone_left_face_is_exact() {
    let vertices = mesh_of(|c| c.set_block(5, 5, 5, BlockType::Stone));
    let expected = vec![
        vertex((50, 50, 50), (1, 1), (-1, 0, 0), 4),
        vertex((50, 60, 50), (2, 1), (-1, 0, 0), 4),
        vertex((50, 60, 60), (2, 0), (-1, 0, 0), 4),
        vertex((50, 50, 50), (1, 1), (-1, 0, 0), 4),
        vertex((50, 60, 60), (2, 0), (-1, 0, 0), 4),
        vertex((50, 50, 60), (1, 0), (-1, 0, 0), 4),
    ];
    assert_eq!(&vertices[0..6], &expected[..]);
}

#[test]
fn lone_stone_top_face_is_exact_and_fully_lit() {
    let vertices = mesh_of(|c| c.set_block(5, 5, 5, BlockType::Stone));
    let expected = vec![
        vertex((50, 60, 60), (1, 1), (0, 1, 0), 4),
        vertex((60, 60, 60), (2, 1), (0, 1, 0), 4),
        vertex((60, 60, 50), (2, 0), (0, 1, 0), 4),
        vertex((50, 60, 60), (1, 1), (0, 1, 0), 4),
        vertex((60, 60, 50), (2, 0), (0, 1, 0), 4),
        vertex((50, 60, 50), (1, 0), (0, 1, 0), 4),
    ];
    assert_eq!(&vertices[18..24], &expected[..]);
}

#[test]
fn faces_come_in_face_order_with_their_normals() {
    let vertices = mesh_of(|c| c.set_block(5, 5, 5, BlockType::Stone));
    let normals = [(-1, 0, 0), (1, 0, 0), (0, -1, 0), (0, 1, 0), (0, 0, -1), (0, 0, 1)];
    for (face, normal) in normals.iter().enumerate() {
        for v in &vertices[face * 6..face * 6 + 6] {
            assert_eq!((v.nx, v.ny, v.nz), *normal);
        }
    }
}

#[test]
fn no_face_between_adjacent_stone() {
    let vertices = mesh_of(|c| {
        c.set_block(5, 5, 5, BlockType::Stone);
        c.set_block(6, 5, 5, BlockType::Stone);
    });
    assert_eq!(vertices.len(), 60);
    assert!(!vertices.iter().any(|v| v.x == 60 && v.nx != 0));
}

#[test]
fn no_face_between_adjacent_opaque_blocks_of_different_kind() {
    let vertices = mesh_of(|c| {
        c.set_block(5, 5, 5, BlockType::Dirt);
        c.set_block(5, 6, 5, BlockType::Grass);
        c.set_block(5, 7, 5, BlockType::OakLog);
    });
    assert_eq!(vertices.len(), 14 * 6);
}

#[test]
fn adjacent_leaves_show_the_face_between_them() {
    let vertices = mesh_of(|c| {
        c.set_block(5, 5, 5, BlockType::Leaves);
        c.set_block(6, 5, 5, BlockType::Leaves);
    });
    assert_eq!(vertices.len(), 72);
    assert_eq!(vertices.iter().filter(|v| v.x == 60 && v.nx == 1).count(), 6);
    assert_eq!(vertices.iter().filter(|v| v.x == 60 && v.nx == -1).count(), 6);
}

#[test]
fn adjacent_water_shows_no_face_between() {
    let vertices = mesh_of(|c| {
        c.set_block(5, 5, 5, BlockType::Water);
        c.set_block(6, 5, 5, BlockType::Water);
    });
    assert_eq!(vertices.len(), 60);
    assert!(!vertices.iter().any(|v| v.x == 60 && v.nx != 0));
}

#[test]
fn water_next_to_air_is_lowered_to_eight_tenths() {
    let vertices = mesh_of(|c| c.set_block(1, 1, 1, BlockType::Water));
    assert_eq!(vertices.len(), 36);
    for v in &vertices[18..24] {
        assert_eq!((v.ny, v.y), (1, 18));
    }
    for v in &vertices[12..18] {
        assert_eq!((v.ny, v.y), (-1, 10));
    }
    for face in [0, 1, 4, 5] {
        let ys: Vec<i32> = vertices[face * 6..face * 6 + 6].iter().map(|v| v.y).collect();
        assert_eq!(ys, vec![10, 18, 18, 10, 18, 10]);
    }
    assert!(!vertices.iter().any(|v| v.y == 20));
    assert!(vertices.iter().all(|v| v.ao == 4 && v.u >= 4 && v.u <= 5));
}

#[test]
fn water_left_face_is_exact() {
    let vertices = mesh_of(|c| c.set_block(1, 1, 1, BlockType::Water));
    let expected = vec![
        vertex((10, 10, 10), (4, 1), (-1, 0, 0), 4),
        vertex((10, 18, 10), (5, 1), (-1, 0, 0), 4),
        vertex((10, 18, 20), (5, 0), (-1, 0, 0), 4),
        vertex((10, 10, 10), (4, 1), (-1, 0, 0), 4),
        vertex((10, 18, 20), (5, 0), (-1, 0, 0), 4),
        vertex((10, 10, 20), (4, 0), (-1, 0, 0), 4),
    ];
    assert_eq!(&vertices[0..6], &expected[..]);
}

#[test]
fn water_hides_against_stone_but_stone_shows_through_water() {
    let mut chunk = Chunk::new(0, 0);
    chunk.set_block(5, 5, 5, BlockType::Water);
    chunk.set_block(6, 5, 5, BlockType::Stone);
    chunk.set_block(4, 5, 5, BlockType::Leaves);
    let world = World::new();
    assert!(!should_render_face(&world, &chunk, 5, 5, 5, 1, &BlockType::Water));
    assert!(should_render_face(&world, &chunk, 6, 5, 5, 0, &BlockType::Stone));
    assert!(should_render_face(&world, &chunk, 5, 5, 5, 0, &BlockType::Water));
    assert!(should_render_face(&world, &chunk, 5, 5, 5, 3, &BlockType::Water));
    assert!(should_render_face(&world, &chunk, 4, 5, 5, 1, &BlockType::Leaves));
    assert!(should_render_face(&world, &chunk, 4, 5, 5, 0, &BlockType::Leaves));
}

#[test]
fn boundary_face_is_drawn_towards_a_missing_chunk() {
    let mut chunk = Chunk::new(0, 0);
    chunk.set_block(0, 5, 5, BlockType::Stone);
    chunk.set_block(15, 5, 15, BlockType::Stone);
    let world = World::new();
    assert!(should_render_face(&world, &chunk, 0, 5, 5, 0, &BlockType::Stone));
    assert!(should_render_face(&world, &chunk, 15, 5, 15, 1, &BlockType::Stone));
    assert!(should_render_face(&world, &chunk, 15, 5, 15, 5, &BlockType::Stone));
}

#[test]
fn boundary_face_follows_the_neighbouring_chunk() {
    let mut chunk = Chunk::new(0, 0);
    chunk.set_block(0, 5, 5, BlockType::Stone);
    chunk.set_block(0, 6, 5, BlockType::Stone);
    let mut left = Chunk::new(-1, 0);
    left.set_block(15, 5, 5, BlockType::Stone);
    let mut world = World::new();
    assert!(world.insert_chunk(left));
    assert!(!should_render_face(&world, &chunk, 0, 5, 5, 0, &BlockType::Stone));
    assert!(should_render_face(&world, &chunk, 0, 6, 5, 0, &BlockType::Stone));
    let mesh = generate_chunk_mesh(&world, &chunk);
    assert_eq!(mesh.vertex_count(), 9 * 6);
}

#[test]
fn faces_at_the_bottom_and_top_of_the_world_are_drawn() {
    let mut chunk = Chunk::new(0, 0);
    chunk.set_block(3, 0, 3, BlockType::Stone);
    chunk.set_block(3, 255, 3, BlockType::Stone);
    let mut copy = Chunk::new(0, 0);
    copy.set_block(3, 0, 3, BlockType::Stone);
    copy.set_block(3, 255, 3, BlockType::Stone);
    let world = world_with(copy);
    assert!(should_render_face(&world, &chunk, 3, 0, 3, 2, &BlockType::Stone));
    assert!(should_render_face(&world, &chunk, 3, 255, 3, 3, &BlockType::Stone));
    assert_eq!(generate_chunk_mesh(&world, &chunk).vertex_count(), 72);
}

#[test]
fn mesh_follows_scan_order() {
    let vertices = mesh_of(|c| {
        c.set_block(2, 9, 1, BlockType::Stone);
        c.set_block(2, 3, 7, BlockType::Dirt);
        c.set_block(1, 200, 15, BlockType::Grass);
        c.set_block(2, 3, 6, BlockType::OakLog);
    });
    assert_eq!(vertices.len(), 132);
    assert_eq!(vertices[0].x, 10);
    assert_eq!(vertices[0].y, 2000);
    assert_eq!(vertices[36].y / 10, 3);
    assert_eq!(vertices[36].z / 10, 6);
    assert_eq!(vertices[36].u, 5);
    assert_eq!(vertices[36 + 30].z / 10, 7);
    assert_eq!(vertices[36 + 30].u, 0);
    assert_eq!(vertices[36 + 60].y / 10, 9);
    assert_eq!(vertices[36 + 60].u, 1);
}

#[test]
fn occlusion_is_darkest_when_both_edges_are_solid() {
    let mut chunk = Chunk::new(0, 0);
    chunk.set_block(5, 5, 5, BlockType::Stone);
    chunk.set_block(4, 6, 5, BlockType::Stone);
    chunk.set_block(5, 6, 6, BlockType::Stone);
    assert_eq!(calculate_ao(&chunk, 5, 5, 5, 3, 0), 1);
    chunk.set_block(4, 6, 6, BlockType::Stone);
    assert_eq!(calculate_ao(&chunk, 5, 5, 5, 3, 0), 1);
}

#[test]
fn occlusion_is_full_light_without_solid_neighbours() {
    let mut chunk = Chunk::new(0, 0);
    chunk.set_block(5, 5, 5, BlockType::Stone);
    chunk.set_block(4, 6, 5, BlockType::Water);
    for face in 0..6 {
        for corner in 0..4 {
            assert_eq!(calculate_ao(&chunk, 5, 5, 5, face, corner), 4);
        }
    }
}

#[test]
fn occlusion_of_the_corners_of_one_top_face() {
    let mut chunk = Chunk::new(0, 0);
    chunk.set_block(5, 5, 5, BlockType::Stone);
    chunk.set_block(4, 6, 5, BlockType::Stone);
    chunk.set_block(5, 6, 6, BlockType::Stone);
    assert_eq!(calculate_ao(&chunk, 5, 5, 5, 3, 0), 1);
    assert_eq!(calculate_ao(&chunk, 5, 5, 5, 3, 1), 3);
    assert_eq!(calculate_ao(&chunk, 5, 5, 5, 3, 2), 4);
    assert_eq!(calculate_ao(&chunk, 5, 5, 5, 3, 3), 3);
}

#[test]
fn mesh_carries_the_occlusion_of_each_corner() {
    let vertices = mesh_of(|c| {
        c.set_block(5, 5, 5, BlockType::Stone);
        c.set_block(4, 6, 5, BlockType::Stone);
        c.set_block(5, 6, 6, BlockType::Stone);
    });
    let top: Vec<&Vertex> = vertices.iter().filter(|v| v.ny == 1 && v.y == 60).collect();
    assert_eq!(top.len(), 6);
    for v in top {
        let expected = match (v.x, v.z) {
            (50, 60) => 1,
            (60, 50) => 4,
            (50, 50) => 3,
            (60, 60) => 3,
            _ => 0,
        };
        assert_eq!(v.ao, expected);
    }
}

#[test]
fn occlusion_loses_a_quarter_per_solid_sample() {
    let mut chunk = Chunk::new(0, 0);
    chunk.set_block(5, 5, 5, BlockType::Stone);
    chunk.set_block(6, 6, 5, BlockType::Stone);
    assert_eq!(calculate_ao(&chunk, 5, 5, 5, 3, 1), 3);
    assert_eq!(calculate_ao(&chunk, 5, 5, 5, 3, 2), 3);
    assert_eq!(calculate_ao(&chunk, 5, 5, 5, 3, 0), 4);
    assert_eq!(calculate_ao(&chunk, 5, 5, 5, 3, 3), 4);
    chunk.set_block(6, 6, 6, BlockType::Leaves);
    assert_eq!(calculate_ao(&chunk, 5, 5, 5, 3, 1), 2);
    assert_eq!(calculate_ao(&chunk, 5, 5, 5, 3, 2), 3);
    let mut other = Chunk::new(0, 0);
    other.set_block(4, 6, 6, BlockType::Dirt);
    assert_eq!(calculate_ao(&other, 5, 5, 5, 3, 0), 3);
    assert_eq!(calculate_ao(&other, 5, 5, 5, 3, 3), 4);
}

#[test]
fn occlusion_of_a_side_face_samples_beside_that_face() {
    let mut chunk = Chunk::new(0, 0);
    chunk.set_block(5, 5, 5, BlockType::Stone);
    chunk.set_block(4, 6, 5, BlockType::Stone);
    chunk.set_block(4, 5, 6, BlockType::Stone);
    assert_eq!(calculate_ao(&chunk, 5, 5, 5, 0, 0), 4);
    assert_eq!(calculate_ao(&chunk, 5, 5, 5, 0, 1), 3);
    assert_eq!(calculate_ao(&chunk, 5, 5, 5, 0, 2), 1);
    assert_eq!(calculate_ao(&chunk, 5, 5, 5, 0, 3), 3);
    for corner in 0..4 {
        assert_eq!(calculate_ao(&chunk, 5, 5, 5, 1, corner), 4);
    }
    let mut below = Chunk::new(0, 0);
    below.set_block(5, 5, 5, BlockType::Stone);
    below.set_block(6, 4, 4, BlockType::Stone);
    assert_eq!(calculate_ao(&below, 5, 5, 5, 2, 1), 3);
    assert_eq!(calculate_ao(&below, 5, 5, 5, 2, 0), 4);
    assert_eq!(calculate_ao(&below, 5, 5, 5, 4, 0), 3);
    assert_eq!(calculate_ao(&below, 5, 5, 5, 1, 3), 3);
}

#[test]
fn occlusion_ignores_cells_outside_the_chunk() {
    let mut chunk = Chunk::new(0, 0);
    chunk.set_block(0, 255, 0, BlockType::Stone);
    for face in 0..6 {
        for corner in 0..4 {
            assert_eq!(calculate_ao(&chunk, 0, 255, 0, face, corner), 4);
        }
    }
    assert_eq!(calculate_ao(&chunk, i32::MAX, i32::MAX, i32::MIN, 3, 2), 4);
}

#[test]
fn occlusion_samples_lie_beside_the_face_towards_the_corner() {
    assert_eq!(get_ao_neighbors(3, 0), ((-1, 1, 0), (0, 1, 1), (-1, 1, 1)));
    assert_eq!(get_ao_neighbors(3, 1), ((1, 1, 0), (0, 1, 1), (1, 1, 1)));
    assert_eq!(get_ao_neighbors(3, 2), ((1, 1, 0), (0, 1, -1), (1, 1, -1)));
    assert_eq!(get_ao_neighbors(3, 3), ((-1, 1, 0), (0, 1, -1), (-1, 1, -1)));
    assert_eq!(get_ao_neighbors(0, 0), ((-1, -1, 0), (-1, 0, -1), (-1, -1, -1)));
    assert_eq!(get_ao_neighbors(0, 2), ((-1, 1, 0), (-1, 0, 1), (-1, 1, 1)));
    assert_eq!(get_ao_neighbors(1, 0), ((1, -1, 0), (1, 0, 1), (1, -1, 1)));
    assert_eq!(get_ao_neighbors(2, 1), ((1, -1, 0), (0, -1, -1), (1, -1, -1)));
    assert_eq!(get_ao_neighbors(4, 0), ((1, 0, -1), (0, -1, -1), (1, -1, -1)));
    assert_eq!(get_ao_neighbors(5, 2), ((1, 0, 1), (0, 1, 1), (1, 1, 1)));
}

#[test]
fn occlusion_samples_differ_between_the_corners_of_a_face() {
    for face in 0..6 {
        for a in 0..4 {
            for b in 0..4 {
                if a != b {
                    assert_ne!(get_ao_neighbors(face, a), get_ao_neighbors(face, b));
                }
            }
        }
    }
}

#[test]
fn solidity_is_read_inside_the_chunk_only() {
    let mut chunk = Chunk::new(0, 0);
    chunk.set_block(0, 0, 0, BlockType::Stone);
    chunk.set_block(1, 0, 0, BlockType::Water);
    chunk.set_block(2, 0, 0, BlockType::Leaves);
    assert!(is_solid_at(&chunk, 0, 0, 0));
    assert!(!is_solid_at(&chunk, 1, 0, 0));
    assert!(is_solid_at(&chunk, 2, 0, 0));
    assert!(!is_solid_at(&chunk, 3, 0, 0));
    assert!(!is_solid_at(&chunk, -1, 0, 0));
    assert!(!is_solid_at(&chunk, 0, 256, 0));
    assert!(!is_solid_at(&chunk, 0, 0, 16));
}

#[test]
fn add_face_appends_six_vertices() {
    let mut chunk = Chunk::new(0, 0);
    chunk.set_block(2, 3, 4, BlockType::Grass);
    chunk.set_block(2, 4, 5, BlockType::Stone);
    chunk.set_block(3, 3, 5, BlockType::Stone);
    chunk.set_block(3, 2, 5, BlockType::Dirt);
    let mut vertices = vec![vertex((0, 0, 0), (0, 0), (0, 0, 0), 4)];
    add_face(&mut vertices, 5, &BlockType::Grass, &chunk, 2, 3, 4);
    let expected = vec![
        vertex((0, 0, 0), (0, 0), (0, 0, 0), 4),
        vertex((20, 30, 50), (3, 1), (0, 0, 1), 4),
        vertex((20, 40, 50), (4, 1), (0, 0, 1), 3),
        vertex((30, 40, 50), (4, 0), (0, 0, 1), 1),
        vertex((20, 30, 50), (3, 1), (0, 0, 1), 4),
        vertex((30, 40, 50), (4, 0), (0, 0, 1), 1),
        vertex((30, 30, 50), (3, 0), (0, 0, 1), 2),
    ];
    assert_eq!(vertices, expected);
}

#[test]
fn atlas_lookup_gives_one_tile_per_face() {
    let faces = [
        (BlockType::Dirt, 0, 0),
        (BlockType::Dirt, 3, 0),
        (BlockType::Stone, 2, 1),
        (BlockType::Grass, 3, 2),
        (BlockType::Grass, 2, 0),
        (BlockType::Grass, 0, 3),
        (BlockType::Grass, 5, 3),
        (BlockType::Water, 3, 4),
        (BlockType::OakLog, 0, 5),
        (BlockType::OakLog, 3, 5),
        (BlockType::OakLog, 4, 6),
        (BlockType::OakLog, 5, 6),
        (BlockType::Leaves, 1, 7),
        (BlockType::Air, 1, 0),
    ];
    for (kind, face, tile) in faces {
        assert_eq!(TextureAtlas::get_uv(&kind, face), (tile, 0, tile + 1, 1));
    }
}

#[test]
fn atlas_pixels_are_coloured_by_tile() {
    let atlas = build_atlas();
    let bytes = atlas.as_raw();
    assert_eq!(bytes.len(), 256 * 256 * 4);
    let pixel = |x: usize, y: usize| {
        let first = 4 * (y * 256 + x);
        (bytes[first], bytes[first + 1], bytes[first + 2], bytes[first + 3])
    };
    let tiles = [
        (139, 90, 43, 255),
        (120, 120, 120, 255),
        (76, 187, 23, 255),
        (139, 90, 43, 255),
        (30, 100, 180, 128),
        (102, 81, 60, 255),
        (156, 126, 96, 255),
        (48, 168, 48, 255),
    ];
    for (tile, colour) in tiles.iter().enumerate() {
        let left = tile * 16;
        assert_eq!(pixel(left, 0), *colour);
        assert_eq!(pixel(left + 15, 15), *colour);
        assert_eq!(pixel(left + 7, 9), *colour);
        assert_eq!(pixel(left, 16), (128, 128, 128, 255));
    }
    assert_eq!(pixel(128, 0), (128, 128, 128, 255));
    assert_eq!(pixel(255, 15), (128, 128, 128, 255));
    assert_eq!(pixel(0, 255), (128, 128, 128, 255));
    assert_eq!(pixel(255, 255), (128, 128, 128, 255));
}

#[test]
fn atlas_holds_grey_outside_its_eight_tiles() {
    let atlas = build_atlas();
    let bytes = atlas.as_raw();
    let mut grey = 0;
    for y in 0..256 {
        for x in 0..256 {
            let first = 4 * (y * 256 + x);
            if bytes[first..first + 4] == [128, 128, 128, 255] {
                grey += 1;
            }
        }
    }
    assert_eq!(grey, 256 * 256 - 8 * 16 * 16);
}
