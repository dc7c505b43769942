//! The texture atlas: which tile of it a face of a block shows, and the image
//! of its tiles.

use vstd::prelude::*;
use crate::block::BlockType;

verus! {

/// Number of tiles along one edge of the atlas. Texture coordinates are
/// counted in tiles, so a coordinate `t` stands for the fraction `t / 16` of
/// the atlas edge.
pub const ATLAS_TILES: u32 = 16;

/// Edge length of the atlas, in pixels.
pub const ATLAS_SIZE: u32 = 256;

/// Edge length of one tile, in pixels.
pub const TILE_SIZE: u32 = 16;

/// The atlas tile shown on face `face` of a block of kind `block_type`.
/// Grass shows its own top, dirt underneath and a side tile elsewhere; an oak
/// log shows its end grain on faces 4 and 5.
pub open spec fn tile_index(block_type: BlockType, face: int) -> int {
    match block_type {
        BlockType::Air => 0,
        BlockType::Dirt => 0,
        BlockType::Stone => 1,
        BlockType::Grass => if face == 3 {
            2
        } else if face == 2 {
            0
        } else {
            3
        },
        BlockType::Water => 4,
        BlockType::OakLog => if face == 4 || face == 5 {
            6
        } else {
            5
        },
        BlockType::Leaves => 7,
    }
}

/// The colour of tile `tile` as red, green, blue and opacity: dirt, stone,
/// grass top, grass side, water, log side, log end, leaves. Water is half
/// transparent. Every other tile number gives the grey that fills the rest of
/// the atlas.
pub open spec fn tile_rgba(tile: int) -> (u8, u8, u8, u8) {
    if tile == 0 {
        (139, 90, 43, 255)
    } else if tile == 1 {
        (120, 120, 120, 255)
    } else if tile == 2 {
        (76, 187, 23, 255)
    } else if tile == 3 {
        (139, 90, 43, 255)
    } else if tile == 4 {
        (30, 100, 180, 128)
    } else if tile == 5 {
        (102, 81, 60, 255)
    } else if tile == 6 {
        (156, 126, 96, 255)
    } else if tile == 7 {
        (48, 168, 48, 255)
    } else {
        (128, 128, 128, 255)
    }
}

/// The colour of pixel `(x, y)` of the atlas: the colour of its tile in the
/// first row of tiles, grey below it.
pub open spec fn pixel_rgba(x: int, y: int) -> (u8, u8, u8, u8) {
    if 0 <= y < TILE_SIZE {
        tile_rgba(x / 16)
    } else {
        tile_rgba(-1)
    }
}

/// An image of red, green, blue and opacity bytes, held by the `image`
/// crate.
#[verifier::external_body]
pub struct AtlasImage {
    image: image::RgbaImage,
}

/// What an image holds: the colour of each pixel, by `(x, y)`.
pub uninterp spec fn image_pixels(img: AtlasImage) -> Map<(int, int), (u8, u8, u8, u8)>;

/// The width and the height that an image was made with.
pub uninterp spec fn image_size(img: AtlasImage) -> (int, int);

/// Whether `(x, y)` is a pixel of `img`.
pub open spec fn in_image(img: AtlasImage, x: int, y: int) -> bool {
    0 <= x < image_size(img).0 && 0 <= y < image_size(img).1
}

/// Whether `bytes`, read as rows of `width` pixels of four bytes each, hold
/// the colour `rgba` at pixel `(x, y)`.
pub open spec fn holds_pixel(
    bytes: Seq<u8>,
    width: int,
    x: int,
    y: int,
    rgba: (u8, u8, u8, u8),
) -> bool {
    let first = 4 * (y * width + x);
    &&& bytes[first] == rgba.0
    &&& bytes[first + 1] == rgba.1
    &&& bytes[first + 2] == rgba.2
    &&& bytes[first + 3] == rgba.3
}

/// `image::RgbaImage::new`: an image of the given size whose pixels are all
/// zero. The size is kept small enough for the buffer to be allocated.
#[verifier::external_body]
fn new_image(width: u32, height: u32) -> (img: AtlasImage)
    requires
        width <= 4096,
        height <= 4096,
    ensures
        image_size(img) == (width as int, height as int),
        forall|x: int, y: int|
            0 <= x < width && 0 <= y < height ==> #[trigger] image_pixels(img)[(x, y)] == (
                0u8,
                0u8,
                0u8,
                0u8,
            ),
{
    AtlasImage { image: image::RgbaImage::new(width, height) }
}

/// `image::ImageBuffer::put_pixel`: sets the pixel at `(x, y)`, which must lie
/// inside the image, and leaves every other pixel and the size as they were.
#[verifier::external_body]
fn put_pixel(img: &mut AtlasImage, x: u32, y: u32, rgba: (u8, u8, u8, u8))
    requires
        in_image(*old(img), x as int, y as int),
    ensures
        image_size(*final(img)) == image_size(*old(img)),
        image_pixels(*final(img)) == image_pixels(*old(img)).insert((x as int, y as int), rgba),
{
    img.image.put_pixel(x, y, image::Rgba([rgba.0, rgba.1, rgba.2, rgba.3]));
}

/// `image::ImageBuffer::as_raw`: the bytes of the image, row after row, four
/// bytes to a pixel in the order red, green, blue, opacity.
#[verifier::external_body]
fn raw_bytes(img: &AtlasImage) -> (bytes: &Vec<u8>)
    ensures
        bytes@.len() == 4 * image_size(*img).0 * image_size(*img).1,
        forall|x: int, y: int|
            in_image(*img, x, y) ==> #[trigger] holds_pixel(
                bytes@,
                image_size(*img).0,
                x,
                y,
                image_pixels(*img)[(x, y)],
            ),
{
    img.image.as_raw()
}

/// Whether `(x, y)` lies in the tile at tile coordinate `(tile_x, tile_y)` of
/// a grid of square tiles of edge `tile_size`.
pub open spec fn in_tile(tile_x: int, tile_y: int, tile_size: int, x: int, y: int) -> bool {
    &&& tile_x * tile_size <= x < tile_x * tile_size + tile_size
    &&& tile_y * tile_size <= y < tile_y * tile_size + tile_size
}

/// Whether `img` is the finished atlas.
pub open spec fn is_atlas(img: AtlasImage) -> bool {
    &&& image_size(img) == (ATLAS_SIZE as int, ATLAS_SIZE as int)
    &&& forall|x: int, y: int|
        in_image(img, x, y) ==> #[trigger] image_pixels(img)[(x, y)] == pixel_rgba(x, y)
}

impl AtlasImage {
    /// The bytes of the image, row after row, four bytes to a pixel in the
    /// order red, green, blue, opacity.
    pub fn as_raw(&self) -> (bytes: &Vec<u8>)
        ensures
            bytes@.len() == 4 * image_size(*self).0 * image_size(*self).1,
            forall|x: int, y: int|
                in_image(*self, x, y) ==> #[trigger] holds_pixel(
                    bytes@,
                    image_size(*self).0,
                    x,
                    y,
                    image_pixels(*self)[(x, y)],
                ),
    {
        raw_bytes(self)
    }
}

/// Paints the tile at tile coordinate `(tile_x, tile_y)` of `img` in one
/// colour. The tile must lie inside the image.
#[verifier::loop_isolation(false)]
fn fill_tile(
    img: &mut AtlasImage,
    tile_x: u32,
    tile_y: u32,
    tile_size: u32,
    color: (u8, u8, u8, u8),
)
    requires
        tile_x * tile_size + tile_size <= image_size(*old(img)).0,
        tile_y * tile_size + tile_size <= image_size(*old(img)).1,
        image_size(*old(img)).0 <= u32::MAX,
        image_size(*old(img)).1 <= u32::MAX,
    ensures
        image_size(*final(img)) == image_size(*old(img)),
        forall|px: int, py: int|
            in_image(*old(img), px, py) ==> #[trigger] image_pixels(*final(img))[(px, py)] == (
            if in_tile(tile_x as int, tile_y as int, tile_size as int, px, py) {
                color
            } else {
                image_pixels(*old(img))[(px, py)]
            }),
{
    let left: u32 = tile_x * tile_size;
    let top: u32 = tile_y * tile_size;
    let mut x: u32 = 0;
    while x < tile_size
        invariant
            x <= tile_size,
            image_size(*img) == image_size(*old(img)),
            forall|px: int, py: int|
                in_image(*old(img), px, py) ==> #[trigger] image_pixels(*img)[(px, py)] == (
                if in_tile(tile_x as int, tile_y as int, tile_size as int, px, py) && px < left
                    + x {
                    color
                } else {
                    image_pixels(*old(img))[(px, py)]
                }),
        decreases tile_size - x,
    {
        let mut y: u32 = 0;
        while y < tile_size
            invariant
                x < tile_size,
                y <= tile_size,
                image_size(*img) == image_size(*old(img)),
                forall|px: int, py: int|
                    in_image(*old(img), px, py) ==> #[trigger] image_pixels(*img)[(px, py)] == (
                    if in_tile(tile_x as int, tile_y as int, tile_size as int, px, py) && (px
                        < left + x || (px == left + x && py < top + y)) {
                        color
                    } else {
                        image_pixels(*old(img))[(px, py)]
                    }),
            decreases tile_size - y,
        {
            put_pixel(img, left + x, top + y, color);
            y = y + 1;
        }
        x = x + 1;
    }
}

/// Paints the atlas: grey all over, then the eight tiles of the first row.
#[verifier::loop_isolation(false)]
pub fn build_atlas() -> (img: AtlasImage)
    ensures
        is_atlas(img),
{
    let mut img = new_image(ATLAS_SIZE, ATLAS_SIZE);
    let mut x: u32 = 0;
    while x < ATLAS_SIZE
        invariant
            x <= ATLAS_SIZE,
            image_size(img) == (ATLAS_SIZE as int, ATLAS_SIZE as int),
            forall|px: int, py: int|
                in_image(img, px, py) && px < x ==> #[trigger] image_pixels(img)[(px, py)] == (
                    128u8,
                    128u8,
                    128u8,
                    255u8,
                ),
        decreases ATLAS_SIZE - x,
    {
        let mut y: u32 = 0;
        while y < ATLAS_SIZE
            invariant
                x < ATLAS_SIZE,
                y <= ATLAS_SIZE,
                image_size(img) == (ATLAS_SIZE as int, ATLAS_SIZE as int),
                forall|px: int, py: int|
                    in_image(img, px, py) && (px < x || (px == x && py < y))
                        ==> #[trigger] image_pixels(img)[(px, py)] == (128u8, 128u8, 128u8, 255u8),
            decreases ATLAS_SIZE - y,
        {
            put_pixel(&mut img, x, y, (128, 128, 128, 255));
            y = y + 1;
        }
        x = x + 1;
    }
    fill_tile(&mut img, 0, 0, TILE_SIZE, (139, 90, 43, 255));
    fill_tile(&mut img, 1, 0, TILE_SIZE, (120, 120, 120, 255));
    fill_tile(&mut img, 2, 0, TILE_SIZE, (76, 187, 23, 255));
    fill_tile(&mut img, 3, 0, TILE_SIZE, (139, 90, 43, 255));
    fill_tile(&mut img, 4, 0, TILE_SIZE, (30, 100, 180, 128));
    fill_tile(&mut img, 5, 0, TILE_SIZE, (102, 81, 60, 255));
    fill_tile(&mut img, 6, 0, TILE_SIZE, (156, 126, 96, 255));
    fill_tile(&mut img, 7, 0, TILE_SIZE, (48, 168, 48, 255));
    img
}

/// Handle of the atlas texture on the graphics device.
pub struct TextureAtlas {
    pub id: u32,
}

impl TextureAtlas {
    /// The rectangle `(u_min, v_min, u_max, v_max)` of the atlas that face
    /// `face` of a block of kind `block_type` shows, in tiles: one tile wide,
    /// in the first row of the atlas.
    pub fn get_uv(block_type: &BlockType, face: usize) -> (uv: (u32, u32, u32, u32))
        ensures
            uv.0 == tile_index(*block_type, face as int),
            uv.1 == 0,
            uv.2 == tile_index(*block_type, face as int) + 1,
            uv.3 == 1,
    {
        let tile: u32 = match block_type {
            BlockType::Dirt => 0,
            BlockType::Stone => 1,
            BlockType::Grass => {
                if face == 3 {
                    2
                } else if face == 2 {
                    0
                } else {
                    3
                }
            },
            BlockType::Water => 4,
            BlockType::OakLog => {
                if face == 4 || face == 5 {
                    6
                } else {
                    5
                }
            },
            BlockType::Leaves => 7,
            BlockType::Air => 0,
        };
        (tile, 0, tile + 1, 1)
    }
}

} // verus!
