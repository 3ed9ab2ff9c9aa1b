//! The screen as an RGBA image of the `image` crate.

use vstd::prelude::*;
use crate::gpu::gpu::{OAM_Table, SCREEN_PIXELS, SCREEN_WIDTH, TileMap, create_background_shades, pixel_color_map, screen_shades, shade_color};
use crate::gpu::gpu_registers::{GPU_Registers};
use crate::system::{SystemData};
use image::RgbaImage;

verus! {

/// The screen as an RGBA image of the `image` crate, which Verus does not
/// see into: `screen_pixels` and `screen_width` name what it holds.
#[verifier::external_body]
pub struct ScreenImage {
    image: RgbaImage,
}

/// The pixels of a screen image, row by row, each as its red, green, blue
/// and alpha bytes.
pub uninterp spec fn screen_pixels(image: ScreenImage) -> Seq<(u8, u8, u8, u8)>;

/// The width a screen image was made with.
pub uninterp spec fn screen_width(image: ScreenImage) -> u32;

/// `ImageBuffer::new(width, height)` of the `image` crate. Its source
/// allocates width * height pixels of four zero bytes each; it panics when
/// that many bytes do not fit in a `usize`, and a vector cannot hold more
/// than `isize::MAX` bytes, which `requires` leaves out. Whether the
/// allocator can supply the buffer depends on the machine and is not stated.
#[verifier::external_body]
fn new_screen_image(width: u32, height: u32) -> (image: ScreenImage)
    requires
        4 * width * height <= isize::MAX,
    ensures
        screen_width(image) == width,
        screen_pixels(image) == Seq::new((width * height) as nat, |i: int| (0u8, 0u8, 0u8, 0u8)),
{
    ScreenImage { image: image::ImageBuffer::new(width, height) }
}

/// `ImageBuffer::put_pixel(x, y, Rgba(pixel))` of the `image` crate. Its
/// source stores the pixel at index `y * width + x` and leaves every other
/// pixel and the width as they were; it panics when `x` or `y` is out of
/// bounds, which `requires` leaves out.
#[verifier::external_body]
fn put_screen_pixel(image: &mut ScreenImage, x: u32, y: u32, pixel: [u8; 4])
    requires
        x < screen_width(*old(image)),
        y * screen_width(*old(image)) + x < screen_pixels(*old(image)).len(),
    ensures
        screen_width(*final(image)) == screen_width(*old(image)),
        screen_pixels(*final(image)) == screen_pixels(*old(image)).update(
            y * screen_width(*old(image)) + x,
            (pixel@[0], pixel@[1], pixel@[2], pixel@[3]),
        ),
{
    image.image.put_pixel(x, y, image::Rgba(pixel));
}

/// `ImageBuffer::into_raw` of the `image` crate: its source hands back the
/// buffer of the image, four bytes per pixel (red, green, blue, alpha), row
/// by row.
#[verifier::external_body]
fn screen_bytes(image: ScreenImage) -> (bytes: Vec<u8>)
    ensures
        bytes@ == rgba_bytes(screen_pixels(image)),
{
    image.image.into_raw()
}

/// Pixels as bytes, four per pixel in the order red, green, blue, alpha.
pub open spec fn rgba_bytes(pixels: Seq<(u8, u8, u8, u8)>) -> Seq<u8> {
    Seq::new(
        4 * pixels.len(),
        |k: int|
            {
                let p = pixels[k / 4];
                if k % 4 == 0 {
                    p.0
                } else if k % 4 == 1 {
                    p.1
                } else if k % 4 == 2 {
                    p.2
                } else {
                    p.3
                }
            },
    )
}

impl ScreenImage {
    /// The bytes of the image, four per pixel (red, green, blue, alpha), row
    /// by row.
    pub fn into_bytes(self) -> (bytes: Vec<u8>)
        ensures
            bytes@ == rgba_bytes(screen_pixels(self)),
    {
        screen_bytes(self)
    }
}

/// The four bytes of a colour as a pixel of an RGBA image.
pub open spec fn rgba_of(color: [u8; 4]) -> (u8, u8, u8, u8) {
    (color@[0], color@[1], color@[2], color@[3])
}

/// The colour of each shade of the screen (see `screen_shades`), as a
/// 160 x 144 image.
pub fn create_background_img(
    background_tile_map: &TileMap,
    window_tile_map: &TileMap,
    gpu_registers: &GPU_Registers,
    system_data: &SystemData,
    oam_table: &OAM_Table,
    oam_tile_map: &TileMap,
) -> (image: ScreenImage)
    requires
        background_tile_map.wf(),
        window_tile_map.wf(),
        oam_tile_map.wf(),
        gpu_registers.wf(),
        system_data.wf(),
        gpu_registers.lcdc_register.window_enable ==> gpu_registers.lcd_position.window_x >= 7,
    ensures
        screen_width(image) == SCREEN_WIDTH,
        screen_pixels(image) == Seq::new(
            SCREEN_PIXELS as nat,
            |q: int|
                rgba_of(
                    shade_color(
                        screen_shades(
                            *background_tile_map,
                            *window_tile_map,
                            *gpu_registers,
                            system_data.memory(),
                            *oam_table,
                            *oam_tile_map,
                        )[q],
                        gpu_registers.shade_profile,
                    ),
                ),
        ),
{
    let shades = create_background_shades(
        background_tile_map,
        window_tile_map,
        gpu_registers,
        system_data,
        oam_table,
        oam_tile_map,
    );
    let ghost target = Seq::new(
        SCREEN_PIXELS as nat,
        |q: int| rgba_of(shade_color(shades@[q], gpu_registers.shade_profile)),
    );
    let mut image = new_screen_image(160, 144);
    let mut row_y: u32 = 0;
    while row_y < 144
        invariant
            row_y <= 144,
            shades@.len() == SCREEN_PIXELS,
            target == Seq::new(SCREEN_PIXELS as nat, |q: int| rgba_of(shade_color(shades@[q], gpu_registers.shade_profile))),
            screen_width(image) == 160,
            screen_pixels(image).len() == SCREEN_PIXELS,
            forall|q: int| 0 <= q < row_y * 160 ==> #[trigger] screen_pixels(image)[q] == target[q],
            forall|q: int| row_y * 160 <= q < SCREEN_PIXELS ==> #[trigger] screen_pixels(image)[q] == (0u8, 0u8, 0u8, 0u8),
        decreases 144 - row_y,
    {
        let mut row_x: u32 = 0;
        while row_x < 160
            invariant
                row_y < 144,
                row_x <= 160,
                shades@.len() == SCREEN_PIXELS,
                target == Seq::new(SCREEN_PIXELS as nat, |q: int| rgba_of(shade_color(shades@[q], gpu_registers.shade_profile))),
            target == Seq::new(SCREEN_PIXELS as nat, |q: int| rgba_of(shade_color(shades@[q], gpu_registers.shade_profile))),
                screen_width(image) == 160,
                screen_pixels(image).len() == SCREEN_PIXELS,
                forall|q: int| 0 <= q < row_y * 160 + row_x ==> #[trigger] screen_pixels(image)[q] == target[q],
                forall|q: int|
                    row_y * 160 + row_x <= q < SCREEN_PIXELS ==> #[trigger] screen_pixels(image)[q] == (0u8, 0u8, 0u8, 0u8),
            decreases 160 - row_x,
        {
            let index = (row_y * 160 + row_x) as usize;
            let pixel = pixel_color_map(shades[index], &gpu_registers.shade_profile);
            put_screen_pixel(&mut image, row_x, row_y, pixel);
            row_x = row_x + 1;
        }
        row_y = row_y + 1;
    }
    proof {
        assert(screen_pixels(image) =~= target);
    }
    image
}

} // verus!
