//! Properties of the display model that hold for every input.

use vstd::prelude::*;
use crate::bits::{lemma_and_at_most_mask};
use crate::gpu::gpu::{SCREEN_PIXELS, SpriteAttribute, TileData, TileMap, background_pixel, draw_sprite, gpu_updated, shade_of, tile_data_base, tile_pixel};
use crate::gpu::gpu_registers::{GPU_Registers, LINES_PER_FRAME, next_line};

verus! {

/// The scan line after `n` further lines from `value`.
pub open spec fn lines_after(value: u8, n: nat) -> u8
    decreases n,
{
    if n == 0 {
        value
    } else {
        next_line(lines_after(value, (n - 1) as nat))
    }
}

/// The scan line counts modulo 154: from any line of the frame, `n` lines on
/// it is at `(value + n) % 154`, so a whole frame of 154 lines comes back to
/// the same line.
pub proof fn law_lines_count_modulo_frame(value: u8, n: nat)
    requires
        value < LINES_PER_FRAME,
    ensures
        lines_after(value, n) == (value + n) % (LINES_PER_FRAME as int),
        lines_after(value, LINES_PER_FRAME as nat) == value,
{
    lemma_lines_after_mod(value, n);
    lemma_lines_after_mod(value, LINES_PER_FRAME as nat);
}

proof fn lemma_lines_after_mod(value: u8, n: nat)
    requires
        value < LINES_PER_FRAME,
    ensures
        lines_after(value, n) == (value + n) % (LINES_PER_FRAME as int),
    decreases n,
{
    if n > 0 {
        lemma_lines_after_mod(value, (n - 1) as nat);
    }
}

/// Every pixel of a tile is a colour number from 0 to 3.
pub proof fn law_tile_pixels_are_colour_numbers(m: Seq<u8>, lcdc_data_select: bool, tile_index: u8, k: int)
    requires
        0 <= k < 64,
    ensures
        tile_pixel(m, lcdc_data_select, tile_index, k) < 4,
{
    let address = tile_data_base(lcdc_data_select) + tile_index * 16 + 2 * (k / 8);
    let shift = (7 - k % 8) as u8;
    lemma_and_at_most_mask(m[address + 1] >> shift, 1);
    lemma_and_at_most_mask(m[address] >> shift, 1);
}

/// A palette gives every colour number a shade from 0 to 3.
pub proof fn law_palette_gives_shades(pixel_data: u8, palette_data: u8)
    requires
        pixel_data < 4,
    ensures
        shade_of(pixel_data, palette_data) < 4,
{
    let p = palette_data;
    assert(p & 0x03 < 4 && (p & 0x0C) >> 2 < 4 && (p & 0x30) >> 4 < 4 && (p & 0xC0) >> 6 < 4) by (bit_vector);
}

/// What a sprite pixel shows: a colour number other than 0 in the shade the
/// palette gives it, and colour 0 lets what is underneath show through.
pub open spec fn drawn_over(colour: u8, palette: u8, under: u8) -> u8 {
    if colour != 0 {
        shade_of(colour, palette)
    } else {
        under
    }
}

/// An 8 x 8 sprite with flag bit 5 set (and 6 clear) is drawn mirrored left
/// to right: screen pixel (row, col) of the sprite shows the tile's colour
/// at (row, 7 - col). With bit 6 set (and 5 clear) it is mirrored top to
/// bottom: it shows the tile's colour at (7 - row, col). Stated for a sprite
/// in palette 0 without the priority bit.
pub proof fn law_sprite_flips_mirror(
    b: Seq<u8>,
    tiles: Seq<TileData>,
    sprite: SpriteAttribute,
    palette_0: u8,
    palette_1: u8,
    q: int,
)
    requires
        b.len() == SCREEN_PIXELS,
        0 <= q < SCREEN_PIXELS,
        sprite.flags & 0x80 == 0,
        sprite.flags & 0x10 == 0,
        0 <= q / 160 - (sprite.y_position - 16) < 8,
        0 <= q % 160 - (sprite.x_position - 8) < 8,
    ensures
        ({
            let row = q / 160 - (sprite.y_position - 16);
            let col = q % 160 - (sprite.x_position - 8);
            let tile = tiles[sprite.tile_number as int].data@;
            let drawn = draw_sprite(b, tiles, sprite, palette_0, palette_1, false)[q];
            &&& (sprite.flags & 0x20 != 0 && sprite.flags & 0x40 == 0) ==> drawn == drawn_over(
                tile[row * 8 + (7 - col)],
                palette_0,
                b[q],
            )
            &&& (sprite.flags & 0x40 != 0 && sprite.flags & 0x20 == 0) ==> drawn == drawn_over(
                tile[(7 - row) * 8 + col],
                palette_0,
                b[q],
            )
        }),
{
}

/// An 8 x 16 sprite with flag bit 6 set (and 5 clear) is drawn mirrored top
/// to bottom: screen row `row` of the sprite shows row 15 - row of the pair
/// of tiles, the even tile above the odd one. Stated for a sprite in palette
/// 0 on a line where the tall sprite is drawn.
pub proof fn law_tall_sprite_flips_mirror(
    b: Seq<u8>,
    tiles: Seq<TileData>,
    sprite: SpriteAttribute,
    palette_0: u8,
    palette_1: u8,
    q: int,
)
    requires
        b.len() == SCREEN_PIXELS,
        0 <= q < SCREEN_PIXELS,
        sprite.flags & 0x10 == 0,
        sprite.flags & 0x40 != 0,
        sprite.flags & 0x20 == 0,
        0 <= q / 160 - (sprite.y_position - 16) < 16,
        0 <= q % 160 - (sprite.x_position - 8) < 8,
        q / 160 - (sprite.y_position - 16) < 8 ==> q / 160 + 8 < 144,
        q / 160 - (sprite.y_position - 16) >= 8 ==> q / 160 >= 8,
    ensures
        ({
            let row = q / 160 - (sprite.y_position - 16);
            let col = q % 160 - (sprite.x_position - 8);
            let flipped = 15 - row;
            let colour = if flipped < 8 {
                tiles[(sprite.tile_number & 0xFE) as int].data@[flipped * 8 + col]
            } else {
                tiles[(sprite.tile_number | 0x01) as int].data@[(flipped - 8) * 8 + col]
            };
            draw_sprite(b, tiles, sprite, palette_0, palette_1, true)[q] == drawn_over(colour, palette_0, b[q])
        }),
{
}

/// Background pixel (x, y) = (p % 256, p / 256) shows pixel (y % 8, x % 8) of
/// the tile that map entry e = map[(y / 8) * 32 + x / 8] names. With the
/// 0x8000 data area that is tile e; with the 0x8800 area e is a signed
/// number from -128 to 127 and the tile is e + 128, so entry 0x80 shows
/// tile 0 and entry 0 shows tile 128.
pub proof fn law_background_tile_numbers(tile_map: TileMap, palette_data: u8, p: int)
    requires
        0 <= p < 0x10000,
    ensures
        ({
            let x = p % 256;
            let y = p / 256;
            let e = tile_map.map@[(y / 8) * 32 + x / 8];
            let number = if e < 128 { e as int } else { e - 256 };
            let k = (y % 8) * 8 + x % 8;
            &&& background_pixel(tile_map, true, palette_data, true, p) == shade_of(
                tile_map.tiles@[e as int].data@[k],
                palette_data,
            )
            &&& background_pixel(tile_map, false, palette_data, true, p) == shade_of(
                tile_map.tiles@[number + 128].data@[k],
                palette_data,
            )
        }),
{
}

/// After the picture processor is updated, LCDC holds the byte at 0xFF40 with
/// bit 7 display enable, 6 window map select, 5 window enable, 4 tile data
/// select, 3 background map select, 2 sprite size, 1 sprite enable and 0
/// background enable; STAT holds the byte at 0xFF41 with bit 6 LYC
/// interrupt, 5 OAM interrupt, 4 vertical blank interrupt, 3 horizontal
/// blank interrupt, 2 coincidence and bits 0-1 the mode.
pub proof fn law_update_decodes_lcdc_and_stat(before: GPU_Registers, after: GPU_Registers, cycles: u8, m: Seq<u8>)
    requires
        m.len() == 0x10000,
        gpu_updated(before, after, cycles, m),
    ensures
        ({
            let v = m[0xFF40];
            let lcdc = after.lcdc_register;
            &&& lcdc.value == v
            &&& lcdc.display_enable == ((v >> 7u8) & 1 == 1)
            &&& lcdc.window_display_select == ((v >> 6u8) & 1 == 1)
            &&& lcdc.window_enable == ((v >> 5u8) & 1 == 1)
            &&& lcdc.tile_data == ((v >> 4u8) & 1 == 1)
            &&& lcdc.background_display_select == ((v >> 3u8) & 1 == 1)
            &&& lcdc.sprite_size == ((v >> 2u8) & 1 == 1)
            &&& lcdc.sprite_enable == ((v >> 1u8) & 1 == 1)
            &&& lcdc.background_enable == (v & 1 == 1)
        }),
        ({
            let s = m[0xFF41];
            let stat = after.lcdc_status;
            &&& stat.value == s
            &&& stat.lyc_ly_coincidence_interrupt == ((s >> 6u8) & 1 == 1)
            &&& stat.mode_2_oam_interrupt == ((s >> 5u8) & 1 == 1)
            &&& stat.mode_1_v_blank_interrupt == ((s >> 4u8) & 1 == 1)
            &&& stat.mode_0_h_blank_interrupt == ((s >> 3u8) & 1 == 1)
            &&& stat.coincidence_flag == ((s >> 2u8) & 1 == 1)
            &&& stat.mode_flag == s & 3
        }),
{
    let v = m[0xFF40];
    assert(v >> 0u8 == v) by (bit_vector);
}

} // verus!
