use vstd::prelude::*;
use crate::bits::{lemma_and_at_most_mask};
use crate::gpu::gpu_registers::{FRAME_CYCLES, GPU_Registers, LCDC_Register, LCDC_Status, LCD_Position, LINES_PER_FRAME, LINE_CYCLES, LY_Register, ShadeProfile, next_line};
use crate::system::{Registers, SystemData, same_but_memory_and_cycles};
use vstd::arithmetic::div_mod::{lemma_fundamental_div_mod, lemma_fundamental_div_mod_converse};

verus! {

/// Width of the visible screen in pixels.
pub const SCREEN_WIDTH: usize = 160;
/// Number of pixels on the visible screen.
pub const SCREEN_PIXELS: usize = 0x5A00;
/// Number of pixels of the full 256 x 256 background.
pub const BACKGROUND_PIXELS: usize = 0x10000;

// ---------------------------------------------------------------------------
// Tiles and tile maps
// ---------------------------------------------------------------------------

/// The 64 pixels (2-bit colour numbers, row by row) of one 8 x 8 tile.
#[derive(Debug)]
pub struct TileData {
    pub data: Vec<u8>,
}

impl TileData {
    /// Holds 64 pixels.
    pub open spec fn wf(&self) -> bool {
        self.data@.len() == 64
    }

    /// A tile of 64 zero pixels.
    pub fn new() -> (tile: TileData)
        ensures
            tile.wf(),
            forall|k: int| 0 <= k < 64 ==> #[trigger] tile.data@[k] == 0,
    {
        let mut data: Vec<u8> = Vec::new();
        let mut k: usize = 0;
        while k < 64
            invariant
                k <= 64,
                data@.len() == k,
                forall|j: int| 0 <= j < k ==> #[trigger] data@[j] == 0,
            decreases 64 - k,
        {
            data.push(0);
            k = k + 1;
        }
        TileData { data }
    }
}

/// Start of the tile data area that LCDC bit 4 selects.
pub open spec fn tile_data_base(lcdc_data_select: bool) -> int {
    if lcdc_data_select {
        0x8000
    } else {
        0x8800
    }
}

/// Pixel `k` (row k / 8, column k % 8) of tile `tile_index`: each row is two
/// bytes, the first holding the low bit of each pixel and the second the high
/// bit, the leftmost pixel in bit 7.
pub open spec fn tile_pixel(m: Seq<u8>, lcdc_data_select: bool, tile_index: u8, k: int) -> u8 {
    let address = tile_data_base(lcdc_data_select) + tile_index * 16 + 2 * (k / 8);
    let shift = (7 - k % 8) as u8;
    (((m[address + 1] >> shift) & 1) * 2 + ((m[address] >> shift) & 1)) as u8
}

/// The 64 pixels of tile `tile_index`.
pub open spec fn tile_pixels(m: Seq<u8>, lcdc_data_select: bool, tile_index: u8) -> Seq<u8> {
    Seq::new(64, |k: int| tile_pixel(m, lcdc_data_select, tile_index, k))
}

/// Decodes tile `tile_index` from the tile data area that `lcdc_data_select`
/// names (0x8000 when set, 0x8800 otherwise).
pub fn get_tile_data(tile_index: u8, system_data: &mut SystemData, lcdc_data_select: bool) -> (tile: TileData)
    requires
        old(system_data).wf(),
    ensures
        tile.data@ == tile_pixels(old(system_data).memory(), lcdc_data_select, tile_index),
        *final(system_data) == *old(system_data),
{
    let vram_offset: u16 = if lcdc_data_select { 0x8000 } else { 0x8800 };
    let mem_loc: u16 = vram_offset + tile_index as u16 * 16;
    let mut data: Vec<u8> = Vec::new();
    let mut k: u16 = 0;
    while k < 64
        invariant
            k <= 64,
            system_data.wf(),
            mem_loc == tile_data_base(lcdc_data_select) + tile_index * 16,
            data@.len() == k,
            forall|j: int| 0 <= j < k ==> #[trigger] data@[j] == tile_pixel(system_data.memory(), lcdc_data_select, tile_index, j),
        decreases 64 - k,
    {
        let byte_pair = k / 8;
        let bit = (k % 8) as u8;
        let address = mem_loc + 2 * byte_pair;
        let lower_byte = system_data.mmu.mem_map[address as usize];
        let upper_byte = system_data.mmu.mem_map[address as usize + 1];
        let upper_bit: u8 = (upper_byte >> (7 - bit)) & 0x01;
        let lower_bit: u8 = (lower_byte >> (7 - bit)) & 0x01;
        proof {
            lemma_and_at_most_mask(upper_byte >> (7 - bit), 0x01);
            lemma_and_at_most_mask(lower_byte >> (7 - bit), 0x01);
        }
        data.push(upper_bit * 2 + lower_bit);
        k = k + 1;
    }
    proof {
        assert(data@ =~= tile_pixels(system_data.memory(), lcdc_data_select, tile_index));
    }
    TileData { data }
}

/// The 256 tiles of a tile data area and the 32 x 32 tile numbers of a
/// background map.
pub struct TileMap {
    pub tiles: Vec<TileData>,
    pub map: Vec<u8>,
}

/// Start of the background map that an LCDC map-select bit names.
pub open spec fn map_base(lcdc_display_select: bool) -> int {
    if lcdc_display_select {
        0x9C00
    } else {
        0x9800
    }
}

/// The 1024 tile numbers of the background map at `map_base`.
pub open spec fn map_bytes(m: Seq<u8>, lcdc_display_select: bool) -> Seq<u8> {
    m.subrange(map_base(lcdc_display_select), map_base(lcdc_display_select) + 1024)
}

impl TileMap {
    /// 256 tiles of 64 pixels and a map of 1024 tile numbers.
    pub open spec fn wf(&self) -> bool {
        &&& self.tiles@.len() == 256
        &&& forall|i: int| 0 <= i < 256 ==> (#[trigger] self.tiles@[i]).wf()
        &&& self.map@.len() == 1024
    }

    /// 256 blank tiles and a map of zeros.
    pub fn new() -> (tile_map: TileMap)
        ensures
            tile_map.wf(),
            forall|i: int, k: int| 0 <= i < 256 && 0 <= k < 64 ==> #[trigger] tile_map.tiles@[i].data@[k] == 0,
            forall|i: int| 0 <= i < 1024 ==> #[trigger] tile_map.map@[i] == 0,
    {
        let mut tiles: Vec<TileData> = Vec::new();
        let mut i: usize = 0;
        while i < 256
            invariant
                i <= 256,
                tiles@.len() == i,
                forall|j: int| 0 <= j < i ==> (#[trigger] tiles@[j]).wf(),
                forall|j: int, k: int| 0 <= j < i && 0 <= k < 64 ==> #[trigger] tiles@[j].data@[k] == 0,
            decreases 256 - i,
        {
            let ghost previous = tiles@;
            let tile = TileData::new();
            tiles.push(tile);
            proof {
                assert forall|j: int, k: int| 0 <= j < i + 1 && 0 <= k < 64 implies #[trigger] tiles@[j].data@[k] == 0 by {
                    if j < i {
                        assert(tiles@[j] == previous[j]);
                    }
                }
            }
            i = i + 1;
        }
        let mut map: Vec<u8> = Vec::new();
        let mut j: usize = 0;
        while j < 1024
            invariant
                j <= 1024,
                map@.len() == j,
                forall|k: int| 0 <= k < j ==> #[trigger] map@[k] == 0,
            decreases 1024 - j,
        {
            map.push(0);
            j = j + 1;
        }
        TileMap { tiles, map }
    }

    /// Decodes every tile from the data area that `lcdc_data_select` names
    /// (tile i from tile number i mod 256) and copies the background map that
    /// `lcdc_display_select` names (0x9C00 when set, 0x9800 otherwise).
    pub fn populate_tile_map(&mut self, system_data: &mut SystemData, lcdc_data_select: bool, lcdc_display_select: bool)
        requires
            old(system_data).wf(),
        ensures
            final(self).tiles@.len() == old(self).tiles@.len(),
            forall|i: int| 0 <= i < final(self).tiles@.len() ==> #[trigger] final(self).tiles@[i].data@
                == tile_pixels(old(system_data).memory(), lcdc_data_select, (i % 256) as u8),
            final(self).map@ == map_bytes(old(system_data).memory(), lcdc_display_select),
            *final(system_data) == *old(system_data),
    {
        let n = self.tiles.len();
        let mut tile_index: usize = 0;
        while tile_index < n
            invariant
                tile_index <= n,
                n == self.tiles@.len(),
                system_data.wf(),
                *system_data == *old(system_data),
                forall|i: int| 0 <= i < tile_index ==> #[trigger] self.tiles@[i].data@ == tile_pixels(
                    system_data.memory(),
                    lcdc_data_select,
                    (i % 256) as u8,
                ),
            decreases n - tile_index,
        {
            let index = (tile_index % 256) as u8;
            let tile = get_tile_data(index, system_data, lcdc_data_select);
            assert(index == ((tile_index as int) % 256) as u8);
            assert(tile.data@ == tile_pixels(system_data.memory(), lcdc_data_select, index));
            let ghost previous = self.tiles@;
            self.tiles.set(tile_index, tile);
            proof {
                assert forall|i: int| 0 <= i < tile_index + 1 implies #[trigger] self.tiles@[i].data@ == tile_pixels(
                    system_data.memory(),
                    lcdc_data_select,
                    (i % 256) as u8,
                ) by {
                    if i < tile_index {
                        assert(self.tiles@[i] == previous[i]);
                        assert(previous[i].data@ == tile_pixels(system_data.memory(), lcdc_data_select, (i % 256) as u8));
                    } else {
                        assert(i == tile_index as int);
                        assert((i % 256) as u8 == index);
                        assert(self.tiles@[i] == tile);
                        assert(self.tiles@[i].data@ == tile.data@);
                    }
                }
            }
            tile_index = tile_index + 1;
        }
        self.map = vectorize_map(system_data, lcdc_display_select);
    }
}

/// Copies the 1024 tile numbers of a background map.
fn vectorize_map(system_data: &SystemData, lcdc_display_select: bool) -> (map: Vec<u8>)
    requires
        system_data.wf(),
    ensures
        map@ == map_bytes(system_data.memory(), lcdc_display_select),
{
    let map_offset: usize = if lcdc_display_select { 0x9C00 } else { 0x9800 };
    let mut map: Vec<u8> = Vec::new();
    let mut i: usize = 0;
    while i < 1024
        invariant
            i <= 1024,
            system_data.wf(),
            map_offset == map_base(lcdc_display_select),
            map@.len() == i,
            forall|j: int| 0 <= j < i ==> #[trigger] map@[j] == system_data.memory()[map_offset + j],
        decreases 1024 - i,
    {
        map.push(system_data.mmu.mem_map[map_offset + i]);
        i = i + 1;
    }
    proof {
        assert(map@ =~= map_bytes(system_data.memory(), lcdc_display_select));
    }
    map
}

// ---------------------------------------------------------------------------
// Sprites
// ---------------------------------------------------------------------------

/// One entry of the sprite attribute table.
#[derive(Clone, Copy, Debug)]
pub struct SpriteAttribute {
    pub y_position: u8,
    pub x_position: u8,
    pub tile_number: u8,
    pub flags: u8,
}

impl SpriteAttribute {
    /// All zero.
    pub fn new() -> (sprite: SpriteAttribute)
        ensures
            sprite == (SpriteAttribute { y_position: 0, x_position: 0, tile_number: 0, flags: 0 }),
    {
        SpriteAttribute { y_position: 0, x_position: 0, tile_number: 0, flags: 0 }
    }

    /// Sets all four fields.
    pub fn update_sprite(&mut self, y_position: u8, x_position: u8, tile_number: u8, flags: u8)
        ensures
            *final(self) == (SpriteAttribute { y_position, x_position, tile_number, flags }),
    {
        self.y_position = y_position;
        self.x_position = x_position;
        self.tile_number = tile_number;
        self.flags = flags;
    }
}

/// The sprite described by the four bytes of entry `i` of the attribute table
/// at 0xFE00.
pub open spec fn sprite_in_memory(m: Seq<u8>, i: int) -> SpriteAttribute {
    SpriteAttribute {
        y_position: m[0xFE00 + i * 4],
        x_position: m[0xFE01 + i * 4],
        tile_number: m[0xFE02 + i * 4],
        flags: m[0xFE03 + i * 4],
    }
}

/// Number of entries of the sprite attribute table.
pub const SPRITE_COUNT: usize = 40;

/// The sprite attribute table.
#[allow(non_camel_case_types)]
pub struct OAM_Table {
    pub table: Vec<SpriteAttribute>,
}

impl OAM_Table {
    /// 40 sprites, all zero.
    pub fn new() -> (oam: OAM_Table)
        ensures
            oam.table@.len() == SPRITE_COUNT,
            forall|i: int| 0 <= i < SPRITE_COUNT ==> #[trigger] oam.table@[i] == (SpriteAttribute {
                y_position: 0,
                x_position: 0,
                tile_number: 0,
                flags: 0,
            }),
    {
        let mut table: Vec<SpriteAttribute> = Vec::new();
        let mut i: usize = 0;
        while i < SPRITE_COUNT
            invariant
                i <= SPRITE_COUNT,
                table@.len() == i,
                forall|j: int| 0 <= j < i ==> #[trigger] table@[j] == (SpriteAttribute {
                    y_position: 0,
                    x_position: 0,
                    tile_number: 0,
                    flags: 0,
                }),
            decreases SPRITE_COUNT - i,
        {
            table.push(SpriteAttribute::new());
            i = i + 1;
        }
        OAM_Table { table }
    }

    /// Loads the first 40 entries from the attribute table at 0xFE00.
    pub fn populate_oam_table(&mut self, system_data: &SystemData)
        requires
            system_data.wf(),
            old(self).table@.len() >= SPRITE_COUNT,
        ensures
            final(self).table@.len() == old(self).table@.len(),
            forall|i: int| 0 <= i < SPRITE_COUNT ==> #[trigger] final(self).table@[i] == sprite_in_memory(
                system_data.memory(),
                i,
            ),
            forall|i: int| SPRITE_COUNT <= i < final(self).table@.len() ==> #[trigger] final(self).table@[i]
                == old(self).table@[i],
    {
        let mut i: usize = 0;
        while i < SPRITE_COUNT
            invariant
                i <= SPRITE_COUNT,
                system_data.wf(),
                self.table@.len() == old(self).table@.len(),
                old(self).table@.len() >= SPRITE_COUNT,
                forall|j: int| 0 <= j < i ==> #[trigger] self.table@[j] == sprite_in_memory(system_data.memory(), j),
                forall|j: int| SPRITE_COUNT <= j < self.table@.len() ==> #[trigger] self.table@[j] == old(self).table@[j],
            decreases SPRITE_COUNT - i,
        {
            let mut sprite_attribute = SpriteAttribute::new();
            let y_position = system_data.mmu.mem_map[0xFE00 + (i * 4)];
            let x_position = system_data.mmu.mem_map[0xFE01 + (i * 4)];
            let tile_number = system_data.mmu.mem_map[0xFE02 + (i * 4)];
            let flags = system_data.mmu.mem_map[0xFE03 + (i * 4)];
            sprite_attribute.update_sprite(y_position, x_position, tile_number, flags);
            self.table.set(i, sprite_attribute);
            i = i + 1;
        }
    }
}

// ---------------------------------------------------------------------------
// Shades
// ---------------------------------------------------------------------------

/// The shade (0-3) that a palette register gives a colour number (0-3):
/// colour n takes bits 2n and 2n + 1; any other number gives 4.
pub open spec fn shade_of(pixel_data: u8, palette_data: u8) -> u8 {
    if pixel_data == 0 {
        palette_data & 0x03
    } else if pixel_data == 1 {
        (palette_data & 0x0C) >> 2
    } else if pixel_data == 2 {
        (palette_data & 0x30) >> 4
    } else if pixel_data == 3 {
        (palette_data & 0xC0) >> 6
    } else {
        4
    }
}

/// The shade of a colour number under a palette (see `shade_of`).
pub fn pixel_shade_map(pixel_data: u8, palette_data: u8) -> (shade: u8)
    ensures
        shade == shade_of(pixel_data, palette_data),
{
    if pixel_data == 0 {
        palette_data & 0x03
    } else if pixel_data == 1 {
        (palette_data & 0x0C) >> 2
    } else if pixel_data == 2 {
        (palette_data & 0x30) >> 4
    } else if pixel_data == 3 {
        (palette_data & 0xC0) >> 6
    } else {
        4
    }
}

/// The colour that a shade is drawn in.
pub open spec fn shade_color(pixel_shade: u8, shade_profile: ShadeProfile) -> [u8; 4] {
    if pixel_shade == 0 {
        shade_profile.shade_0
    } else if pixel_shade == 1 {
        shade_profile.shade_1
    } else if pixel_shade == 2 {
        shade_profile.shade_2
    } else if pixel_shade == 3 {
        shade_profile.shade_3
    } else {
        shade_profile.default
    }
}

/// The colour of a shade (see `shade_color`).
pub fn pixel_color_map(pixel_shade: u8, shade_profile: &ShadeProfile) -> (color: [u8; 4])
    ensures
        color == shade_color(pixel_shade, *shade_profile),
{
    if pixel_shade == 0 {
        shade_profile.shade_0
    } else if pixel_shade == 1 {
        shade_profile.shade_1
    } else if pixel_shade == 2 {
        shade_profile.shade_2
    } else if pixel_shade == 3 {
        shade_profile.shade_3
    } else {
        shade_profile.default
    }
}

// ---------------------------------------------------------------------------
// Bitmaps
// ---------------------------------------------------------------------------

/// The tile that covers background pixel `p` (row p / 256, column p % 256).
/// With the 0x8800 data area the tile numbers are signed, tile 0 sitting at
/// entry 128.
pub open spec fn background_tile(tile_map: TileMap, tile_data_select: bool, p: int) -> int {
    let tile = tile_map.map@[((p / 256) / 8) * 32 + (p % 256) / 8];
    if tile_data_select {
        tile as int
    } else {
        (tile + 128) % 256
    }
}

/// The shade of background pixel `p`, or 0 when the layer is disabled.
pub open spec fn background_pixel(tile_map: TileMap, tile_data_select: bool, palette_data: u8, enable: bool, p: int) -> u8 {
    if enable {
        shade_of(
            tile_map.tiles@[background_tile(tile_map, tile_data_select, p)].data@[((p / 256) % 8) * 8 + (p % 256) % 8],
            palette_data,
        )
    } else {
        0
    }
}

/// Draws the full 256 x 256 background of a tile map, pixel (x, y) at
/// 256 * y + x, as shades under `palette_data`; all zero when not `enable`.
pub fn build_bitmap(background_tile_map: &TileMap, tile_data_select: bool, palette_data: u8, enable: bool) -> (buffer: Vec<u8>)
    requires
        background_tile_map.wf(),
    ensures
        buffer@.len() == BACKGROUND_PIXELS,
        forall|p: int| 0 <= p < BACKGROUND_PIXELS ==> #[trigger] buffer@[p] == background_pixel(
            *background_tile_map,
            tile_data_select,
            palette_data,
            enable,
            p,
        ),
{
    let mut buffer: Vec<u8> = Vec::new();
    let mut p: usize = 0;
    while p < BACKGROUND_PIXELS
        invariant
            p <= BACKGROUND_PIXELS,
            background_tile_map.wf(),
            buffer@.len() == p,
            forall|j: int| 0 <= j < p ==> #[trigger] buffer@[j] == background_pixel(
                *background_tile_map,
                tile_data_select,
                palette_data,
                enable,
                j,
            ),
        decreases BACKGROUND_PIXELS - p,
    {
        let y = p / 256;
        let x = p % 256;
        let tile = background_tile_map.map[(y / 8) * 32 + x / 8];
        let index: u8 = if tile_data_select { tile } else { ((tile as u16 + 128) % 256) as u8 };
        let pixel_data = background_tile_map.tiles[index as usize].data[(y % 8) * 8 + x % 8];
        let shade = pixel_shade_map(pixel_data, palette_data);
        if enable {
            buffer.push(shade);
        } else {
            buffer.push(0);
        }
        p = p + 1;
    }
    buffer
}

/// The background pixel shown at screen pixel `q` (row q / 160, column
/// q % 160), using the scroll values latched for that line and wrapping
/// around the 256 x 256 background.
pub open spec fn scrolled_pixel(buffer: Seq<u8>, scroll: LCD_Position, q: int) -> u8 {
    let y = q / 160;
    let x = q % 160;
    buffer[((y + scroll.scroll_y_buffer@[y]) % 256) * 256 + (x + scroll.scroll_x_buffer@[y]) % 256]
}

/// Cuts the visible 160 x 144 screen out of the full background.
pub fn scroll_background_bitmap(buffer: Vec<u8>, scroll: &LCD_Position) -> (bitmap: Vec<u8>)
    requires
        buffer@.len() >= BACKGROUND_PIXELS,
        scroll.wf(),
    ensures
        bitmap@.len() == SCREEN_PIXELS,
        forall|q: int| 0 <= q < SCREEN_PIXELS ==> #[trigger] bitmap@[q] == scrolled_pixel(buffer@, *scroll, q),
{
    let mut bitmap: Vec<u8> = Vec::new();
    let mut q: usize = 0;
    while q < SCREEN_PIXELS
        invariant
            q <= SCREEN_PIXELS,
            buffer@.len() >= BACKGROUND_PIXELS,
            scroll.wf(),
            bitmap@.len() == q,
            forall|j: int| 0 <= j < q ==> #[trigger] bitmap@[j] == scrolled_pixel(buffer@, *scroll, j),
        decreases SCREEN_PIXELS - q,
    {
        let row_y = q / 160;
        let row_x = q % 160;
        let row_x_scrolled = (row_x + scroll.scroll_x_buffer[row_y] as usize) % 256;
        let row_y_scrolled = (row_y + scroll.scroll_y_buffer[row_y] as usize) % 256;
        bitmap.push(buffer[(row_y_scrolled * 256) + row_x_scrolled]);
        q = q + 1;
    }
    bitmap
}

/// Screen pixel `q` after placing the window, whose top left corner is at
/// (WX - 7, WY): pixels right of and below the corner come from the window
/// bitmap (read with rows of 160), the others keep the background.
pub open spec fn windowed_pixel(scrolled: Seq<u8>, window: Seq<u8>, scroll: LCD_Position, q: int) -> u8 {
    let y = q / 160;
    let x = q % 160;
    if q < SCREEN_PIXELS && y >= scroll.window_y && x + 7 >= scroll.window_x {
        window[(y - scroll.window_y) * 160 + (x + 7 - scroll.window_x)]
    } else {
        scrolled[q]
    }
}

/// Places the window over the screen.
pub fn place_window(scrolled_bitmap: Vec<u8>, window_bitmap: Vec<u8>, scroll: &LCD_Position) -> (bitmap: Vec<u8>)
    requires
        scrolled_bitmap@.len() >= SCREEN_PIXELS,
        window_bitmap@.len() >= SCREEN_PIXELS,
        scroll.window_x >= 7,
    ensures
        bitmap@.len() == scrolled_bitmap@.len(),
        forall|q: int| 0 <= q < bitmap@.len() ==> #[trigger] bitmap@[q] == windowed_pixel(
            scrolled_bitmap@,
            window_bitmap@,
            *scroll,
            q,
        ),
{
    let n = scrolled_bitmap.len();
    let mut bitmap: Vec<u8> = Vec::new();
    let mut q: usize = 0;
    while q < n
        invariant
            q <= n,
            n == scrolled_bitmap@.len(),
            scrolled_bitmap@.len() >= SCREEN_PIXELS,
            window_bitmap@.len() >= SCREEN_PIXELS,
            scroll.window_x >= 7,
            bitmap@.len() == q,
            forall|j: int| 0 <= j < q ==> #[trigger] bitmap@[j] == windowed_pixel(
                scrolled_bitmap@,
                window_bitmap@,
                *scroll,
                j,
            ),
        decreases n - q,
    {
        let row_y = q / 160;
        let row_x = q % 160;
        if q < SCREEN_PIXELS && row_y >= scroll.window_y as usize && row_x + 7 >= scroll.window_x as usize {
            let source = (row_y - scroll.window_y as usize) * 160 + (row_x + 7 - scroll.window_x as usize);
            bitmap.push(window_bitmap[source]);
        } else {
            bitmap.push(scrolled_bitmap[q]);
        }
        q = q + 1;
    }
    bitmap
}

// ---------------------------------------------------------------------------
// Sprites on the screen
// ---------------------------------------------------------------------------

/// Number of pixel rows of a sprite: 16 in the tall mode, 8 otherwise.
pub open spec fn sprite_rows(large_sprites: bool) -> int {
    if large_sprites {
        16
    } else {
        8
    }
}

/// The colour number of sprite pixel (row, col) after flipping: bit 6 of the
/// flags flips vertically, bit 5 horizontally. A tall sprite is the even tile
/// above the odd tile of its pair.
pub open spec fn sprite_tile_pixel(tiles: Seq<TileData>, sprite: SpriteAttribute, large_sprites: bool, row: int, col: int) -> u8 {
    let column = if sprite.flags & 0x20 != 0 { 7 - col } else { col };
    if !large_sprites {
        let r = if sprite.flags & 0x40 != 0 { 7 - row } else { row };
        tiles[sprite.tile_number as int].data@[r * 8 + column]
    } else {
        let r = if sprite.flags & 0x40 != 0 { 15 - row } else { row };
        if r < 8 {
            tiles[(sprite.tile_number & 0xFE) as int].data@[r * 8 + column]
        } else {
            tiles[(sprite.tile_number | 0x01) as int].data@[(r - 8) * 8 + column]
        }
    }
}

/// Whether sprite row `row`, which lands on screen line `y`, is drawn: in the
/// tall mode the whole pair of lines (y, y + 8) must fit on the screen.
pub open spec fn sprite_line_drawn(large_sprites: bool, row: int, y: int) -> bool {
    if !large_sprites {
        0 <= y < 144
    } else if row < 8 {
        0 <= y && y + 8 < 144
    } else {
        8 <= y < 144
    }
}

/// Screen pixel `q` after drawing `sprite` over `b`. The sprite's top left
/// corner is at (X - 8, Y - 16). A non-zero colour number is drawn in its
/// palette (bit 4 of the flags picks palette 1); a small sprite with the
/// priority bit (7) set is drawn only over background shade 0.
pub open spec fn sprite_pixel_at(
    b: Seq<u8>,
    tiles: Seq<TileData>,
    sprite: SpriteAttribute,
    palette_0: u8,
    palette_1: u8,
    large_sprites: bool,
    q: int,
) -> u8 {
    let y = q / 160;
    let row = y - (sprite.y_position - 16);
    let col = q % 160 - (sprite.x_position - 8);
    if 0 <= q < SCREEN_PIXELS && 0 <= row < sprite_rows(large_sprites) && 0 <= col < 8 && sprite_line_drawn(
        large_sprites,
        row,
        y,
    ) {
        let pixel = sprite_tile_pixel(tiles, sprite, large_sprites, row, col);
        let palette = if sprite.flags & 0x10 != 0 { palette_1 } else { palette_0 };
        if pixel != 0 && (large_sprites || sprite.flags & 0x80 == 0 || b[q] == 0) {
            shade_of(pixel, palette)
        } else {
            b[q]
        }
    } else {
        b[q]
    }
}

/// The bitmap after drawing one sprite.
pub open spec fn draw_sprite(
    b: Seq<u8>,
    tiles: Seq<TileData>,
    sprite: SpriteAttribute,
    palette_0: u8,
    palette_1: u8,
    large_sprites: bool,
) -> Seq<u8> {
    Seq::new(b.len(), |q: int| sprite_pixel_at(b, tiles, sprite, palette_0, palette_1, large_sprites, q))
}

/// The bitmap after drawing the first `n` sprites in table order.
pub open spec fn sprites_drawn(
    b: Seq<u8>,
    sprites: Seq<SpriteAttribute>,
    n: int,
    palette_0: u8,
    palette_1: u8,
    large_sprites: bool,
    tiles: Seq<TileData>,
) -> Seq<u8>
    decreases n,
{
    if n <= 0 {
        b
    } else {
        draw_sprite(
            sprites_drawn(b, sprites, n - 1, palette_0, palette_1, large_sprites, tiles),
            tiles,
            sprites[n - 1],
            palette_0,
            palette_1,
            large_sprites,
        )
    }
}

/// The colour numbers of a sprite after flipping, row by row.
fn sprite_pixels(tile_map: &TileMap, sprite: SpriteAttribute, large_sprites: bool) -> (pixels: Vec<u8>)
    requires
        tile_map.wf(),
    ensures
        pixels@.len() == sprite_rows(large_sprites) * 8,
        forall|k: int| 0 <= k < pixels@.len() ==> #[trigger] pixels@[k] == sprite_tile_pixel(
            tile_map.tiles@,
            sprite,
            large_sprites,
            k / 8,
            k % 8,
        ),
{
    let count: usize = if large_sprites { 128 } else { 64 };
    let x_flip = sprite.flags & 0x20 != 0;
    let y_flip = sprite.flags & 0x40 != 0;
    let mut pixels: Vec<u8> = Vec::new();
    let mut k: usize = 0;
    while k < count
        invariant
            k <= count,
            count == sprite_rows(large_sprites) * 8,
            tile_map.wf(),
            x_flip == (sprite.flags & 0x20 != 0),
            y_flip == (sprite.flags & 0x40 != 0),
            pixels@.len() == k,
            forall|j: int| 0 <= j < k ==> #[trigger] pixels@[j] == sprite_tile_pixel(
                tile_map.tiles@,
                sprite,
                large_sprites,
                j / 8,
                j % 8,
            ),
        decreases count - k,
    {
        let row = k / 8;
        let col = k % 8;
        let column = if x_flip { 7 - col } else { col };
        if !large_sprites {
            let r = if y_flip { 7 - row } else { row };
            pixels.push(tile_map.tiles[sprite.tile_number as usize].data[r * 8 + column]);
        } else {
            let r = if y_flip { 15 - row } else { row };
            if r < 8 {
                pixels.push(tile_map.tiles[(sprite.tile_number & 0xFE) as usize].data[r * 8 + column]);
            } else {
                pixels.push(tile_map.tiles[(sprite.tile_number | 0x01) as usize].data[(r - 8) * 8 + column]);
            }
        }
        k = k + 1;
    }
    pixels
}

/// Screen position arithmetic: row y, column x (x < 160) is position 160 y + x.
proof fn lemma_screen_position(q: int, y: int, x: int)
    requires
        0 <= x < 160,
        q == y * 160 + x,
    ensures
        q / 160 == y,
        q % 160 == x,
{
    lemma_fundamental_div_mod_converse(q, 160, y, x);
}

/// Draws one sprite over the bitmap.
fn draw_one_sprite(
    bitmap: &mut Vec<u8>,
    sprite: SpriteAttribute,
    palette_0: u8,
    palette_1: u8,
    large_sprites: bool,
    tile_map: &TileMap,
)
    requires
        tile_map.wf(),
        old(bitmap)@.len() >= SCREEN_PIXELS,
    ensures
        final(bitmap)@ == draw_sprite(old(bitmap)@, tile_map.tiles@, sprite, palette_0, palette_1, large_sprites),
{
    let ghost before = bitmap@;
    let ghost tiles = tile_map.tiles@;
    let pixels = sprite_pixels(tile_map, sprite, large_sprites);
    let rows: i32 = if large_sprites { 16 } else { 8 };
    let y0: i32 = sprite.y_position as i32 - 16;
    let x0: i32 = sprite.x_position as i32 - 8;
    let palette = if sprite.flags & 0x10 != 0 { palette_1 } else { palette_0 };
    let behind = sprite.flags & 0x80 != 0;
    let mut row: i32 = 0;
    while row < rows
        invariant
            0 <= row <= rows,
            rows == sprite_rows(large_sprites),
            y0 == sprite.y_position - 16,
            x0 == sprite.x_position - 8,
            palette == (if sprite.flags & 0x10 != 0 { palette_1 } else { palette_0 }),
            behind == (sprite.flags & 0x80 != 0),
            pixels@.len() == rows * 8,
            forall|k: int| 0 <= k < pixels@.len() ==> #[trigger] pixels@[k] == sprite_tile_pixel(
                tiles,
                sprite,
                large_sprites,
                k / 8,
                k % 8,
            ),
            before.len() >= SCREEN_PIXELS,
            bitmap@.len() == before.len(),
            forall|q: int| 0 <= q < before.len() ==> #[trigger] bitmap@[q] == (if q / 160 - y0 < row {
                sprite_pixel_at(before, tiles, sprite, palette_0, palette_1, large_sprites, q)
            } else {
                before[q]
            }),
        decreases rows - row,
    {
        let mut col: i32 = 0;
        while col < 8
            invariant
                0 <= row < rows,
                0 <= col <= 8,
                rows == sprite_rows(large_sprites),
                y0 == sprite.y_position - 16,
                x0 == sprite.x_position - 8,
                palette == (if sprite.flags & 0x10 != 0 { palette_1 } else { palette_0 }),
                behind == (sprite.flags & 0x80 != 0),
                pixels@.len() == rows * 8,
                forall|k: int| 0 <= k < pixels@.len() ==> #[trigger] pixels@[k] == sprite_tile_pixel(
                    tiles,
                    sprite,
                    large_sprites,
                    k / 8,
                    k % 8,
                ),
                before.len() >= SCREEN_PIXELS,
                bitmap@.len() == before.len(),
                forall|q: int| 0 <= q < before.len() ==> #[trigger] bitmap@[q] == (if q / 160 - y0 < row || (q / 160
                    - y0 == row && q % 160 - x0 < col) {
                    sprite_pixel_at(before, tiles, sprite, palette_0, palette_1, large_sprites, q)
                } else {
                    before[q]
                }),
            decreases 8 - col,
        {
            let y = y0 + row;
            let x = x0 + col;
            let line_drawn = if !large_sprites {
                0 <= y && y < 144
            } else if row < 8 {
                0 <= y && y + 8 < 144
            } else {
                8 <= y && y < 144
            };
            let ghost previous = bitmap@;
            if line_drawn && 0 <= x && x < 160 {
                let position = (y * 160 + x) as usize;
                proof {
                    lemma_screen_position(position as int, y as int, x as int);
                }
                let pixel = pixels[(row * 8 + col) as usize];
                proof {
                    lemma_fundamental_div_mod_converse((row * 8 + col) as int, 8, row as int, col as int);
                }
                if pixel != 0 {
                    let current = bitmap[position];
                    if large_sprites || !behind || current == 0 {
                        bitmap.set(position, pixel_shade_map(pixel, palette));
                    }
                }
                proof {
                    assert forall|q: int| 0 <= q < before.len() implies #[trigger] bitmap@[q] == (if q / 160 - y0 < row
                        || (q / 160 - y0 == row && q % 160 - x0 < col + 1) {
                        sprite_pixel_at(before, tiles, sprite, palette_0, palette_1, large_sprites, q)
                    } else {
                        before[q]
                    }) by {
                        lemma_fundamental_div_mod(q, 160);
                        if q != position as int {
                            assert(bitmap@[q] == previous[q]);
                        }
                    }
                }
            } else {
                proof {
                    assert forall|q: int| 0 <= q < before.len() implies #[trigger] bitmap@[q] == (if q / 160 - y0 < row
                        || (q / 160 - y0 == row && q % 160 - x0 < col + 1) {
                        sprite_pixel_at(before, tiles, sprite, palette_0, palette_1, large_sprites, q)
                    } else {
                        before[q]
                    }) by {
                        lemma_fundamental_div_mod(q, 160);
                    }
                }
            }
            col = col + 1;
        }
        row = row + 1;
    }
    proof {
        assert forall|q: int| 0 <= q < before.len() implies #[trigger] bitmap@[q] == sprite_pixel_at(
            before,
            tiles,
            sprite,
            palette_0,
            palette_1,
            large_sprites,
            q,
        ) by {
            lemma_fundamental_div_mod(q, 160);
        }
        assert(bitmap@ =~= draw_sprite(before, tiles, sprite, palette_0, palette_1, large_sprites));
    }
}

/// Draws the sprites of the table over the screen, in table order.
pub fn apply_oam_table_to_bitmap(
    oam_table: &OAM_Table,
    scrolled_bitmap: Vec<u8>,
    palette_0: u8,
    palette_1: u8,
    large_sprites: bool,
    tile_map: &TileMap,
) -> (bitmap: Vec<u8>)
    requires
        tile_map.wf(),
        scrolled_bitmap@.len() >= SCREEN_PIXELS,
    ensures
        bitmap@.len() == scrolled_bitmap@.len(),
        bitmap@ == sprites_drawn(
            scrolled_bitmap@,
            oam_table.table@,
            oam_table.table@.len() as int,
            palette_0,
            palette_1,
            large_sprites,
            tile_map.tiles@,
        ),
{
    let mut bitmap = scrolled_bitmap;
    let n = oam_table.table.len();
    let mut i: usize = 0;
    while i < n
        invariant
            i <= n,
            n == oam_table.table@.len(),
            tile_map.wf(),
            bitmap@.len() == scrolled_bitmap@.len(),
            scrolled_bitmap@.len() >= SCREEN_PIXELS,
            bitmap@ == sprites_drawn(
                scrolled_bitmap@,
                oam_table.table@,
                i as int,
                palette_0,
                palette_1,
                large_sprites,
                tile_map.tiles@,
            ),
        decreases n - i,
    {
        draw_one_sprite(&mut bitmap, oam_table.table[i], palette_0, palette_1, large_sprites, tile_map);
        i = i + 1;
    }
    bitmap
}

// ---------------------------------------------------------------------------
// Line timing
// ---------------------------------------------------------------------------

/// Whether the last instruction completed a scan line.
pub open spec fn line_completed(ly: LY_Register, cycles: u8) -> bool {
    ly.sub_cycle_count + cycles >= LINE_CYCLES
}

/// The line register after the cycles of the last instruction: both cycle
/// counters advance (a completed frame or line is taken off), and a completed
/// line moves to the next line.
pub open spec fn ly_after(ly: LY_Register, cycles: u8) -> LY_Register {
    let total = ly.cycle_count + cycles;
    let sub_total = ly.sub_cycle_count + cycles;
    LY_Register {
        value: if line_completed(ly, cycles) { next_line(ly.value) } else { ly.value },
        cycle_count: (if total >= FRAME_CYCLES { total - FRAME_CYCLES } else { total }) as u32,
        sub_cycle_count: (if sub_total >= LINE_CYCLES { sub_total - LINE_CYCLES } else { sub_total }) as u16,
    }
}

/// Memory after the line update: when a line completes, the new line is
/// written to 0xFF44, reaching line 144 requests the vertical blank interrupt
/// (bit 0 of 0xFF0F), and wrapping to line 0 withdraws it.
pub open spec fn ly_memory(ly: LY_Register, cycles: u8, m: Seq<u8>) -> Seq<u8> {
    if !line_completed(ly, cycles) {
        m
    } else {
        let line = next_line(ly.value);
        let m1 = m.update(0xFF44, line);
        let m2 = if line == 144 { m1.update(0xFF0F, m1[0xFF0F] | 0x01) } else { m1 };
        if ly.value + 1 == LINES_PER_FRAME {
            m2.update(0xFF0F, m2[0xFF0F] & 0xFE)
        } else {
            m2
        }
    }
}

/// Advances the scan line by the cycles of the last instruction. On a new
/// visible line the current scroll values are latched for that line; line
/// 144 starts the vertical blank (and asks for a redraw); wrapping to line 0
/// ends it.
#[allow(non_snake_case)]
pub fn LCD_Y_Coordinate_Update(system_data: &mut SystemData, gpu_registers: &mut GPU_Registers)
    requires
        old(system_data).wf(),
        old(gpu_registers).wf(),
        old(gpu_registers).lcd_position.ly_register.cycle_count + old(system_data).cycles <= u32::MAX,
        old(gpu_registers).lcd_position.ly_register.sub_cycle_count + old(system_data).cycles <= u16::MAX,
        old(gpu_registers).lcd_position.ly_register.value < 255,
    ensures
        ({
            let ly = old(gpu_registers).lcd_position.ly_register;
            let cycles = old(system_data).cycles;
            let line = next_line(ly.value);
            let done = line_completed(ly, cycles);
            let wrapped = ly.value + 1 == LINES_PER_FRAME;
            &&& final(gpu_registers).lcd_position.ly_register == ly_after(ly, cycles)
            &&& final(system_data).memory() == ly_memory(ly, cycles, old(system_data).memory())
            &&& final(gpu_registers).v_blank == (if done && wrapped {
                false
            } else if done && line == 144 {
                true
            } else {
                old(gpu_registers).v_blank
            })
            &&& final(gpu_registers).v_blank_draw_flag == (old(gpu_registers).v_blank_draw_flag || (done && line
                == 144))
            &&& final(gpu_registers).lcd_position.scroll_x_buffer@ == (if done && line < 144 {
                old(gpu_registers).lcd_position.scroll_x_buffer@.update(line as int, old(gpu_registers).lcd_position.scroll_x)
            } else {
                old(gpu_registers).lcd_position.scroll_x_buffer@
            })
            &&& final(gpu_registers).lcd_position.scroll_y_buffer@ == (if done && line < 144 {
                old(gpu_registers).lcd_position.scroll_y_buffer@.update(line as int, old(gpu_registers).lcd_position.scroll_y)
            } else {
                old(gpu_registers).lcd_position.scroll_y_buffer@
            })
        }),
        final(gpu_registers).wf(),
        final(gpu_registers).lcd_position.scroll_x == old(gpu_registers).lcd_position.scroll_x,
        final(gpu_registers).lcd_position.scroll_y == old(gpu_registers).lcd_position.scroll_y,
        final(gpu_registers).lcd_position.ly_compare == old(gpu_registers).lcd_position.ly_compare,
        final(gpu_registers).lcd_position.window_x == old(gpu_registers).lcd_position.window_x,
        final(gpu_registers).lcd_position.window_y == old(gpu_registers).lcd_position.window_y,
        final(gpu_registers).lcdc_register == old(gpu_registers).lcdc_register,
        final(gpu_registers).lcdc_status == old(gpu_registers).lcdc_status,
        final(gpu_registers).shade_profile == old(gpu_registers).shade_profile,
        final(system_data).wf(),
        final(system_data).cycles == old(system_data).cycles,
        same_but_memory_and_cycles(*old(system_data), *final(system_data)),
{
    gpu_registers.lcd_position.ly_register.add_cycles(system_data);
    let tick_flag = gpu_registers.lcd_position.ly_register.add_sub_cycles(system_data);
    if tick_flag {
        let reset_flag = gpu_registers.lcd_position.ly_register.tick(system_data);
        let ly_value = gpu_registers.lcd_position.ly_register.value;
        if ly_value == 144 {
            gpu_registers.v_blank = true;
            let requested = system_data.mmu.mem_map[0xFF0F];
            system_data.mmu.set_to_memory(0xFF0F, requested | 0x01, false);
            gpu_registers.v_blank_draw_flag = true;
        } else if ly_value < 144 {
            let scroll_x = gpu_registers.lcd_position.scroll_x;
            let scroll_y = gpu_registers.lcd_position.scroll_y;
            gpu_registers.lcd_position.scroll_x_buffer.set(ly_value as usize, scroll_x);
            gpu_registers.lcd_position.scroll_y_buffer.set(ly_value as usize, scroll_y);
        }
        if reset_flag {
            gpu_registers.v_blank = false;
            let requested = system_data.mmu.mem_map[0xFF0F];
            system_data.mmu.set_to_memory(0xFF0F, requested & 0xFE, false);
        }
    }
}

/// The cycle counters of the line register can take `cycles` more without
/// overflowing, and the line can move on.
pub open spec fn gpu_update_ok(g: GPU_Registers, cycles: u8) -> bool {
    let ly = g.lcd_position.ly_register;
    &&& ly.cycle_count + cycles <= u32::MAX
    &&& ly.sub_cycle_count + cycles <= u16::MAX
    &&& ly.value < 255
}

/// `after` is the picture processor after `cycles` more clock cycles from
/// `before` with memory `m`: the line moves on (see
/// `LCD_Y_Coordinate_Update`), then LCDC, STAT and the scroll and window
/// registers are reloaded from memory (see `gpu_memory`).
pub open spec fn gpu_updated(before: GPU_Registers, after: GPU_Registers, cycles: u8, m: Seq<u8>) -> bool {
    let ly = before.lcd_position.ly_register;
    let done = line_completed(ly, cycles);
    let next = next_line(ly.value);
    let wrapped = ly.value + 1 == LINES_PER_FRAME;
    let m1 = ly_memory(ly, cycles, m);
    &&& after.lcd_position.ly_register == ly_after(ly, cycles)
    &&& after.lcdc_register == LCDC_Register::decoded(m1[0xFF40])
    &&& after.lcdc_status == LCDC_Status::decoded(m1[0xFF41])
    &&& after.lcd_position.scroll_x == m1[0xFF43]
    &&& after.lcd_position.scroll_y == m1[0xFF42]
    &&& after.lcd_position.ly_compare == m1[0xFF45]
    &&& after.lcd_position.window_x == m1[0xFF4B]
    &&& after.lcd_position.window_y == m1[0xFF4A]
    &&& after.v_blank == (if done && wrapped {
        false
    } else if done && next == 144 {
        true
    } else {
        before.v_blank
    })
    &&& after.v_blank_draw_flag == (before.v_blank_draw_flag || (done && next == 144))
    &&& after.lcd_position.scroll_x_buffer@ == (if done && next < 144 {
        before.lcd_position.scroll_x_buffer@.update(next as int, before.lcd_position.scroll_x)
    } else {
        before.lcd_position.scroll_x_buffer@
    })
    &&& after.lcd_position.scroll_y_buffer@ == (if done && next < 144 {
        before.lcd_position.scroll_y_buffer@.update(next as int, before.lcd_position.scroll_y)
    } else {
        before.lcd_position.scroll_y_buffer@
    })
    &&& after.shade_profile == before.shade_profile
}

/// The memory after the picture processor `before` runs `cycles` more clock
/// cycles on memory `m`: the line update (see `ly_memory`), then the
/// coincidence bit of STAT (bit 2 of 0xFF41) is set when LYC equals the new
/// line and cleared otherwise.
pub open spec fn gpu_memory(before: GPU_Registers, cycles: u8, m: Seq<u8>) -> Seq<u8> {
    let ly = before.lcd_position.ly_register;
    let m1 = ly_memory(ly, cycles, m);
    let line = ly_after(ly, cycles).value;
    m1.update(0xFF41, if m1[0xFF45] == line { m1[0xFF41] | 0x04 } else { m1[0xFF41] & 0xFB })
}

/// Updates the picture processor after an instruction: advances the line,
/// then reloads LCDC, STAT and the scroll and window registers from memory
/// (see `gpu_updated`).
pub fn update_gpu(system_data: &mut SystemData, registers: &mut Registers, gpu_registers: &mut GPU_Registers)
    requires
        old(system_data).wf(),
        old(gpu_registers).wf(),
        gpu_update_ok(*old(gpu_registers), old(system_data).cycles),
    ensures
        gpu_updated(
            *old(gpu_registers),
            *final(gpu_registers),
            old(system_data).cycles,
            old(system_data).memory(),
        ),
        final(system_data).memory() == gpu_memory(
            *old(gpu_registers),
            old(system_data).cycles,
            old(system_data).memory(),
        ),
        final(gpu_registers).wf(),
        *final(registers) == *old(registers),
        final(system_data).wf(),
        final(system_data).cycles == old(system_data).cycles,
        same_but_memory_and_cycles(*old(system_data), *final(system_data)),
{
    LCD_Y_Coordinate_Update(system_data, gpu_registers);
    gpu_registers.lcdc_register.update_lcdc_register(system_data);
    gpu_registers.lcdc_status.update_lcdc_status(system_data);
    gpu_registers.lcd_position.update(system_data);
}

// ---------------------------------------------------------------------------
// The screen
// ---------------------------------------------------------------------------

/// The background drawn from `background_tile_map` with the data area and
/// palette (0xFF47) in effect, enabled by LCDC bit 7.
pub open spec fn background_layer(background_tile_map: TileMap, gpu_registers: GPU_Registers, m: Seq<u8>) -> Seq<u8> {
    Seq::new(
        BACKGROUND_PIXELS as nat,
        |p: int|
            background_pixel(
                background_tile_map,
                gpu_registers.lcdc_register.tile_data,
                m[0xFF47],
                gpu_registers.lcdc_register.display_enable,
                p,
            ),
    )
}

/// The window drawn from `window_tile_map` (enabled by LCDC bit 5).
pub open spec fn window_layer(window_tile_map: TileMap, gpu_registers: GPU_Registers, m: Seq<u8>) -> Seq<u8> {
    Seq::new(
        BACKGROUND_PIXELS as nat,
        |p: int|
            background_pixel(
                window_tile_map,
                gpu_registers.lcdc_register.tile_data,
                m[0xFF47],
                gpu_registers.lcdc_register.window_enable,
                p,
            ),
    )
}

/// The 160 x 144 shades of the screen: the scrolled background, the window
/// over it when LCDC bit 5 is set, and the sprites over both (palettes 0xFF48
/// and 0xFF49) when LCDC bit 1 is set.
pub open spec fn screen_shades(
    background_tile_map: TileMap,
    window_tile_map: TileMap,
    gpu_registers: GPU_Registers,
    m: Seq<u8>,
    oam_table: OAM_Table,
    oam_tile_map: TileMap,
) -> Seq<u8> {
    let position = gpu_registers.lcd_position;
    let background = background_layer(background_tile_map, gpu_registers, m);
    let scrolled = Seq::new(SCREEN_PIXELS as nat, |q: int| scrolled_pixel(background, position, q));
    let windowed = if gpu_registers.lcdc_register.window_enable {
        let window = window_layer(window_tile_map, gpu_registers, m);
        Seq::new(SCREEN_PIXELS as nat, |q: int| windowed_pixel(scrolled, window, position, q))
    } else {
        scrolled
    };
    if gpu_registers.lcdc_register.sprite_enable {
        sprites_drawn(
            windowed,
            oam_table.table@,
            oam_table.table@.len() as int,
            m[0xFF48],
            m[0xFF49],
            gpu_registers.lcdc_register.sprite_size,
            oam_tile_map.tiles@,
        )
    } else {
        windowed
    }
}

/// The shades of the screen, pixel (x, y) at 160 y + x (see `screen_shades`).
pub fn create_background_shades(
    background_tile_map: &TileMap,
    window_tile_map: &TileMap,
    gpu_registers: &GPU_Registers,
    system_data: &SystemData,
    oam_table: &OAM_Table,
    oam_tile_map: &TileMap,
) -> (shades: Vec<u8>)
    requires
        background_tile_map.wf(),
        window_tile_map.wf(),
        oam_tile_map.wf(),
        gpu_registers.wf(),
        system_data.wf(),
        gpu_registers.lcdc_register.window_enable ==> gpu_registers.lcd_position.window_x >= 7,
    ensures
        shades@.len() == SCREEN_PIXELS,
        shades@ == screen_shades(
            *background_tile_map,
            *window_tile_map,
            *gpu_registers,
            system_data.memory(),
            *oam_table,
            *oam_tile_map,
        ),
{
    let palette_data = system_data.mmu.mem_map[0xFF47];
    let object_palette_0 = system_data.mmu.mem_map[0xFF48];
    let object_palette_1 = system_data.mmu.mem_map[0xFF49];
    let background_buffer = build_bitmap(
        background_tile_map,
        gpu_registers.lcdc_register.tile_data,
        palette_data,
        gpu_registers.lcdc_register.display_enable,
    );
    let ghost background = background_buffer@;
    proof {
        assert(background =~= background_layer(*background_tile_map, *gpu_registers, system_data.memory()));
    }
    let mut scrolled_buffer = scroll_background_bitmap(background_buffer, &gpu_registers.lcd_position);
    let ghost scrolled = scrolled_buffer@;
    proof {
        assert(scrolled =~= Seq::new(
            SCREEN_PIXELS as nat,
            |q: int| scrolled_pixel(background, gpu_registers.lcd_position, q),
        ));
    }
    if gpu_registers.lcdc_register.window_enable {
        let window_buffer = build_bitmap(
            window_tile_map,
            gpu_registers.lcdc_register.tile_data,
            palette_data,
            gpu_registers.lcdc_register.window_enable,
        );
        let ghost window = window_buffer@;
        proof {
            assert(window =~= window_layer(*window_tile_map, *gpu_registers, system_data.memory()));
        }
        scrolled_buffer = place_window(scrolled_buffer, window_buffer, &gpu_registers.lcd_position);
        proof {
            assert(scrolled_buffer@ =~= Seq::new(
                SCREEN_PIXELS as nat,
                |q: int| windowed_pixel(scrolled, window, gpu_registers.lcd_position, q),
            ));
        }
    }
    if gpu_registers.lcdc_register.sprite_enable {
        scrolled_buffer = apply_oam_table_to_bitmap(
            oam_table,
            scrolled_buffer,
            object_palette_0,
            object_palette_1,
            gpu_registers.lcdc_register.sprite_size,
            oam_tile_map,
        );
    }
    scrolled_buffer
}

} // verus!
