use rustboy::gpu::gpu::{
    apply_oam_table_to_bitmap, build_bitmap, create_background_shades, get_tile_data, pixel_color_map,
    pixel_shade_map, place_window, scroll_background_bitmap, update_gpu, OAM_Table, SpriteAttribute, TileData,
    TileMap,
};
use rustboy::gpu::gpu_registers::{GPU_Registers, LCD_Position, ShadeProfile};
use rustboy::gpu::screen_image::create_background_img;
use rustboy::system::{get_system_data, Registers};

#[test]
fn tile_pixels_are_colour_numbers_test() {
    let mut system_data = get_system_data("CLASSIC");
    for i in 0..0x1000usize {
        system_data.mmu.mem_map[0x8000 + i] = (i * 37 + 11) as u8;
    }
    for tile_index in 0..=255u8 {
        let tile = get_tile_data(tile_index, &mut system_data, true);
        assert_eq!(tile.data.len(), 64);
        assert!(tile.data.iter().all(|p| *p < 4));
    }
    // Row 0 of tile 0: low bits 0x0B, high bits 0x30.
    let tile = get_tile_data(0, &mut system_data, true);
    assert_eq!(&tile.data[0..8], &[0, 0, 2, 2, 1, 0, 1, 1]);
}

#[test]
fn palette_gives_shades_test() {
    for palette in 0..=255u8 {
        for pixel in 0..4u8 {
            assert!(pixel_shade_map(pixel, palette) < 4);
        }
    }
    assert_eq!(pixel_shade_map(0, 0xE4), 0);
    assert_eq!(pixel_shade_map(1, 0xE4), 1);
    assert_eq!(pixel_shade_map(2, 0xE4), 2);
    assert_eq!(pixel_shade_map(3, 0xE4), 3);
    assert_eq!(pixel_shade_map(0, 0xFC), 0);
    assert_eq!(pixel_shade_map(1, 0xFC), 3);
    assert_eq!(pixel_shade_map(4, 0xFC), 4);
}

#[test]
fn pixel_color_map_test() {
    let profile = ShadeProfile::new();
    assert_eq!(pixel_color_map(0, &profile), [0x9B, 0xBC, 0x0F, 0xFF]);
    assert_eq!(pixel_color_map(1, &profile), [0x8B, 0xAC, 0x0F, 0xFF]);
    assert_eq!(pixel_color_map(2, &profile), [0x30, 0x62, 0x30, 0xFF]);
    assert_eq!(pixel_color_map(3, &profile), [0x0F, 0x38, 0x0F, 0xFF]);
    assert_eq!(pixel_color_map(9, &profile), [0x00, 0x00, 0x00, 0xFF]);
}

fn tile_map_with_tile_one() -> TileMap {
    let mut tile_map = TileMap::new();
    tile_map.tiles[1] = TileData { data: vec![3; 64] };
    tile_map
}

#[test]
fn build_bitmap_test() {
    let mut tile_map = tile_map_with_tile_one();
    // Map entry 1 (tile column 1, row 0) shows tile 1.
    tile_map.map[1] = 1;
    let bitmap = build_bitmap(&tile_map, true, 0xE4, true);
    assert_eq!(bitmap.len(), 0x10000);
    assert_eq!(bitmap[7], 0);
    assert_eq!(bitmap[8], 3);
    assert_eq!(bitmap[256 * 7 + 15], 3);
    assert_eq!(bitmap[256 * 8 + 8], 0);
    // Disabled: all shade 0.
    let blank = build_bitmap(&tile_map, true, 0xE4, false);
    assert!(blank.iter().all(|p| *p == 0));
}

#[test]
fn build_bitmap_signed_tile_numbers_test() {
    let mut tile_map = TileMap::new();
    // In the 0x8800 area the map holds signed numbers: 0 is tile 128.
    tile_map.tiles[128] = TileData { data: vec![2; 64] };
    let bitmap = build_bitmap(&tile_map, false, 0xE4, true);
    assert_eq!(bitmap[0], 2);
    let unsigned = build_bitmap(&tile_map, true, 0xE4, true);
    assert_eq!(unsigned[0], 0);
}

#[test]
fn scroll_background_bitmap_test() {
    let mut buffer: Vec<u8> = vec![0; 0x10000];
    for y in 0..256usize {
        for x in 0..256usize {
            buffer[y * 256 + x] = ((x + y) % 4) as u8;
        }
    }
    let mut position = LCD_Position::new();
    for line in 0..144 {
        position.scroll_x_buffer[line] = 250;
        position.scroll_y_buffer[line] = 3;
    }
    let bitmap = scroll_background_bitmap(buffer.clone(), &position);
    assert_eq!(bitmap.len(), 160 * 144);
    for y in 0..144usize {
        for x in 0..160usize {
            let sx = (x + 250) % 256;
            let sy = (y + 3) % 256;
            assert_eq!(bitmap[y * 160 + x], buffer[sy * 256 + sx]);
        }
    }
}

#[test]
fn place_window_test() {
    let scrolled: Vec<u8> = vec![1; 160 * 144];
    let window: Vec<u8> = vec![2; 160 * 144];
    let mut position = LCD_Position::new();
    position.window_x = 87;
    position.window_y = 100;
    let bitmap = place_window(scrolled, window, &position);
    assert_eq!(bitmap[99 * 160 + 159], 1);
    assert_eq!(bitmap[100 * 160 + 79], 1);
    assert_eq!(bitmap[100 * 160 + 80], 2);
    assert_eq!(bitmap[143 * 160 + 159], 2);
}

#[test]
fn apply_oam_table_to_bitmap_test() {
    let tile_map = tile_map_with_tile_one();
    let mut oam_table = OAM_Table::new();
    oam_table.table[0].update_sprite(16, 8, 1, 0);
    let bitmap = apply_oam_table_to_bitmap(&oam_table, vec![0; 160 * 144], 0xE4, 0x1B, false, &tile_map);
    for y in 0..144usize {
        for x in 0..160usize {
            let expected = if x < 8 && y < 8 { 3 } else { 0 };
            assert_eq!(bitmap[y * 160 + x], expected);
        }
    }
    // Palette 1 (flag bit 4) maps colour 3 to shade 0; a zero colour is clear.
    oam_table.table[0].update_sprite(16, 8, 1, 0x10);
    let bitmap = apply_oam_table_to_bitmap(&oam_table, vec![1; 160 * 144], 0xE4, 0x1B, false, &tile_map);
    assert_eq!(bitmap[0], 0);
    assert_eq!(bitmap[8], 1);
}

#[test]
fn populate_oam_table_test() {
    let mut system_data = get_system_data("CLASSIC");
    system_data.mmu.mem_map[0xFE04] = 20;
    system_data.mmu.mem_map[0xFE05] = 30;
    system_data.mmu.mem_map[0xFE06] = 40;
    system_data.mmu.mem_map[0xFE07] = 0x80;
    let mut oam_table = OAM_Table::new();
    oam_table.populate_oam_table(&system_data);
    let sprite: SpriteAttribute = oam_table.table[1];
    assert_eq!(sprite.y_position, 20);
    assert_eq!(sprite.x_position, 30);
    assert_eq!(sprite.tile_number, 40);
    assert_eq!(sprite.flags, 0x80);
    assert_eq!(oam_table.table[0].y_position, 0);
}

#[test]
fn update_gpu_vertical_blank_test() {
    let mut system_data = get_system_data("CLASSIC");
    let mut registers = Registers::new();
    let mut gpu_registers = GPU_Registers::new();
    gpu_registers.lcd_position.ly_register.value = 143;
    gpu_registers.lcd_position.ly_register.sub_cycle_count = 450;
    system_data.cycles = 8;
    system_data.mmu.mem_map[0xFF45] = 144;
    update_gpu(&mut system_data, &mut registers, &mut gpu_registers);
    assert_eq!(gpu_registers.lcd_position.ly_register.value, 144);
    assert_eq!(gpu_registers.lcd_position.ly_register.sub_cycle_count, 2);
    assert!(gpu_registers.v_blank);
    assert!(gpu_registers.v_blank_draw_flag);
    assert_eq!(system_data.mmu.mem_map[0xFF44], 144);
    assert_eq!(system_data.mmu.mem_map[0xFF0F], 0x01);
    // LYC equals LY: the coincidence bit of STAT is set.
    assert_eq!(system_data.mmu.mem_map[0xFF41] & 0x04, 0x04);
    assert!(gpu_registers.lcdc_status.coincidence_flag == false);
}

#[test]
fn create_background_shades_test() {
    let mut system_data = get_system_data("CLASSIC");
    let tile_map = TileMap::new();
    let mut gpu_registers = GPU_Registers::new();
    gpu_registers.lcdc_register.display_enable = true;
    system_data.mmu.mem_map[0xFF47] = 0x02;
    let shades = create_background_shades(
        &tile_map,
        &tile_map,
        &gpu_registers,
        &system_data,
        &OAM_Table::new(),
        &tile_map,
    );
    assert_eq!(shades.len(), 160 * 144);
    assert!(shades.iter().all(|s| *s == 2));
}

#[test]
fn create_background_img_test() {
    let mut system_data = get_system_data("CLASSIC");
    let tile_map = TileMap::new();
    let mut gpu_registers = GPU_Registers::new();
    gpu_registers.lcdc_register.display_enable = true;
    system_data.mmu.mem_map[0xFF47] = 0x03;
    let image = create_background_img(
        &tile_map,
        &tile_map,
        &gpu_registers,
        &system_data,
        &OAM_Table::new(),
        &tile_map,
    );
    let bytes = image.into_bytes();
    assert_eq!(bytes.len(), 160 * 144 * 4);
    for pixel in bytes.chunks(4) {
        assert_eq!(pixel, &[0x0F, 0x38, 0x0F, 0xFF]);
    }
}
