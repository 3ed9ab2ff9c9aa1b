use rustboy::gpu::gpu::{get_tile_data, TileMap};
use rustboy::system::{get_system_data, SystemData};

#[test]
fn get_tile_data_test() {
    let mut system_data: SystemData = get_system_data(&String::from("CLASSIC"));

    let temp_memory_values: Vec<u8> = vec![0b00110011, 0b00001111, 0b11001100, 0b11110000];

    for vram_offset in vec![0x8000, 0x8800].iter() {
        for i in 0..temp_memory_values.len() {
            system_data.mmu.mem_map[*vram_offset + i] = temp_memory_values[i];
        }
    }
    let tiles = vec![get_tile_data(0, &mut system_data, false), get_tile_data(0, &mut system_data, true)];
    for tile in tiles.iter() {
        for i in 0..4 {
            assert_eq!(tile.data[i as usize * 2], i);
            assert_eq!(tile.data[(i as usize * 2) + 1], i);
            assert_eq!(tile.data[8 + (i as usize * 2)], 3 - i);
            assert_eq!(tile.data[(8 + (i as usize * 2)) + 1], 3 - i);
        }
    }
}

#[test]
fn get_tile_map_test() {
    let mut system_data: SystemData = get_system_data(&String::from("CLASSIC"));
    let mut tile_map = TileMap::new();

    let memory_values: Vec<u8> = vec![0x00, 0xFF];
    let test_values: Vec<u8> = vec![0, 3];
    let tiles_offset: Vec<usize> = vec![0x8800, 0x8000];
    let bools: Vec<bool> = vec![false, true];

    for offset_index in 0..tiles_offset.len() {
        for index in 0..test_values.len() {
            for i in 0..0x1000 {
                system_data.mmu.mem_map[tiles_offset[offset_index] + i] = memory_values[index];
            }

            tile_map.populate_tile_map(&mut system_data, bools[offset_index], true);

            for i in 0..tile_map.tiles.len() {
                for j in 0..64 {
                    assert_eq!(tile_map.tiles[i].data[j], test_values[index]);
                }
            }
        }
    }

    let display_offset: Vec<usize> = vec![0x9800, 0x9C00];

    for offset_index in 0..display_offset.len() {
        for value_index in 0..memory_values.len() {
            for i in 0..tile_map.map.len() {
                system_data.mmu.mem_map[display_offset[offset_index] + i] = memory_values[value_index];
            }

            tile_map.populate_tile_map(&mut system_data, false, bools[offset_index]);

            for i in 0..tile_map.map.len() {
                assert_eq!(tile_map.map[i], memory_values[value_index]);
            }
        }
    }
}
