use vstd::prelude::*;
use crate::system::{SystemData, same_but_memory_and_cycles};

verus! {

/// Number of visible scan lines.
pub const SCREEN_LINES: usize = 144;

/// The colours (red, green, blue, alpha) that the four shades are drawn in.
#[derive(Clone, Copy, Debug)]
pub struct ShadeProfile {
    pub shade_0: [u8; 4],
    pub shade_1: [u8; 4],
    pub shade_2: [u8; 4],
    pub shade_3: [u8; 4],
    pub default: [u8; 4],
}

impl ShadeProfile {
    /// The green shades of the Game Boy screen, lightest first; anything else
    /// is drawn black.
    pub fn new() -> (profile: ShadeProfile)
        ensures
            profile.shade_0@ == seq![0x9Bu8, 0xBC, 0x0F, 0xFF],
            profile.shade_1@ == seq![0x8Bu8, 0xAC, 0x0F, 0xFF],
            profile.shade_2@ == seq![0x30u8, 0x62, 0x30, 0xFF],
            profile.shade_3@ == seq![0x0Fu8, 0x38, 0x0F, 0xFF],
            profile.default@ == seq![0x00u8, 0x00, 0x00, 0xFF],
    {
        let profile = ShadeProfile {
            shade_0: [0x9B, 0xBC, 0x0F, 0xFF],
            shade_1: [0x8B, 0xAC, 0x0F, 0xFF],
            shade_2: [0x30, 0x62, 0x30, 0xFF],
            shade_3: [0x0F, 0x38, 0x0F, 0xFF],
            default: [0x00, 0x00, 0x00, 0xFF],
        };
        assert(profile.shade_0@ =~= seq![0x9Bu8, 0xBC, 0x0F, 0xFF]);
        assert(profile.shade_1@ =~= seq![0x8Bu8, 0xAC, 0x0F, 0xFF]);
        assert(profile.shade_2@ =~= seq![0x30u8, 0x62, 0x30, 0xFF]);
        assert(profile.shade_3@ =~= seq![0x0Fu8, 0x38, 0x0F, 0xFF]);
        assert(profile.default@ =~= seq![0x00u8, 0x00, 0x00, 0xFF]);
        profile
    }
}

/// The state of the picture processor.
#[allow(non_camel_case_types)]
pub struct GPU_Registers {
    pub lcd_position: LCD_Position,
    pub v_blank: bool,
    pub v_blank_draw_flag: bool,
    pub lcdc_register: LCDC_Register,
    pub lcdc_status: LCDC_Status,
    pub shade_profile: ShadeProfile,
}

impl GPU_Registers {
    /// The scroll buffers hold one entry per visible line.
    pub open spec fn wf(&self) -> bool {
        self.lcd_position.wf()
    }

    /// Everything cleared, with the green shades of the Game Boy screen.
    pub fn new() -> (gpu: GPU_Registers)
        ensures
            gpu.wf(),
            gpu.lcd_position.is_initial(),
            !gpu.v_blank,
            !gpu.v_blank_draw_flag,
            gpu.lcdc_register == LCDC_Register::initial(),
            gpu.lcdc_status == LCDC_Status::initial(),
            gpu.shade_profile.shade_0@ == seq![0x9Bu8, 0xBC, 0x0F, 0xFF],
            gpu.shade_profile.shade_1@ == seq![0x8Bu8, 0xAC, 0x0F, 0xFF],
            gpu.shade_profile.shade_2@ == seq![0x30u8, 0x62, 0x30, 0xFF],
            gpu.shade_profile.shade_3@ == seq![0x0Fu8, 0x38, 0x0F, 0xFF],
            gpu.shade_profile.default@ == seq![0x00u8, 0x00, 0x00, 0xFF],
    {
        GPU_Registers {
            lcd_position: LCD_Position::new(),
            v_blank: false,
            v_blank_draw_flag: false,
            lcdc_register: LCDC_Register::new(),
            lcdc_status: LCDC_Status::new(),
            shade_profile: ShadeProfile::new(),
        }
    }
}

/// The scroll, window and line registers, with the scroll values latched at
/// each visible line.
#[allow(non_camel_case_types)]
pub struct LCD_Position {
    pub ly_register: LY_Register,
    pub scroll_x: u8,
    pub scroll_y: u8,
    pub ly_compare: u8,
    pub window_x: u8,
    pub window_y: u8,
    pub scroll_x_buffer: Vec<u8>,
    pub scroll_y_buffer: Vec<u8>,
}

impl LCD_Position {
    /// The scroll buffers hold one entry per visible line.
    pub open spec fn wf(&self) -> bool {
        &&& self.scroll_x_buffer@.len() == SCREEN_LINES
        &&& self.scroll_y_buffer@.len() == SCREEN_LINES
    }

    /// Every register and latched value zero.
    pub open spec fn is_initial(&self) -> bool {
        &&& self.ly_register == LY_Register::initial()
        &&& self.scroll_x == 0
        &&& self.scroll_y == 0
        &&& self.ly_compare == 0
        &&& self.window_x == 0
        &&& self.window_y == 0
        &&& forall|i: int| 0 <= i < SCREEN_LINES ==> #[trigger] self.scroll_x_buffer@[i] == 0
        &&& forall|i: int| 0 <= i < SCREEN_LINES ==> #[trigger] self.scroll_y_buffer@[i] == 0
    }

    /// Everything zero.
    pub fn new() -> (position: LCD_Position)
        ensures
            position.wf(),
            position.is_initial(),
    {
        let mut scroll_x_buffer: Vec<u8> = Vec::new();
        let mut scroll_y_buffer: Vec<u8> = Vec::new();
        let mut i: usize = 0;
        while i < SCREEN_LINES
            invariant
                i <= SCREEN_LINES,
                scroll_x_buffer@.len() == i,
                scroll_y_buffer@.len() == i,
                forall|j: int| 0 <= j < i ==> #[trigger] scroll_x_buffer@[j] == 0,
                forall|j: int| 0 <= j < i ==> #[trigger] scroll_y_buffer@[j] == 0,
            decreases SCREEN_LINES - i,
        {
            scroll_x_buffer.push(0);
            scroll_y_buffer.push(0);
            i = i + 1;
        }
        LCD_Position {
            ly_register: LY_Register::new(),
            scroll_x: 0,
            scroll_y: 0,
            ly_compare: 0,
            window_x: 0,
            window_y: 0,
            scroll_x_buffer,
            scroll_y_buffer,
        }
    }

    /// Loads SCX (0xFF43), SCY (0xFF42), LYC (0xFF45), WX (0xFF4B) and
    /// WY (0xFF4A) from memory, and sets the coincidence bit (bit 2 of 0xFF41)
    /// when LYC equals the current line, clearing it otherwise.
    pub fn update(&mut self, system_data: &mut SystemData)
        requires
            old(system_data).wf(),
        ensures
            final(self).scroll_x == old(system_data).memory()[0xFF43],
            final(self).scroll_y == old(system_data).memory()[0xFF42],
            final(self).ly_compare == old(system_data).memory()[0xFF45],
            final(self).window_x == old(system_data).memory()[0xFF4B],
            final(self).window_y == old(system_data).memory()[0xFF4A],
            final(self).ly_register == old(self).ly_register,
            final(self).scroll_x_buffer@ == old(self).scroll_x_buffer@,
            final(self).scroll_y_buffer@ == old(self).scroll_y_buffer@,
            final(system_data).memory() == old(system_data).memory().update(
                0xFF41,
                if old(system_data).memory()[0xFF45] == old(self).ly_register.value {
                    old(system_data).memory()[0xFF41] | 0x04
                } else {
                    old(system_data).memory()[0xFF41] & 0xFB
                },
            ),
            final(system_data).cycles == old(system_data).cycles,
            same_but_memory_and_cycles(*old(system_data), *final(system_data)),
    {
        self.scroll_x = system_data.mmu.mem_map[0xFF43];
        self.scroll_y = system_data.mmu.mem_map[0xFF42];
        self.ly_compare = system_data.mmu.mem_map[0xFF45];
        self.window_x = system_data.mmu.mem_map[0xFF4B];
        self.window_y = system_data.mmu.mem_map[0xFF4A];
        let status = system_data.mmu.mem_map[0xFF41];
        if self.ly_compare == self.ly_register.value {
            system_data.mmu.set_to_memory(0xFF41, status | 0x04, false);
        } else {
            system_data.mmu.set_to_memory(0xFF41, status & 0xFB, false);
        }
    }
}

/// Number of clock cycles in one frame.
pub const FRAME_CYCLES: u32 = 70224;
/// Number of clock cycles in one scan line.
pub const LINE_CYCLES: u16 = 456;
/// Number of scan lines, the blanking lines included.
pub const LINES_PER_FRAME: u8 = 154;

/// The current scan line (LY) and the cycle counters that move it.
#[derive(Clone, Copy, Debug)]
#[allow(non_camel_case_types)]
pub struct LY_Register {
    pub value: u8,
    pub cycle_count: u32,
    pub sub_cycle_count: u16,
}

/// The line after `value`, wrapping from 153 to 0.
pub open spec fn next_line(value: u8) -> u8 {
    if value + 1 == LINES_PER_FRAME {
        0
    } else {
        (value + 1) as u8
    }
}

impl LY_Register {
    /// Line 0 with the counters cleared.
    pub open spec fn initial() -> LY_Register {
        LY_Register { value: 0, cycle_count: 0, sub_cycle_count: 0 }
    }

    /// Line 0 with the counters cleared.
    pub fn new() -> (ly: LY_Register)
        ensures
            ly == LY_Register::initial(),
    {
        LY_Register { value: 0, cycle_count: 0, sub_cycle_count: 0 }
    }

    /// Moves to the next line, wrapping from 153 to 0, and writes the line
    /// to 0xFF44; returns whether it wrapped.
    pub fn tick(&mut self, system_data: &mut SystemData) -> (wrapped: bool)
        requires
            old(system_data).wf(),
            old(self).value < 255,
        ensures
            final(self).value == next_line(old(self).value),
            wrapped == (old(self).value + 1 == LINES_PER_FRAME),
            final(self).cycle_count == old(self).cycle_count,
            final(self).sub_cycle_count == old(self).sub_cycle_count,
            final(system_data).memory() == old(system_data).memory().update(0xFF44, final(self).value),
            final(system_data).cycles == old(system_data).cycles,
            same_but_memory_and_cycles(*old(system_data), *final(system_data)),
    {
        self.value = self.value + 1;
        if self.value == LINES_PER_FRAME {
            self.value = 0;
            system_data.mmu.set_to_memory(0xFF44, self.value, false);
            return true;
        }
        system_data.mmu.set_to_memory(0xFF44, self.value, false);
        false
    }

    /// Writes the current line to 0xFF44; the line itself is left as it is.
    pub fn reset(&mut self, system_data: &mut SystemData)
        requires
            old(system_data).wf(),
        ensures
            *final(self) == *old(self),
            final(system_data).memory() == old(system_data).memory().update(0xFF44, old(self).value),
            final(system_data).cycles == old(system_data).cycles,
            same_but_memory_and_cycles(*old(system_data), *final(system_data)),
    {
        system_data.mmu.set_to_memory(0xFF44, self.value, false);
    }

    /// Adds the cycles of the last instruction to the frame counter; returns
    /// whether a whole frame (70224 cycles) was completed, which is then
    /// taken off.
    pub fn add_cycles(&mut self, system_data: &SystemData) -> (frame_done: bool)
        requires
            old(self).cycle_count + system_data.cycles <= u32::MAX,
        ensures
            frame_done == (old(self).cycle_count + system_data.cycles >= FRAME_CYCLES),
            final(self).cycle_count == (if frame_done {
                old(self).cycle_count + system_data.cycles - FRAME_CYCLES
            } else {
                old(self).cycle_count + system_data.cycles
            }),
            final(self).value == old(self).value,
            final(self).sub_cycle_count == old(self).sub_cycle_count,
    {
        self.cycle_count = self.cycle_count + system_data.cycles as u32;
        if self.cycle_count >= FRAME_CYCLES {
            self.cycle_count = self.cycle_count - FRAME_CYCLES;
            return true;
        }
        false
    }

    /// Adds the cycles of the last instruction to the line counter; returns
    /// whether a whole line (456 cycles) was completed, which is then taken off.
    pub fn add_sub_cycles(&mut self, system_data: &SystemData) -> (line_done: bool)
        requires
            old(self).sub_cycle_count + system_data.cycles <= u16::MAX,
        ensures
            line_done == (old(self).sub_cycle_count + system_data.cycles >= LINE_CYCLES),
            final(self).sub_cycle_count == (if line_done {
                old(self).sub_cycle_count + system_data.cycles - LINE_CYCLES
            } else {
                old(self).sub_cycle_count + system_data.cycles
            }),
            final(self).value == old(self).value,
            final(self).cycle_count == old(self).cycle_count,
    {
        self.sub_cycle_count = self.sub_cycle_count + system_data.cycles as u16;
        if self.sub_cycle_count >= LINE_CYCLES {
            self.sub_cycle_count = self.sub_cycle_count - LINE_CYCLES;
            return true;
        }
        false
    }
}

/// Bit `i` of `value` as a flag.
pub open spec fn bit_set(value: u8, i: u8) -> bool {
    (value >> i) & 1 == 1
}

/// The display control register (LCDC, 0xFF40) and its bits.
#[derive(Clone, Copy, Debug)]
#[allow(non_camel_case_types)]
pub struct LCDC_Register {
    pub value: u8,
    pub display_enable: bool,
    pub window_display_select: bool,
    pub window_enable: bool,
    pub tile_data: bool,
    pub background_display_select: bool,
    pub sprite_size: bool,
    pub sprite_enable: bool,
    pub background_enable: bool,
}

impl LCDC_Register {
    /// Zero with every flag clear.
    pub open spec fn initial() -> LCDC_Register {
        LCDC_Register {
            value: 0,
            display_enable: false,
            window_display_select: false,
            window_enable: false,
            tile_data: false,
            background_display_select: false,
            sprite_size: false,
            sprite_enable: false,
            background_enable: false,
        }
    }

    /// The flags decoded from `value`: bit 7 display enable, 6 window map
    /// select, 5 window enable, 4 tile data select, 3 background map select,
    /// 2 sprite size, 1 sprite enable, 0 background enable.
    pub open spec fn decoded(value: u8) -> LCDC_Register {
        LCDC_Register {
            value: value,
            display_enable: bit_set(value, 7),
            window_display_select: bit_set(value, 6),
            window_enable: bit_set(value, 5),
            tile_data: bit_set(value, 4),
            background_display_select: bit_set(value, 3),
            sprite_size: bit_set(value, 2),
            sprite_enable: bit_set(value, 1),
            background_enable: bit_set(value, 0),
        }
    }

    /// Zero with every flag clear.
    pub fn new() -> (lcdc: LCDC_Register)
        ensures
            lcdc == LCDC_Register::initial(),
    {
        LCDC_Register {
            value: 0,
            display_enable: false,
            window_display_select: false,
            window_enable: false,
            tile_data: false,
            background_display_select: false,
            sprite_size: false,
            sprite_enable: false,
            background_enable: false,
        }
    }

    /// Loads the register from 0xFF40 and decodes its bits.
    pub fn update_lcdc_register(&mut self, system_data: &SystemData)
        requires
            system_data.wf(),
        ensures
            *final(self) == LCDC_Register::decoded(system_data.memory()[0xFF40]),
    {
        self.value = system_data.mmu.mem_map[0xFF40];
        self.map_bit_states();
    }

    fn map_bit_states(&mut self)
        ensures
            *final(self) == LCDC_Register::decoded(old(self).value),
    {
        let v = self.value;
        self.background_enable = (v >> 0u8) & 1 == 1;
        self.sprite_enable = (v >> 1u8) & 1 == 1;
        self.sprite_size = (v >> 2u8) & 1 == 1;
        self.background_display_select = (v >> 3u8) & 1 == 1;
        self.tile_data = (v >> 4u8) & 1 == 1;
        self.window_enable = (v >> 5u8) & 1 == 1;
        self.window_display_select = (v >> 6u8) & 1 == 1;
        self.display_enable = (v >> 7u8) & 1 == 1;
    }
}

/// The display status register (STAT, 0xFF41) and its bits.
#[derive(Clone, Copy, Debug)]
#[allow(non_camel_case_types)]
pub struct LCDC_Status {
    pub value: u8,
    pub lyc_ly_coincidence_interrupt: bool,
    pub mode_2_oam_interrupt: bool,
    pub mode_1_v_blank_interrupt: bool,
    pub mode_0_h_blank_interrupt: bool,
    pub coincidence_flag: bool,
    pub mode_flag: u8,
}

impl LCDC_Status {
    /// Zero with every flag clear and mode 2.
    pub open spec fn initial() -> LCDC_Status {
        LCDC_Status {
            value: 0,
            lyc_ly_coincidence_interrupt: false,
            mode_2_oam_interrupt: false,
            mode_1_v_blank_interrupt: false,
            mode_0_h_blank_interrupt: false,
            coincidence_flag: false,
            mode_flag: 2,
        }
    }

    /// The flags decoded from `value`: bit 6 coincidence interrupt, 5 mode 2
    /// interrupt, 4 mode 1 interrupt, 3 mode 0 interrupt, 2 coincidence, and
    /// the mode in bits 0-1.
    pub open spec fn decoded(value: u8) -> LCDC_Status {
        LCDC_Status {
            value: value,
            lyc_ly_coincidence_interrupt: bit_set(value, 6),
            mode_2_oam_interrupt: bit_set(value, 5),
            mode_1_v_blank_interrupt: bit_set(value, 4),
            mode_0_h_blank_interrupt: bit_set(value, 3),
            coincidence_flag: bit_set(value, 2),
            mode_flag: value & 0x03,
        }
    }

    /// Zero with every flag clear and mode 2.
    pub fn new() -> (status: LCDC_Status)
        ensures
            status == LCDC_Status::initial(),
    {
        LCDC_Status {
            value: 0,
            lyc_ly_coincidence_interrupt: false,
            mode_2_oam_interrupt: false,
            mode_1_v_blank_interrupt: false,
            mode_0_h_blank_interrupt: false,
            coincidence_flag: false,
            mode_flag: 2,
        }
    }

    /// Loads the register from 0xFF41 and decodes its bits.
    pub fn update_lcdc_status(&mut self, system_data: &SystemData)
        requires
            system_data.wf(),
        ensures
            *final(self) == LCDC_Status::decoded(system_data.memory()[0xFF41]),
    {
        self.value = system_data.mmu.mem_map[0xFF41];
        self.map_bit_states();
    }

    fn map_bit_states(&mut self)
        ensures
            *final(self) == LCDC_Status::decoded(old(self).value),
    {
        let v = self.value;
        self.coincidence_flag = (v >> 2u8) & 1 == 1;
        self.mode_0_h_blank_interrupt = (v >> 3u8) & 1 == 1;
        self.mode_1_v_blank_interrupt = (v >> 4u8) & 1 == 1;
        self.mode_2_oam_interrupt = (v >> 5u8) & 1 == 1;
        self.lyc_ly_coincidence_interrupt = (v >> 6u8) & 1 == 1;
        self.mode_flag = v & 0x03;
    }
}

} // verus!
