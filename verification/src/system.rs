use vstd::prelude::*;
use crate::mmu::{MEMORY_SIZE, MMU};
use crate::timer::{Timer};

verus! {

/// Everything the emulator keeps besides the CPU registers.
///
/// The display refresh rate is kept in millihertz as an integer
/// (59.73 Hz is 59730).
pub struct SystemData {
    pub mmu: MMU,
    pub timer: Timer,
    pub input: PlayerInput,
    pub width: u16,
    pub tile_width: u16,
    pub height: u16,
    pub tile_height: u16,
    pub clock_speed: u32,
    pub horizontal_sync: u32,
    pub vertical_sync_millihertz: u32,
    pub cycles: u8,
}

impl SystemData {
    /// The memory map covers the whole address space.
    pub open spec fn wf(&self) -> bool {
        self.mmu.wf()
    }

    /// The contents of memory as a sequence of bytes.
    pub open spec fn memory(&self) -> Seq<u8> {
        self.mmu.mem_map@
    }
}

/// `after` equals `before` in everything but the contents of memory, the
/// cycle count and the timer.
pub open spec fn same_settings(before: SystemData, after: SystemData) -> bool {
    &&& after.mmu.cartridge_type == before.mmu.cartridge_type
    &&& after.mmu.rom_size == before.mmu.rom_size
    &&& after.mmu.ram_size == before.mmu.ram_size
    &&& after.input == before.input
    &&& after.width == before.width
    &&& after.tile_width == before.tile_width
    &&& after.height == before.height
    &&& after.tile_height == before.tile_height
    &&& after.clock_speed == before.clock_speed
    &&& after.horizontal_sync == before.horizontal_sync
    &&& after.vertical_sync_millihertz == before.vertical_sync_millihertz
}

/// `after` equals `before` in everything but the contents of memory and the
/// cycle count.
pub open spec fn same_but_memory_and_cycles(before: SystemData, after: SystemData) -> bool {
    &&& same_settings(before, after)
    &&& after.timer == before.timer
}

/// The CPU registers and CPU state flags.
#[derive(Clone, Copy, Debug)]
pub struct Registers {
    pub accumulator: u8,
    pub flags: u8,
    pub b_register: u8,
    pub c_register: u8,
    pub d_register: u8,
    pub e_register: u8,
    pub h_register: u8,
    pub l_register: u8,
    pub stack_pointer: u16,
    pub program_counter: u16,
    pub interrupt_master_enable_flag: bool,
    pub interrupt_master_enable_delay_flag: bool,
    pub halt_flag: bool,
}

/// The 8-bit register selected by `index` in the order A, B, C, D, E, H, L;
/// any other index reads as 0xFF.
pub open spec fn reg8(r: Registers, index: u8) -> u8 {
    if index == 0 {
        r.accumulator
    } else if index == 1 {
        r.b_register
    } else if index == 2 {
        r.c_register
    } else if index == 3 {
        r.d_register
    } else if index == 4 {
        r.e_register
    } else if index == 5 {
        r.h_register
    } else if index == 6 {
        r.l_register
    } else {
        0xFF
    }
}

/// `r` with the 8-bit register selected by `index` (A, B, C, D, E, H, L)
/// replaced by `value`; any other index leaves `r` unchanged.
pub open spec fn with_reg8(r: Registers, index: u8, value: u8) -> Registers {
    if index == 0 {
        Registers { accumulator: value, ..r }
    } else if index == 1 {
        Registers { b_register: value, ..r }
    } else if index == 2 {
        Registers { c_register: value, ..r }
    } else if index == 3 {
        Registers { d_register: value, ..r }
    } else if index == 4 {
        Registers { e_register: value, ..r }
    } else if index == 5 {
        Registers { h_register: value, ..r }
    } else if index == 6 {
        Registers { l_register: value, ..r }
    } else {
        r
    }
}

/// The 8-bit register selected by `index` in the order A, F, B, C, D, E, H, L;
/// any other index reads as 0xFF.
pub open spec fn reg8_with_flags(r: Registers, index: u8) -> u8 {
    if index == 0 {
        r.accumulator
    } else if index == 1 {
        r.flags
    } else if index == 2 {
        r.b_register
    } else if index == 3 {
        r.c_register
    } else if index == 4 {
        r.d_register
    } else if index == 5 {
        r.e_register
    } else if index == 6 {
        r.h_register
    } else if index == 7 {
        r.l_register
    } else {
        0xFF
    }
}

/// `r` with the register selected by `index` (A, F, B, C, D, E, H, L)
/// replaced by `value`; any other index leaves `r` unchanged.
pub open spec fn with_reg8_with_flags(r: Registers, index: u8, value: u8) -> Registers {
    if index == 0 {
        Registers { accumulator: value, ..r }
    } else if index == 1 {
        Registers { flags: value, ..r }
    } else if index == 2 {
        Registers { b_register: value, ..r }
    } else if index == 3 {
        Registers { c_register: value, ..r }
    } else if index == 4 {
        Registers { d_register: value, ..r }
    } else if index == 5 {
        Registers { e_register: value, ..r }
    } else if index == 6 {
        Registers { h_register: value, ..r }
    } else if index == 7 {
        Registers { l_register: value, ..r }
    } else {
        r
    }
}

/// The 16-bit value of two registers, `high` in the upper byte.
pub open spec fn pair(high: u8, low: u8) -> u16 {
    (high * 256 + low) as u16
}

/// The register pair selected by `index` in the order AF, BC, DE, HL, SP;
/// any other index reads as 0xFFFF.
pub open spec fn reg16(r: Registers, index: u8) -> u16 {
    if index == 0 {
        pair(r.accumulator, r.flags)
    } else if index == 1 {
        pair(r.b_register, r.c_register)
    } else if index == 2 {
        pair(r.d_register, r.e_register)
    } else if index == 3 {
        pair(r.h_register, r.l_register)
    } else if index == 4 {
        r.stack_pointer
    } else {
        0xFFFF
    }
}

/// The upper byte of a 16-bit value.
pub open spec fn high_byte(value: u16) -> u8 {
    (value / 256) as u8
}

/// The lower byte of a 16-bit value.
pub open spec fn low_byte(value: u16) -> u8 {
    (value % 256) as u8
}

/// `r` with the register pair selected by `index` (AF, BC, DE, HL, SP)
/// replaced by `value`; any other index leaves `r` unchanged.
pub open spec fn with_reg16(r: Registers, index: u8, value: u16) -> Registers {
    if index == 0 {
        Registers { accumulator: high_byte(value), flags: low_byte(value), ..r }
    } else if index == 1 {
        Registers { b_register: high_byte(value), c_register: low_byte(value), ..r }
    } else if index == 2 {
        Registers { d_register: high_byte(value), e_register: low_byte(value), ..r }
    } else if index == 3 {
        Registers { h_register: high_byte(value), l_register: low_byte(value), ..r }
    } else if index == 4 {
        Registers { stack_pointer: value, ..r }
    } else {
        r
    }
}

/// The HL register pair.
pub open spec fn hl(r: Registers) -> u16 {
    pair(r.h_register, r.l_register)
}

/// Combines two bytes into a 16-bit value, `high` in the upper byte.
pub fn combine_bytes(high: u8, low: u8) -> (value: u16)
    ensures
        value == pair(high, low),
        value as int == high * 256 + low,
{
    (high as u16) * 256 + (low as u16)
}

/// Splits a 16-bit value into its upper and lower byte.
pub fn split_bytes(value: u16) -> (bytes: (u8, u8))
    ensures
        bytes.0 == high_byte(value),
        bytes.1 == low_byte(value),
        bytes.0 * 256 + bytes.1 == value,
{
    ((value / 256) as u8, (value % 256) as u8)
}

impl Registers {
    /// All registers and state flags cleared.
    pub fn new() -> (r: Registers)
        ensures
            r == (Registers {
                accumulator: 0,
                flags: 0,
                b_register: 0,
                c_register: 0,
                d_register: 0,
                e_register: 0,
                h_register: 0,
                l_register: 0,
                stack_pointer: 0,
                program_counter: 0,
                interrupt_master_enable_flag: false,
                interrupt_master_enable_delay_flag: false,
                halt_flag: false,
            }),
    {
        Registers {
            accumulator: 0,
            flags: 0,
            b_register: 0,
            c_register: 0,
            d_register: 0,
            e_register: 0,
            h_register: 0,
            l_register: 0,
            stack_pointer: 0,
            program_counter: 0,
            interrupt_master_enable_flag: false,
            interrupt_master_enable_delay_flag: false,
            halt_flag: false,
        }
    }

    /// Writes the register selected by `index` (A, B, C, D, E, H, L);
    /// other indices change nothing.
    pub fn mapped_register_setter(&mut self, index: u8, value: u8)
        ensures
            *final(self) == with_reg8(*old(self), index, value),
    {
        if index == 0 {
            self.accumulator = value;
        } else if index == 1 {
            self.b_register = value;
        } else if index == 2 {
            self.c_register = value;
        } else if index == 3 {
            self.d_register = value;
        } else if index == 4 {
            self.e_register = value;
        } else if index == 5 {
            self.h_register = value;
        } else if index == 6 {
            self.l_register = value;
        }
    }

    /// Reads the register selected by `index` (A, B, C, D, E, H, L);
    /// other indices read as 0xFF.
    pub fn mapped_register_getter(&self, index: u8) -> (value: u8)
        ensures
            value == reg8(*self, index),
    {
        if index == 0 {
            self.accumulator
        } else if index == 1 {
            self.b_register
        } else if index == 2 {
            self.c_register
        } else if index == 3 {
            self.d_register
        } else if index == 4 {
            self.e_register
        } else if index == 5 {
            self.h_register
        } else if index == 6 {
            self.l_register
        } else {
            0xFF
        }
    }

    /// Writes the register selected by `index` (A, F, B, C, D, E, H, L);
    /// other indices change nothing.
    pub fn mapped_register_setter_with_flags(&mut self, index: u8, value: u8)
        ensures
            *final(self) == with_reg8_with_flags(*old(self), index, value),
    {
        if index == 0 {
            self.accumulator = value;
        } else if index == 1 {
            self.flags = value;
        } else if index == 2 {
            self.b_register = value;
        } else if index == 3 {
            self.c_register = value;
        } else if index == 4 {
            self.d_register = value;
        } else if index == 5 {
            self.e_register = value;
        } else if index == 6 {
            self.h_register = value;
        } else if index == 7 {
            self.l_register = value;
        }
    }

    /// Reads the register selected by `index` (A, F, B, C, D, E, H, L);
    /// other indices read as 0xFF.
    pub fn mapped_register_getter_with_flags(&self, index: u8) -> (value: u8)
        ensures
            value == reg8_with_flags(*self, index),
    {
        if index == 0 {
            self.accumulator
        } else if index == 1 {
            self.flags
        } else if index == 2 {
            self.b_register
        } else if index == 3 {
            self.c_register
        } else if index == 4 {
            self.d_register
        } else if index == 5 {
            self.e_register
        } else if index == 6 {
            self.h_register
        } else if index == 7 {
            self.l_register
        } else {
            0xFF
        }
    }

    /// Reads the register pair selected by `index` (AF, BC, DE, HL, SP);
    /// other indices read as 0xFFFF.
    pub fn mapped_16_bit_register_getter(&self, index: u8) -> (value: u16)
        ensures
            value == reg16(*self, index),
    {
        if index == 0 {
            combine_bytes(self.accumulator, self.flags)
        } else if index == 1 {
            combine_bytes(self.b_register, self.c_register)
        } else if index == 2 {
            combine_bytes(self.d_register, self.e_register)
        } else if index == 3 {
            combine_bytes(self.h_register, self.l_register)
        } else if index == 4 {
            self.stack_pointer
        } else {
            0xFFFF
        }
    }

    /// Writes the register pair selected by `index` (AF, BC, DE, HL, SP),
    /// upper byte to the first register of the pair; other indices change
    /// nothing.
    pub fn mapped_16_bit_register_setter(&mut self, index: u8, value: u16)
        ensures
            *final(self) == with_reg16(*old(self), index, value),
    {
        let (high, low) = split_bytes(value);
        if index == 0 {
            self.accumulator = high;
            self.flags = low;
        } else if index == 1 {
            self.b_register = high;
            self.c_register = low;
        } else if index == 2 {
            self.d_register = high;
            self.e_register = low;
        } else if index == 3 {
            self.h_register = high;
            self.l_register = low;
        } else if index == 4 {
            self.stack_pointer = value;
        }
    }
}

/// Reading a register after writing it gives back the value written; the
/// other registers keep their values.
pub proof fn law_register_read_after_write(r: Registers, written: u8, read: u8, value: u8)
    requires
        written < 7,
        read < 7,
    ensures
        reg8(with_reg8(r, written, value), read) == (if read == written { value } else { reg8(r, read) }),
{
}

/// The same for the register order that includes the flags register.
pub proof fn law_register_with_flags_read_after_write(r: Registers, written: u8, read: u8, value: u8)
    requires
        written < 8,
        read < 8,
    ensures
        reg8_with_flags(with_reg8_with_flags(r, written, value), read) == (if read == written {
            value
        } else {
            reg8_with_flags(r, read)
        }),
{
}

/// Reading a register pair after writing it gives back the value written.
pub proof fn law_register_pair_read_after_write(r: Registers, index: u8, value: u16)
    requires
        index < 5,
    ensures
        reg16(with_reg16(r, index, value), index) == value,
{
}

/// A register pair is made of its two 8-bit registers, the first one in the
/// upper byte.
pub proof fn law_register_pair_is_two_registers(r: Registers)
    ensures
        reg16(r, 0) == reg8_with_flags(r, 0) * 256 + reg8_with_flags(r, 1),
        reg16(r, 1) == reg8(r, 1) * 256 + reg8(r, 2),
        reg16(r, 2) == reg8(r, 3) * 256 + reg8(r, 4),
        reg16(r, 3) == reg8(r, 5) * 256 + reg8(r, 6),
{
}

/// Writing a register pair and reading back its two halves gives the upper
/// and lower byte of the value.
pub proof fn law_register_pair_write_splits(r: Registers, value: u16)
    ensures
        reg8(with_reg16(r, 1, value), 1) * 256 + reg8(with_reg16(r, 1, value), 2) == value,
        reg8(with_reg16(r, 2, value), 3) * 256 + reg8(with_reg16(r, 2, value), 4) == value,
        reg8(with_reg16(r, 3, value), 5) * 256 + reg8(with_reg16(r, 3, value), 6) == value,
        reg8_with_flags(with_reg16(r, 0, value), 0) * 256 + reg8_with_flags(with_reg16(r, 0, value), 1) == value,
{
}

/// The buttons of the joypad.
#[derive(Clone, Copy, Debug)]
pub struct PlayerInput {
    pub left: bool,
    pub right: bool,
    pub up: bool,
    pub down: bool,
    pub select: bool,
    pub start: bool,
    pub a_button: bool,
    pub b_button: bool,
}

/// Clears `bit` of `value` when `pressed`, sets it otherwise (the joypad is
/// active low).
pub open spec fn joypad_bit(value: u8, bit: u8, pressed: bool) -> u8 {
    if pressed {
        value & !bit
    } else {
        value | bit
    }
}

/// The value of the joypad register given the selection bits in memory.
pub open spec fn joypad_value(input: PlayerInput, register: u8) -> u8 {
    let value = register | 0xC0;
    let option = (value & 0x30) / 16;
    if option == 1 {
        joypad_bit(joypad_bit(joypad_bit(joypad_bit(value, 0x01, input.a_button), 0x02, input.b_button), 0x04, input.select), 0x08, input.start)
    } else if option == 2 {
        joypad_bit(joypad_bit(joypad_bit(joypad_bit(value, 0x01, input.right), 0x02, input.left), 0x04, input.up), 0x08, input.down)
    } else if option == 3 {
        0xFF
    } else {
        value
    }
}

fn apply_joypad_bit(value: u8, bit: u8, pressed: bool) -> (r: u8)
    ensures
        r == joypad_bit(value, bit, pressed),
{
    if pressed {
        value & !bit
    } else {
        value | bit
    }
}

/// The four low bits after the four buttons of a group are applied.
proof fn lemma_joypad_bits(v: u8, p0: bool, p1: bool, p2: bool, p3: bool)
    by (bit_vector)
    ensures
        ({
            let w = joypad_bit(joypad_bit(joypad_bit(joypad_bit(v, 0x01, p0), 0x02, p1), 0x04, p2), 0x08, p3);
            &&& (w & 0x01 == 0) == p0
            &&& (w & 0x02 == 0) == p1
            &&& (w & 0x04 == 0) == p2
            &&& (w & 0x08 == 0) == p3
        }),
{
}

/// The joypad register is active low: with the buttons selected (bits 4-5
/// of 0xFF00 are 01), bits 0-3 are clear exactly for A, B, select and start
/// pressed; with the directions selected (10), for right, left, up and down.
pub proof fn law_joypad_active_low(input: PlayerInput, register: u8)
    ensures
        (register | 0xC0) & 0x30 == 0x10 ==> {
            let value = joypad_value(input, register);
            &&& (value & 0x01 == 0) == input.a_button
            &&& (value & 0x02 == 0) == input.b_button
            &&& (value & 0x04 == 0) == input.select
            &&& (value & 0x08 == 0) == input.start
        },
        (register | 0xC0) & 0x30 == 0x20 ==> {
            let value = joypad_value(input, register);
            &&& (value & 0x01 == 0) == input.right
            &&& (value & 0x02 == 0) == input.left
            &&& (value & 0x04 == 0) == input.up
            &&& (value & 0x08 == 0) == input.down
        },
{
    let v = register | 0xC0;
    lemma_joypad_bits(v, input.a_button, input.b_button, input.select, input.start);
    lemma_joypad_bits(v, input.right, input.left, input.up, input.down);
}

impl PlayerInput {
    /// No button pressed.
    pub fn new() -> (input: PlayerInput)
        ensures
            input == (PlayerInput {
                left: false,
                right: false,
                up: false,
                down: false,
                select: false,
                start: false,
                a_button: false,
                b_button: false,
            }),
    {
        PlayerInput {
            left: false,
            right: false,
            up: false,
            down: false,
            select: false,
            start: false,
            a_button: false,
            b_button: false,
        }
    }

    /// The joypad register value for the button group that the register at
    /// 0xFF00 selects: bits 4-5 = 1 reads the buttons, 2 the directions, 3
    /// reads 0xFF, 0 leaves the low nibble as it is.
    pub fn update_input(&self, system_data: &SystemData) -> (value: u8)
        requires
            system_data.wf(),
        ensures
            value == joypad_value(*self, system_data.memory()[0xFF00]),
    {
        let input_value = system_data.mmu.mem_map[0xFF00] | 0xC0;
        let option = (input_value & 0x30) / 16;
        if option == 1 {
            let v = apply_joypad_bit(input_value, 0x01, self.a_button);
            let v = apply_joypad_bit(v, 0x02, self.b_button);
            let v = apply_joypad_bit(v, 0x04, self.select);
            apply_joypad_bit(v, 0x08, self.start)
        } else if option == 2 {
            let v = apply_joypad_bit(input_value, 0x01, self.right);
            let v = apply_joypad_bit(v, 0x02, self.left);
            let v = apply_joypad_bit(v, 0x04, self.up);
            apply_joypad_bit(v, 0x08, self.down)
        } else if option == 3 {
            0xFF
        } else {
            input_value
        }
    }
}

/// Whether two strings hold the same characters.
fn same_text(a: &str, b: &str) -> (equal: bool)
    ensures
        equal == (a@ == b@),
{
    let n = a.unicode_len();
    if n != b.unicode_len() {
        return false;
    }
    let mut i: usize = 0;
    while i < n
        invariant
            n == a@.len(),
            n == b@.len(),
            i <= n,
            forall|j: int| 0 <= j < i ==> a@[j] == b@[j],
        decreases n - i,
    {
        if a.get_char(i) != b.get_char(i) {
            return false;
        }
        i = i + 1;
    }
    proof {
        assert(a@ =~= b@);
    }
    true
}

/// The text that names the classic Game Boy.
pub open spec fn classic_name() -> Seq<char> {
    seq!['C', 'L', 'A', 'S', 'S', 'I', 'C']
}

/// The screen and timing description of the machine type named `emulator_type`:
/// "CLASSIC" gives the classic Game Boy, anything else a description of zeros.
/// Either way the memory map is a fresh zeroed one and the timer and joypad
/// are in their initial state.
pub fn get_system_data(emulator_type: &str) -> (system_data: SystemData)
    ensures
        system_data.wf(),
        forall|i: int| 0 <= i < MEMORY_SIZE ==> #[trigger] system_data.memory()[i] == 0,
        system_data.mmu.cartridge_type == 0,
        system_data.mmu.rom_size == 0x00008000,
        system_data.mmu.ram_size == 0,
        system_data.timer == Timer::initial(),
        system_data.input == (PlayerInput {
            left: false,
            right: false,
            up: false,
            down: false,
            select: false,
            start: false,
            a_button: false,
            b_button: false,
        }),
        system_data.cycles == 0,
        emulator_type@ == classic_name() ==> {
            &&& system_data.width == 160
            &&& system_data.tile_width == 20
            &&& system_data.height == 144
            &&& system_data.tile_height == 18
            &&& system_data.clock_speed == 4194304
            &&& system_data.horizontal_sync == 9198000
            &&& system_data.vertical_sync_millihertz == 59730
        },
        emulator_type@ != classic_name() ==> {
            &&& system_data.width == 0
            &&& system_data.tile_width == 0
            &&& system_data.height == 0
            &&& system_data.tile_height == 0
            &&& system_data.clock_speed == 0
            &&& system_data.horizontal_sync == 0
            &&& system_data.vertical_sync_millihertz == 0
        },
{
    let classic = "CLASSIC";
    proof {
        reveal_strlit("CLASSIC");
        assert(classic@ =~= classic_name());
    }
    if same_text(emulator_type, classic) {
        SystemData {
            mmu: MMU::new(),
            timer: Timer::new(),
            input: PlayerInput::new(),
            width: 160,
            tile_width: 20,
            height: 144,
            tile_height: 18,
            clock_speed: 4194304,
            horizontal_sync: 9198000,
            vertical_sync_millihertz: 59730,
            cycles: 0,
        }
    } else {
        SystemData {
            mmu: MMU::new(),
            timer: Timer::new(),
            input: PlayerInput::new(),
            width: 0,
            tile_width: 0,
            height: 0,
            tile_height: 0,
            clock_speed: 0,
            horizontal_sync: 0,
            vertical_sync_millihertz: 0,
            cycles: 0,
        }
    }
}

/// Memory as the boot program leaves it: the sound, timer, display and
/// interrupt registers get their power-on values.
pub open spec fn boot_memory(m: Seq<u8>) -> Seq<u8> {
    m.update(0xFF05, 0x00).update(0xFF06, 0x00).update(0xFF07, 0x00).update(0xFF10, 0x80).update(0xFF11, 0xBF)
        .update(0xFF12, 0xF3).update(0xFF14, 0xBF).update(0xFF16, 0x3F).update(0xFF17, 0x00).update(0xFF19, 0xBF)
        .update(0xFF1A, 0x7F).update(0xFF1B, 0xFF).update(0xFF1C, 0x9F).update(0xFF1E, 0xBF).update(0xFF20, 0xFF)
        .update(0xFF21, 0x00).update(0xFF22, 0x00).update(0xFF23, 0xBF).update(0xFF24, 0x77).update(0xFF25, 0xF3)
        .update(0xFF26, 0xF1).update(0xFF40, 0x91).update(0xFF42, 0x00).update(0xFF43, 0x00).update(0xFF45, 0x00)
        .update(0xFF47, 0xFC).update(0xFF48, 0xFF).update(0xFF49, 0xFF).update(0xFF4A, 0x00).update(0xFF4B, 0x00)
        .update(0xFFFF, 0x00)
}

/// Registers as the boot program leaves them: execution starts at 0x100 with
/// AF = 0x01B0, BC = 0x0013, DE = 0x00D8, HL = 0x014D and SP = 0xFFFE.
pub open spec fn boot_registers(r: Registers) -> Registers {
    with_reg16(
        with_reg16(
            with_reg16(
                with_reg16(with_reg16(Registers { program_counter: 0x100, ..r }, 0, 0x01B0), 1, 0x0013),
                2,
                0x00D8,
            ),
            3,
            0x014D,
        ),
        4,
        0xFFFE,
    )
}

/// Puts the machine in the state the boot program leaves it in.
pub fn init_emulator_state(system_data: &mut SystemData, registers: &mut Registers)
    requires
        old(system_data).wf(),
    ensures
        final(system_data).memory() == boot_memory(old(system_data).memory()),
        *final(registers) == boot_registers(*old(registers)),
        final(system_data).wf(),
        final(system_data).cycles == old(system_data).cycles,
        same_but_memory_and_cycles(*old(system_data), *final(system_data)),
{
    registers.program_counter = 0x100;
    let states: [u8; 31] = [
        0x00, 0x00, 0x00, 0x80, 0xBF, 0xF3, 0xBF, 0x3F, 0x00, 0xBF, 0x7F, 0xFF, 0x9F, 0xBF, 0xFF, 0x00,
        0x00, 0xBF, 0x77, 0xF3, 0xF1, 0x91, 0x00, 0x00, 0x00, 0xFC, 0xFF, 0xFF, 0x00, 0x00, 0x00,
    ];
    let mem_locations: [u16; 31] = [
        0xFF05, 0xFF06, 0xFF07, 0xFF10, 0xFF11, 0xFF12, 0xFF14, 0xFF16, 0xFF17, 0xFF19, 0xFF1A, 0xFF1B,
        0xFF1C, 0xFF1E, 0xFF20, 0xFF21, 0xFF22, 0xFF23, 0xFF24, 0xFF25, 0xFF26, 0xFF40, 0xFF42, 0xFF43,
        0xFF45, 0xFF47, 0xFF48, 0xFF49, 0xFF4A, 0xFF4B, 0xFFFF,
    ];
    let ghost start = system_data.memory();
    let mut i: usize = 0;
    while i < 31
        invariant
            0 <= i <= 31,
            system_data.wf(),
            system_data.memory() == boot_writes(start, states@, mem_locations@, i as int),
            system_data.cycles == old(system_data).cycles,
            same_but_memory_and_cycles(*old(system_data), *system_data),
            states@ == boot_states(),
            mem_locations@ == boot_addresses(),
        decreases 31 - i,
    {
        system_data.mmu.set_to_memory(mem_locations[i] as usize, states[i], false);
        i = i + 1;
    }
    proof {
        lemma_boot_writes(start);
    }
    let register_states: [u16; 5] = [0x01B0, 0x0013, 0x00D8, 0x014D, 0xFFFE];
    registers.mapped_16_bit_register_setter(0, register_states[0]);
    registers.mapped_16_bit_register_setter(1, register_states[1]);
    registers.mapped_16_bit_register_setter(2, register_states[2]);
    registers.mapped_16_bit_register_setter(3, register_states[3]);
    registers.mapped_16_bit_register_setter(4, register_states[4]);
}

/// The power-on values of the I/O registers, in the order of `boot_addresses`.
pub open spec fn boot_states() -> Seq<u8> {
    seq![
        0x00u8, 0x00, 0x00, 0x80, 0xBF, 0xF3, 0xBF, 0x3F, 0x00, 0xBF, 0x7F, 0xFF, 0x9F, 0xBF, 0xFF, 0x00,
        0x00, 0xBF, 0x77, 0xF3, 0xF1, 0x91, 0x00, 0x00, 0x00, 0xFC, 0xFF, 0xFF, 0x00, 0x00, 0x00,
    ]
}

/// The I/O registers that the boot program leaves with a known value.
pub open spec fn boot_addresses() -> Seq<u16> {
    seq![
        0xFF05u16, 0xFF06, 0xFF07, 0xFF10, 0xFF11, 0xFF12, 0xFF14, 0xFF16, 0xFF17, 0xFF19, 0xFF1A, 0xFF1B,
        0xFF1C, 0xFF1E, 0xFF20, 0xFF21, 0xFF22, 0xFF23, 0xFF24, 0xFF25, 0xFF26, 0xFF40, 0xFF42, 0xFF43,
        0xFF45, 0xFF47, 0xFF48, 0xFF49, 0xFF4A, 0xFF4B, 0xFFFF,
    ]
}

/// Memory after the first `n` of the writes `addresses[i] := values[i]`.
pub open spec fn boot_writes(m: Seq<u8>, values: Seq<u8>, addresses: Seq<u16>, n: int) -> Seq<u8>
    decreases n,
{
    if n <= 0 {
        m
    } else {
        boot_writes(m, values, addresses, n - 1).update(addresses[n - 1] as int, values[n - 1])
    }
}

proof fn lemma_boot_writes(m: Seq<u8>)
    ensures
        boot_writes(m, boot_states(), boot_addresses(), 31) == boot_memory(m),
{
    reveal_with_fuel(boot_writes, 32);
}

} // verus!
