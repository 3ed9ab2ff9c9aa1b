use vstd::prelude::*;

verus! {

/// Machine cycles (of four clock cycles each) that an instruction takes when a
/// conditional jump, call or return is not taken. Instructions that take more
/// when the condition holds set the count themselves. Unused opcodes count
/// one cycle.
pub open spec fn opcode_cycles(op: u8) -> u8 {
    if 0x40 <= op < 0x80 {
        if op == 0x76 {
            1
        } else if op % 8 == 6 || 0x70 <= op <= 0x77 {
            2
        } else {
            1
        }
    } else if 0x80 <= op < 0xC0 {
        if op % 8 == 6 {
            2
        } else {
            1
        }
    } else {
        match op {
            0x00 => 1, 0x01 => 3, 0x02 => 2, 0x03 => 2, 0x04 => 1, 0x05 => 1, 0x06 => 2, 0x07 => 1,
            0x08 => 5, 0x09 => 2, 0x0A => 2, 0x0B => 2, 0x0C => 1, 0x0D => 1, 0x0E => 2, 0x0F => 1,
            0x10 => 1, 0x11 => 3, 0x12 => 2, 0x13 => 2, 0x14 => 1, 0x15 => 1, 0x16 => 2, 0x17 => 1,
            0x18 => 3, 0x19 => 2, 0x1A => 2, 0x1B => 2, 0x1C => 1, 0x1D => 1, 0x1E => 2, 0x1F => 1,
            0x20 => 2, 0x21 => 3, 0x22 => 2, 0x23 => 2, 0x24 => 1, 0x25 => 1, 0x26 => 2, 0x27 => 1,
            0x28 => 2, 0x29 => 2, 0x2A => 2, 0x2B => 2, 0x2C => 1, 0x2D => 1, 0x2E => 2, 0x2F => 1,
            0x30 => 2, 0x31 => 3, 0x32 => 2, 0x33 => 2, 0x34 => 3, 0x35 => 3, 0x36 => 3, 0x37 => 1,
            0x38 => 2, 0x39 => 2, 0x3A => 2, 0x3B => 2, 0x3C => 1, 0x3D => 1, 0x3E => 2, 0x3F => 1,
            0xC0 => 2, 0xC1 => 3, 0xC2 => 3, 0xC3 => 4, 0xC4 => 3, 0xC5 => 4, 0xC6 => 2, 0xC7 => 4,
            0xC8 => 2, 0xC9 => 4, 0xCA => 3, 0xCB => 1, 0xCC => 3, 0xCD => 6, 0xCE => 2, 0xCF => 4,
            0xD0 => 2, 0xD1 => 3, 0xD2 => 3, 0xD3 => 1, 0xD4 => 3, 0xD5 => 4, 0xD6 => 2, 0xD7 => 4,
            0xD8 => 2, 0xD9 => 4, 0xDA => 3, 0xDB => 1, 0xDC => 3, 0xDD => 1, 0xDE => 2, 0xDF => 4,
            0xE0 => 3, 0xE1 => 3, 0xE2 => 2, 0xE3 => 1, 0xE4 => 1, 0xE5 => 4, 0xE6 => 2, 0xE7 => 4,
            0xE8 => 4, 0xE9 => 1, 0xEA => 4, 0xEB => 1, 0xEC => 1, 0xED => 1, 0xEE => 2, 0xEF => 4,
            0xF0 => 3, 0xF1 => 3, 0xF2 => 2, 0xF3 => 1, 0xF4 => 1, 0xF5 => 4, 0xF6 => 2, 0xF7 => 4,
            0xF8 => 3, 0xF9 => 2, 0xFA => 4, 0xFB => 1, 0xFC => 1, 0xFD => 1, 0xFE => 2, _ => 4,
        }
    }
}

/// Machine cycles of a CB-prefixed instruction, the prefix included: 2 on a
/// register, 3 for BIT on (HL), 4 for the other (HL) forms.
pub open spec fn cb_opcode_cycles(op: u8) -> u8 {
    if op % 8 != 6 {
        2
    } else if 0x40 <= op < 0x80 {
        3
    } else {
        4
    }
}

/// The machine cycles of an opcode (see `opcode_cycles`).
pub fn cycle_parse(opcode: u8) -> (cycles: u8)
    ensures
        cycles == opcode_cycles(opcode),
        1 <= cycles <= 6,
{
    if 0x40 <= opcode && opcode < 0x80 {
        if opcode == 0x76 {
            1
        } else if opcode % 8 == 6 || (0x70 <= opcode && opcode <= 0x77) {
            2
        } else {
            1
        }
    } else if 0x80 <= opcode && opcode < 0xC0 {
        if opcode % 8 == 6 {
            2
        } else {
            1
        }
    } else {
        match opcode {
            0x00 => 1, 0x01 => 3, 0x02 => 2, 0x03 => 2, 0x04 => 1, 0x05 => 1, 0x06 => 2, 0x07 => 1,
            0x08 => 5, 0x09 => 2, 0x0A => 2, 0x0B => 2, 0x0C => 1, 0x0D => 1, 0x0E => 2, 0x0F => 1,
            0x10 => 1, 0x11 => 3, 0x12 => 2, 0x13 => 2, 0x14 => 1, 0x15 => 1, 0x16 => 2, 0x17 => 1,
            0x18 => 3, 0x19 => 2, 0x1A => 2, 0x1B => 2, 0x1C => 1, 0x1D => 1, 0x1E => 2, 0x1F => 1,
            0x20 => 2, 0x21 => 3, 0x22 => 2, 0x23 => 2, 0x24 => 1, 0x25 => 1, 0x26 => 2, 0x27 => 1,
            0x28 => 2, 0x29 => 2, 0x2A => 2, 0x2B => 2, 0x2C => 1, 0x2D => 1, 0x2E => 2, 0x2F => 1,
            0x30 => 2, 0x31 => 3, 0x32 => 2, 0x33 => 2, 0x34 => 3, 0x35 => 3, 0x36 => 3, 0x37 => 1,
            0x38 => 2, 0x39 => 2, 0x3A => 2, 0x3B => 2, 0x3C => 1, 0x3D => 1, 0x3E => 2, 0x3F => 1,
            0xC0 => 2, 0xC1 => 3, 0xC2 => 3, 0xC3 => 4, 0xC4 => 3, 0xC5 => 4, 0xC6 => 2, 0xC7 => 4,
            0xC8 => 2, 0xC9 => 4, 0xCA => 3, 0xCB => 1, 0xCC => 3, 0xCD => 6, 0xCE => 2, 0xCF => 4,
            0xD0 => 2, 0xD1 => 3, 0xD2 => 3, 0xD3 => 1, 0xD4 => 3, 0xD5 => 4, 0xD6 => 2, 0xD7 => 4,
            0xD8 => 2, 0xD9 => 4, 0xDA => 3, 0xDB => 1, 0xDC => 3, 0xDD => 1, 0xDE => 2, 0xDF => 4,
            0xE0 => 3, 0xE1 => 3, 0xE2 => 2, 0xE3 => 1, 0xE4 => 1, 0xE5 => 4, 0xE6 => 2, 0xE7 => 4,
            0xE8 => 4, 0xE9 => 1, 0xEA => 4, 0xEB => 1, 0xEC => 1, 0xED => 1, 0xEE => 2, 0xEF => 4,
            0xF0 => 3, 0xF1 => 3, 0xF2 => 2, 0xF3 => 1, 0xF4 => 1, 0xF5 => 4, 0xF6 => 2, 0xF7 => 4,
            0xF8 => 3, 0xF9 => 2, 0xFA => 4, 0xFB => 1, 0xFC => 1, 0xFD => 1, 0xFE => 2, _ => 4,
        }
    }
}

/// The machine cycles of a CB-prefixed opcode (see `cb_opcode_cycles`).
pub fn cb_cycle_parse(opcode: u8) -> (cycles: u8)
    ensures
        cycles == cb_opcode_cycles(opcode),
        2 <= cycles <= 4,
{
    if opcode % 8 != 6 {
        2
    } else if 0x40 <= opcode && opcode < 0x80 {
        3
    } else {
        4
    }
}

} // verus!
