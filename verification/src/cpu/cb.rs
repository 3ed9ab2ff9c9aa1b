use vstd::prelude::*;
use crate::cpu::alu::{rotate_left_byte, rotate_right_byte};
use crate::cpu::cycles::{cb_cycle_parse};
use crate::cpu::decode::{cb_execute};
use crate::cpu::model::{bit_code_of, carry_of, make_flags, pc_room, produces, read_immediate, read_operand, src_code_of, write_operand};
use crate::cpu::semantics::{bit_check_register_effect, cb_result, reset_bit_in_register_effect, rotate_left_through_carry_effect, rotate_register_left_carry_set_effect, rotate_register_right_carry_set_effect, rotate_right_through_carry_effect, set_bit_in_register_effect, shift_left_load_carry_effect, shift_right_load_carry_effect, shift_right_register_logical_effect, swap_nibbles_effect};
use crate::system::{Registers, SystemData};

verus! {

/// Stores the result of a CB instruction, sets the flags and moves past the
/// two opcode bytes.
fn finish_cb(system_data: &mut SystemData, registers: &mut Registers, code: u8, value: u8, flags: u8)
    requires
        old(system_data).wf(),
        pc_room(*old(registers), 2),
    ensures
        produces(*old(system_data), *final(system_data), *final(registers),
            cb_result(*old(registers), old(system_data).memory(), old(system_data).cycles, code, value, flags)),
{
    write_operand(system_data, registers, code, value);
    registers.flags = flags;
    registers.program_counter = registers.program_counter + 2;
}

/// BIT b, r and BIT b, (HL) (CB 0x40-0x7F); `test_bit` is the bit number.
pub fn bit_check_register(system_data: &mut SystemData, registers: &mut Registers, opcode: u8, test_bit: u8)
    requires
        old(system_data).wf(),
        pc_room(*old(registers), 2),
        test_bit < 8,
    ensures
        produces(*old(system_data), *final(system_data), *final(registers),
            bit_check_register_effect(*old(registers), old(system_data).memory(), old(system_data).cycles, opcode, test_bit)),
{
    let value = read_operand(system_data, registers, src_code_of(opcode));
    let carry = registers.flags & 0x10 == 0x10;
    registers.flags = make_flags((value >> test_bit) & 0x01 == 0x00, false, true, carry);
    registers.program_counter = registers.program_counter + 2;
}

/// RL r (CB 0x10-0x17).
pub fn rotate_left_through_carry(system_data: &mut SystemData, registers: &mut Registers, opcode: u8)
    requires
        old(system_data).wf(),
        pc_room(*old(registers), 2),
    ensures
        produces(*old(system_data), *final(system_data), *final(registers),
            rotate_left_through_carry_effect(*old(registers), old(system_data).memory(), old(system_data).cycles, opcode)),
{
    let carry = carry_of(registers.flags);
    let code = src_code_of(opcode);
    let value = read_operand(system_data, registers, code);
    let result = rotate_left_byte(value, carry);
    finish_cb(system_data, registers, code, result, make_flags(result == 0, false, false, value >= 128));
}

/// RR r (CB 0x18-0x1F).
pub fn rotate_right_through_carry(system_data: &mut SystemData, registers: &mut Registers, opcode: u8)
    requires
        old(system_data).wf(),
        pc_room(*old(registers), 2),
    ensures
        produces(*old(system_data), *final(system_data), *final(registers),
            rotate_right_through_carry_effect(*old(registers), old(system_data).memory(), old(system_data).cycles, opcode)),
{
    let carry = carry_of(registers.flags);
    let code = src_code_of(opcode);
    let value = read_operand(system_data, registers, code);
    let result = rotate_right_byte(value, carry);
    finish_cb(system_data, registers, code, result, make_flags(result == 0, false, false, value % 2 == 1));
}

/// SWAP r (CB 0x30-0x37).
pub fn swap_nibbles(system_data: &mut SystemData, registers: &mut Registers, opcode: u8)
    requires
        old(system_data).wf(),
        pc_room(*old(registers), 2),
    ensures
        produces(*old(system_data), *final(system_data), *final(registers),
            swap_nibbles_effect(*old(registers), old(system_data).memory(), old(system_data).cycles, opcode)),
{
    let code = src_code_of(opcode);
    let value = read_operand(system_data, registers, code);
    let result = (value % 16) * 16 + value / 16;
    finish_cb(system_data, registers, code, result, make_flags(result == 0, false, false, false));
}

/// SET b, r (CB 0xC0-0xFF).
pub fn set_bit_in_register(system_data: &mut SystemData, registers: &mut Registers, opcode: u8)
    requires
        old(system_data).wf(),
        pc_room(*old(registers), 2),
    ensures
        produces(*old(system_data), *final(system_data), *final(registers),
            set_bit_in_register_effect(*old(registers), old(system_data).memory(), old(system_data).cycles, opcode)),
{
    let code = src_code_of(opcode);
    let bit_shift = bit_code_of(opcode);
    let value = read_operand(system_data, registers, code);
    let flags = registers.flags;
    finish_cb(system_data, registers, code, value | (1u8 << bit_shift), flags);
}

/// RES b, r (CB 0x80-0xBF).
pub fn reset_bit_in_register(system_data: &mut SystemData, registers: &mut Registers, opcode: u8)
    requires
        old(system_data).wf(),
        pc_room(*old(registers), 2),
    ensures
        produces(*old(system_data), *final(system_data), *final(registers),
            reset_bit_in_register_effect(*old(registers), old(system_data).memory(), old(system_data).cycles, opcode)),
{
    let code = if 0x80 <= opcode && opcode <= 0xBF && opcode % 8 != 6 { src_code_of(opcode) } else { 7 };
    let bit_shift = bit_code_of(opcode);
    let value = read_operand(system_data, registers, code);
    let flags = registers.flags;
    finish_cb(system_data, registers, code, value & (0xFF ^ (1u8 << bit_shift)), flags);
}

/// SRL r (CB 0x38-0x3F).
pub fn shift_right_register_logical(system_data: &mut SystemData, registers: &mut Registers, opcode: u8)
    requires
        old(system_data).wf(),
        pc_room(*old(registers), 2),
    ensures
        produces(*old(system_data), *final(system_data), *final(registers),
            shift_right_register_logical_effect(*old(registers), old(system_data).memory(), old(system_data).cycles, opcode)),
{
    let code = src_code_of(opcode);
    let value = read_operand(system_data, registers, code);
    let result = value / 2;
    finish_cb(system_data, registers, code, result, make_flags(result == 0, false, false, value % 2 == 1));
}

/// RLC r (CB 0x00-0x07).
pub fn rotate_register_left_carry_set(system_data: &mut SystemData, registers: &mut Registers, opcode: u8)
    requires
        old(system_data).wf(),
        opcode <= 0x07 ==> pc_room(*old(registers), 2),
    ensures
        produces(*old(system_data), *final(system_data), *final(registers),
            rotate_register_left_carry_set_effect(*old(registers), old(system_data).memory(), old(system_data).cycles, opcode)),
{
    if opcode > 0x07 {
        return;
    }
    let code = src_code_of(opcode);
    let value = read_operand(system_data, registers, code);
    let result = rotate_left_byte(value, value / 128);
    finish_cb(system_data, registers, code, result, make_flags(result == 0, false, false, value >= 128));
}

/// RRC r (CB 0x08-0x0F).
pub fn rotate_register_right_carry_set(system_data: &mut SystemData, registers: &mut Registers, opcode: u8)
    requires
        old(system_data).wf(),
        0x08 <= opcode <= 0x0F ==> pc_room(*old(registers), 2),
    ensures
        produces(*old(system_data), *final(system_data), *final(registers),
            rotate_register_right_carry_set_effect(*old(registers), old(system_data).memory(), old(system_data).cycles, opcode)),
{
    if opcode < 0x08 || opcode > 0x0F {
        return;
    }
    let code = src_code_of(opcode);
    let value = read_operand(system_data, registers, code);
    let result = rotate_right_byte(value, value % 2);
    finish_cb(system_data, registers, code, result, make_flags(result == 0, false, false, value % 2 == 1));
}

/// SLA r (CB 0x20-0x27).
pub fn shift_left_load_carry(system_data: &mut SystemData, registers: &mut Registers, opcode: u8)
    requires
        old(system_data).wf(),
        0x20 <= opcode <= 0x27 ==> pc_room(*old(registers), 2),
    ensures
        produces(*old(system_data), *final(system_data), *final(registers),
            shift_left_load_carry_effect(*old(registers), old(system_data).memory(), old(system_data).cycles, opcode)),
{
    if opcode < 0x20 || opcode > 0x27 {
        return;
    }
    let code = src_code_of(opcode);
    let value = read_operand(system_data, registers, code);
    let result = ((value as u16 * 2) % 256) as u8;
    finish_cb(system_data, registers, code, result, make_flags(result == 0, false, false, value >= 128));
}

/// SRA r (CB 0x28-0x2F).
pub fn shift_right_load_carry(system_data: &mut SystemData, registers: &mut Registers, opcode: u8)
    requires
        old(system_data).wf(),
        0x28 <= opcode <= 0x2F ==> pc_room(*old(registers), 2),
    ensures
        produces(*old(system_data), *final(system_data), *final(registers),
            shift_right_load_carry_effect(*old(registers), old(system_data).memory(), old(system_data).cycles, opcode)),
{
    if opcode < 0x28 || opcode > 0x2F {
        return;
    }
    let code = src_code_of(opcode);
    let value = read_operand(system_data, registers, code);
    let result = value / 2 + if value >= 128 { 128 } else { 0 };
    finish_cb(system_data, registers, code, result, make_flags(result == 0, false, false, value % 2 == 1));
}

/// CB prefix (opcode 0xCB): runs the instruction named by the next byte and
/// sets the cycle count from the CB table.
pub fn cb_codes(system_data: &mut SystemData, registers: &mut Registers)
    requires
        old(system_data).wf(),
        pc_room(*old(registers), 2),
    ensures
        produces(*old(system_data), *final(system_data), *final(registers),
            cb_execute(*old(registers), old(system_data).memory())),
{
    let opcode = read_immediate(system_data, registers, 1);
    system_data.cycles = cb_cycle_parse(opcode);
    if opcode < 0x08 {
        rotate_register_left_carry_set(system_data, registers, opcode);
    } else if opcode < 0x10 {
        rotate_register_right_carry_set(system_data, registers, opcode);
    } else if opcode < 0x18 {
        rotate_left_through_carry(system_data, registers, opcode);
    } else if opcode < 0x20 {
        rotate_right_through_carry(system_data, registers, opcode);
    } else if opcode < 0x28 {
        shift_left_load_carry(system_data, registers, opcode);
    } else if opcode < 0x30 {
        shift_right_load_carry(system_data, registers, opcode);
    } else if opcode < 0x38 {
        swap_nibbles(system_data, registers, opcode);
    } else if opcode < 0x40 {
        shift_right_register_logical(system_data, registers, opcode);
    } else if opcode < 0x80 {
        bit_check_register(system_data, registers, opcode, bit_code_of(opcode));
    } else if opcode < 0xC0 {
        reset_bit_in_register(system_data, registers, opcode);
    } else {
        set_bit_in_register(system_data, registers, opcode);
    }
}

} // verus!
