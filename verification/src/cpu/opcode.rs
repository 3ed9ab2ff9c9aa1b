use vstd::prelude::*;
use crate::bits::{lemma_and_at_most_mask};
use crate::cpu::alu::{add_bytes, compare_bytes, logic_flags_of, rotate_left_byte, rotate_right_byte, sub_bytes};
use crate::cpu::cb::{cb_codes};
use crate::cpu::cycles::{cycle_parse, opcode_cycles};
use crate::cpu::decode::{bonus_cycles, execute, execute_ok, lemma_execute_cycles_small, runnable_interrupts, step, step_ok};
use crate::cpu::model::{add_displacement, bit_code, bit_code_of, carry_of, check_condition, condition_code, condition_code_of, condition_holds, displaced, dst_code, dst_code_of, imm, imm16, make_flags, pair_code_of, pc_room, produces, read_byte, read_immediate, read_immediate16, read_operand, src_code, src_code_of, wrapping_dec8, write_byte};
use crate::cpu::semantics::{adc_code, add_16_bit_register_to_hl_effect, add_8_bit_effect, add_8_bit_to_accumulator_effect, add_8_bit_to_accumulator_with_carry_effect, add_registers_to_accumulator_with_carry_effect, add_signed_8_bit_to_stack_pointer_effect, and_8_bit_register_effect, and_nn_with_accumulator_effect, bcd_adjust_effect, call_function_nn_on_conditional_effect, call_nn_effect, compare_code, compare_register_to_accumulator_effect, compare_with_hl_address_effect, compare_with_n_effect, decrement_16_bit_register_effect, decrement_8_bit_register_effect, decrement_hl_location_effect, disable_interupts_effect, enable_interupts_effect, flip_carry_flag_effect, halt_effect, increment_16_bit_register_effect, increment_8_bit_register_effect, increment_hl_location_effect, is_load_nn_opcode, jump_address_effect, jump_address_with_conditional_effect, jump_displacement_effect, jump_displacement_on_flag_effect, jump_to_hl_effect, load_8_bit_register_to_register_effect, load_accumulator_to_address_at_bc_effect, load_accumulator_to_io_port_with_c_offset_effect, load_accumulator_to_io_port_with_n_offset_effect, load_accumulator_with_bc_address_effect, load_accumulator_with_de_address_effect, load_accumulator_with_hl_then_decrement_effect, load_accumulator_with_hl_then_increment_effect, load_accumulator_with_io_port_with_n_offset_effect, load_accumulator_with_nn_address_effect, load_de_location_with_accumulator_effect, load_decrement_hl_register_location_with_accumulator_effect, load_hl_address_with_register_effect, load_hl_to_stack_pointer_effect, load_hl_with_stack_pointer_plus_n_effect, load_increment_hl_register_location_with_accumulator_effect, load_n_to_8bit_register_effect, load_n_to_hl_location_effect, load_nn_to_16bit_register_effect, load_nn_with_accumulator_effect, load_register_with_hl_location_effect, load_stack_pointer_to_nn_address_effect, no_operation_effect, ones_complement_effect, or_8_bit_register_effect, or_hl_location_effect, or_n_effect, pop_16_bit_register_effect, push_16_bit_register_effect, push_memory, read_io_port_with_c_offset_to_accumulator_effect, return_from_call_conditional_effect, return_from_call_effect, return_from_call_ei_effect, rlca_effect, rotate_accumulator_left_through_carry_effect, rotate_accumulator_right_through_carry_effect, rrca_effect, rst_jump_effect, set_carry_flag_effect, stack_offset, stack_top, stop_effect, subtract_8_bit_effect, subtract_8_bit_from_accumulator_with_carry_effect, subtract_hl_location_and_carry_from_accumulator_effect, subtract_register_and_carry_from_accumulator_effect, subtraction_n_from_accumulator_effect, xor_8_bit_register_effect, xor_accumulator_with_n_effect, xor_hl_location_effect};
use crate::system::{Registers, SystemData, combine_bytes, same_but_memory_and_cycles, split_bytes};

verus! {

/// NOP.
pub fn no_operation(system_data: &mut SystemData, registers: &mut Registers)
    requires
        old(system_data).wf(),
        pc_room(*old(registers), 1),
    ensures
        produces(*old(system_data), *final(system_data), *final(registers),
            no_operation_effect(*old(registers), old(system_data).memory(), old(system_data).cycles)),
{
    registers.program_counter = registers.program_counter + 1;
}

/// DI.
pub fn disable_interupts(system_data: &mut SystemData, registers: &mut Registers)
    requires
        old(system_data).wf(),
        pc_room(*old(registers), 1),
    ensures
        produces(*old(system_data), *final(system_data), *final(registers),
            disable_interupts_effect(*old(registers), old(system_data).memory(), old(system_data).cycles)),
{
    registers.program_counter = registers.program_counter + 1;
    registers.interrupt_master_enable_flag = false;
}

/// EI.
pub fn enable_interupts(system_data: &mut SystemData, registers: &mut Registers)
    requires
        old(system_data).wf(),
        pc_room(*old(registers), 1),
    ensures
        produces(*old(system_data), *final(system_data), *final(registers),
            enable_interupts_effect(*old(registers), old(system_data).memory(), old(system_data).cycles)),
{
    registers.program_counter = registers.program_counter + 1;
    registers.interrupt_master_enable_delay_flag = true;
}

/// STOP.
pub fn stop(system_data: &mut SystemData, registers: &mut Registers)
    requires
        old(system_data).wf(),
        pc_room(*old(registers), 2),
    ensures
        produces(*old(system_data), *final(system_data), *final(registers),
            stop_effect(*old(registers), old(system_data).memory(), old(system_data).cycles)),
{
    registers.program_counter = registers.program_counter + 2;
}

/// HALT.
pub fn halt(system_data: &mut SystemData, registers: &mut Registers)
    requires
        old(system_data).wf(),
        pc_room(*old(registers), 1),
    ensures
        produces(*old(system_data), *final(system_data), *final(registers),
            halt_effect(*old(registers), old(system_data).memory(), old(system_data).cycles)),
{
    registers.program_counter = registers.program_counter + 1;
    registers.halt_flag = true;
}

/// INC r (opcodes 0x04, 0x0C, ..., 0x3C).
pub fn increment_8_bit_register(system_data: &mut SystemData, registers: &mut Registers, opcode: u8)
    requires
        old(system_data).wf(),
        pc_room(*old(registers), 1),
    ensures
        produces(*old(system_data), *final(system_data), *final(registers),
            increment_8_bit_register_effect(*old(registers), old(system_data).memory(), old(system_data).cycles, opcode)),
{
    let carry = registers.flags & 0x10 == 0x10;
    let register_code = dst_code_of(opcode);
    let current = registers.mapped_register_getter(register_code);
    let value = if current == 0xFF { 0 } else { current + 1 };
    registers.mapped_register_setter(register_code, value);
    registers.flags = make_flags(value == 0, false, value % 16 == 0, carry);
    registers.program_counter = registers.program_counter + 1;
}

/// INC (HL).
pub fn increment_hl_location(system_data: &mut SystemData, registers: &mut Registers)
    requires
        old(system_data).wf(),
        pc_room(*old(registers), 1),
    ensures
        produces(*old(system_data), *final(system_data), *final(registers),
            increment_hl_location_effect(*old(registers), old(system_data).memory(), old(system_data).cycles)),
{
    let carry = registers.flags & 0x10 == 0x10;
    registers.program_counter = registers.program_counter + 1;
    let address = registers.mapped_16_bit_register_getter(3);
    let current = read_byte(system_data, address);
    let value = if current == 0xFF { 0 } else { current + 1 };
    registers.flags = make_flags(value == 0, false, value % 16 == 0, carry);
    write_byte(system_data, address, value);
}

/// INC rr (opcodes 0x03, 0x13, 0x23, 0x33).
pub fn increment_16_bit_register(system_data: &mut SystemData, registers: &mut Registers, opcode: u8)
    requires
        old(system_data).wf(),
        pc_room(*old(registers), 1),
    ensures
        produces(*old(system_data), *final(system_data), *final(registers),
            increment_16_bit_register_effect(*old(registers), old(system_data).memory(), old(system_data).cycles, opcode)),
{
    registers.program_counter = registers.program_counter + 1;
    let register_code = pair_code_of(opcode);
    let current = registers.mapped_16_bit_register_getter(register_code);
    let value = if current == 0xFFFF { 0 } else { current + 1 };
    registers.mapped_16_bit_register_setter(register_code, value);
}

/// DEC rr (opcodes 0x0B, 0x1B, 0x2B, 0x3B).
pub fn decrement_16_bit_register(system_data: &mut SystemData, registers: &mut Registers, opcode: u8)
    requires
        old(system_data).wf(),
        pc_room(*old(registers), 1),
    ensures
        produces(*old(system_data), *final(system_data), *final(registers),
            decrement_16_bit_register_effect(*old(registers), old(system_data).memory(), old(system_data).cycles, opcode)),
{
    registers.program_counter = registers.program_counter + 1;
    let register_code = pair_code_of(opcode);
    let current = registers.mapped_16_bit_register_getter(register_code);
    let value = if current == 0 { 0xFFFF } else { current - 1 };
    registers.mapped_16_bit_register_setter(register_code, value);
}

/// DEC r (opcodes 0x05, 0x0D, ..., 0x3D).
pub fn decrement_8_bit_register(system_data: &mut SystemData, registers: &mut Registers, opcode: u8)
    requires
        old(system_data).wf(),
        pc_room(*old(registers), 1),
    ensures
        produces(*old(system_data), *final(system_data), *final(registers),
            decrement_8_bit_register_effect(*old(registers), old(system_data).memory(), old(system_data).cycles, opcode)),
{
    let carry = registers.flags & 0x10 == 0x10;
    let register_code = dst_code_of(opcode);
    if register_code != 7 {
        let current = registers.mapped_register_getter(register_code);
        let value = if current == 0 { 0xFF } else { current - 1 };
        assert(value == wrapping_dec8(current));
        registers.mapped_register_setter(register_code, value);
        registers.flags = make_flags(value == 0, true, value % 16 == 15, carry);
    } else {
        registers.flags = make_flags(false, true, false, carry);
    }
    registers.program_counter = registers.program_counter + 1;
}

/// DEC (HL).
pub fn decrement_hl_location(system_data: &mut SystemData, registers: &mut Registers)
    requires
        old(system_data).wf(),
        pc_room(*old(registers), 1),
    ensures
        produces(*old(system_data), *final(system_data), *final(registers),
            decrement_hl_location_effect(*old(registers), old(system_data).memory(), old(system_data).cycles)),
{
    registers.program_counter = registers.program_counter + 1;
    let address = registers.mapped_16_bit_register_getter(3);
    let current = read_byte(system_data, address);
    let value = if current == 0 { 0xFF } else { current - 1 };
    let carry = registers.flags & 0x10 == 0x10;
    registers.flags = make_flags(value == 0, true, value % 16 == 15, carry);
    write_byte(system_data, address, value);
}

/// ADD A, r and ADD A, (HL) (opcodes 0x80-0x87).
pub fn add_8_bit(system_data: &mut SystemData, registers: &mut Registers, opcode: u8)
    requires
        old(system_data).wf(),
        pc_room(*old(registers), 1),
    ensures
        produces(*old(system_data), *final(system_data), *final(registers),
            add_8_bit_effect(*old(registers), old(system_data).memory(), old(system_data).cycles, opcode)),
{
    let value = read_operand(system_data, registers, src_code_of(opcode));
    let (result, flags) = add_bytes(registers.accumulator, value, 0);
    registers.accumulator = result;
    registers.flags = flags;
    registers.program_counter = registers.program_counter + 1;
}

/// ADD A, n (opcode 0xC6).
pub fn add_8_bit_to_accumulator(system_data: &mut SystemData, registers: &mut Registers)
    requires
        old(system_data).wf(),
        pc_room(*old(registers), 2),
    ensures
        produces(*old(system_data), *final(system_data), *final(registers),
            add_8_bit_to_accumulator_effect(*old(registers), old(system_data).memory(), old(system_data).cycles)),
{
    let n = read_immediate(system_data, registers, 1);
    let (result, flags) = add_bytes(registers.accumulator, n, 0);
    registers.accumulator = result;
    registers.flags = flags;
    registers.program_counter = registers.program_counter + 2;
}

/// ADC A, n (opcode 0xCE).
pub fn add_8_bit_to_accumulator_with_carry(system_data: &mut SystemData, registers: &mut Registers)
    requires
        old(system_data).wf(),
        pc_room(*old(registers), 2),
    ensures
        produces(*old(system_data), *final(system_data), *final(registers),
            add_8_bit_to_accumulator_with_carry_effect(*old(registers), old(system_data).memory(), old(system_data).cycles)),
{
    let carry = carry_of(registers.flags);
    let n = read_immediate(system_data, registers, 1);
    let (result, flags) = add_bytes(registers.accumulator, n, carry);
    registers.accumulator = result;
    registers.flags = flags;
    registers.program_counter = registers.program_counter + 2;
}

/// ADC A, r and ADC A, (HL) (opcodes 0x88-0x8F); sets the cycle count.
pub fn add_registers_to_accumulator_with_carry(system_data: &mut SystemData, registers: &mut Registers, opcode: u8)
    requires
        old(system_data).wf(),
        adc_code(opcode) != 8 ==> pc_room(*old(registers), 1),
    ensures
        produces(*old(system_data), *final(system_data), *final(registers),
            add_registers_to_accumulator_with_carry_effect(*old(registers), old(system_data).memory(), old(system_data).cycles, opcode)),
{
    if opcode < 0x88 || opcode > 0x8F {
        return;
    }
    let register_code = src_code_of(opcode);
    let carry = carry_of(registers.flags);
    let value = read_operand(system_data, registers, register_code);
    system_data.cycles = if register_code == 7 { 2 } else { 1 };
    let (result, flags) = add_bytes(registers.accumulator, value, carry);
    registers.accumulator = result;
    registers.flags = flags;
    registers.program_counter = registers.program_counter + 1;
}

/// SUB r and SUB (HL) (opcodes 0x90-0x97).
pub fn subtract_8_bit(system_data: &mut SystemData, registers: &mut Registers, opcode: u8)
    requires
        old(system_data).wf(),
        pc_room(*old(registers), 1),
    ensures
        produces(*old(system_data), *final(system_data), *final(registers),
            subtract_8_bit_effect(*old(registers), old(system_data).memory(), old(system_data).cycles, opcode)),
{
    let value = read_operand(system_data, registers, src_code_of(opcode));
    let (result, flags) = sub_bytes(registers.accumulator, value, 0);
    registers.accumulator = result;
    registers.flags = flags;
    registers.program_counter = registers.program_counter + 1;
}

/// SUB n (opcode 0xD6).
pub fn subtraction_n_from_accumulator(system_data: &mut SystemData, registers: &mut Registers)
    requires
        old(system_data).wf(),
        pc_room(*old(registers), 2),
    ensures
        produces(*old(system_data), *final(system_data), *final(registers),
            subtraction_n_from_accumulator_effect(*old(registers), old(system_data).memory(), old(system_data).cycles)),
{
    let n = read_immediate(system_data, registers, 1);
    let (result, flags) = sub_bytes(registers.accumulator, n, 0);
    registers.accumulator = result;
    registers.flags = flags;
    registers.program_counter = registers.program_counter + 2;
}

/// SBC A, r (opcodes 0x98-0x9D, 0x9F).
pub fn subtract_register_and_carry_from_accumulator(system_data: &mut SystemData, registers: &mut Registers, opcode: u8)
    requires
        old(system_data).wf(),
        src_code(opcode) != 7 ==> pc_room(*old(registers), 1),
    ensures
        produces(*old(system_data), *final(system_data), *final(registers),
            subtract_register_and_carry_from_accumulator_effect(*old(registers), old(system_data).memory(), old(system_data).cycles, opcode)),
{
    let register_code = src_code_of(opcode);
    if register_code == 7 {
        return;
    }
    let carry = carry_of(registers.flags);
    let value = registers.mapped_register_getter(register_code);
    let (result, flags) = sub_bytes(registers.accumulator, value, carry);
    registers.accumulator = result;
    registers.flags = flags;
    registers.program_counter = registers.program_counter + 1;
}

/// SBC A, (HL) (opcode 0x9E).
pub fn subtract_hl_location_and_carry_from_accumulator(system_data: &mut SystemData, registers: &mut Registers)
    requires
        old(system_data).wf(),
        pc_room(*old(registers), 1),
    ensures
        produces(*old(system_data), *final(system_data), *final(registers),
            subtract_hl_location_and_carry_from_accumulator_effect(*old(registers), old(system_data).memory(), old(system_data).cycles)),
{
    let carry = carry_of(registers.flags);
    let value = read_byte(system_data, registers.mapped_16_bit_register_getter(3));
    let (result, flags) = sub_bytes(registers.accumulator, value, carry);
    registers.accumulator = result;
    registers.flags = flags;
    registers.program_counter = registers.program_counter + 1;
}

/// SBC A, n (opcode 0xDE).
pub fn subtract_8_bit_from_accumulator_with_carry(system_data: &mut SystemData, registers: &mut Registers)
    requires
        old(system_data).wf(),
        pc_room(*old(registers), 2),
    ensures
        produces(*old(system_data), *final(system_data), *final(registers),
            subtract_8_bit_from_accumulator_with_carry_effect(*old(registers), old(system_data).memory(), old(system_data).cycles)),
{
    let carry = carry_of(registers.flags);
    let n = read_immediate(system_data, registers, 1);
    let (result, flags) = sub_bytes(registers.accumulator, n, carry);
    registers.accumulator = result;
    registers.flags = flags;
    registers.program_counter = registers.program_counter + 2;
}

/// CP r (opcodes 0xB8-0xBD, 0xBF).
pub fn compare_register_to_accumulator(system_data: &mut SystemData, registers: &mut Registers, opcode: u8)
    requires
        old(system_data).wf(),
        compare_code(opcode) != 8 ==> pc_room(*old(registers), 1),
    ensures
        produces(*old(system_data), *final(system_data), *final(registers),
            compare_register_to_accumulator_effect(*old(registers), old(system_data).memory(), old(system_data).cycles, opcode)),
{
    registers.flags = 0x40;
    if opcode < 0xB8 || opcode > 0xBF || opcode == 0xBE {
        return;
    }
    let register_code = src_code_of(opcode);
    registers.program_counter = registers.program_counter + 1;
    let value = registers.mapped_register_getter(register_code);
    registers.flags = compare_bytes(registers.accumulator, value);
}

/// CP n (opcode 0xFE).
pub fn compare_with_n(system_data: &mut SystemData, registers: &mut Registers)
    requires
        old(system_data).wf(),
        pc_room(*old(registers), 2),
    ensures
        produces(*old(system_data), *final(system_data), *final(registers),
            compare_with_n_effect(*old(registers), old(system_data).memory(), old(system_data).cycles)),
{
    let n = read_immediate(system_data, registers, 1);
    registers.flags = compare_bytes(registers.accumulator, n);
    registers.program_counter = registers.program_counter + 2;
}

/// CP (HL) (opcode 0xBE).
pub fn compare_with_hl_address(system_data: &mut SystemData, registers: &mut Registers)
    requires
        old(system_data).wf(),
        pc_room(*old(registers), 1),
    ensures
        produces(*old(system_data), *final(system_data), *final(registers),
            compare_with_hl_address_effect(*old(registers), old(system_data).memory(), old(system_data).cycles)),
{
    let value = read_byte(system_data, registers.mapped_16_bit_register_getter(3));
    registers.flags = compare_bytes(registers.accumulator, value);
    registers.program_counter = registers.program_counter + 1;
}

/// LD r, n (opcodes 0x06, 0x0E, ..., 0x3E).
pub fn load_n_to_8bit_register(system_data: &mut SystemData, registers: &mut Registers, opcode: u8)
    requires
        old(system_data).wf(),
        pc_room(*old(registers), 2),
    ensures
        produces(*old(system_data), *final(system_data), *final(registers),
            load_n_to_8bit_register_effect(*old(registers), old(system_data).memory(), old(system_data).cycles, opcode)),
{
    let register_code = dst_code_of(opcode);
    if register_code != 7 {
        let n = read_immediate(system_data, registers, 1);
        registers.mapped_register_setter(register_code, n);
    }
    registers.program_counter = registers.program_counter + 2;
}

/// LD (HL), n (opcode 0x36).
pub fn load_n_to_hl_location(system_data: &mut SystemData, registers: &mut Registers)
    requires
        old(system_data).wf(),
        pc_room(*old(registers), 2),
    ensures
        produces(*old(system_data), *final(system_data), *final(registers),
            load_n_to_hl_location_effect(*old(registers), old(system_data).memory(), old(system_data).cycles)),
{
    let n = read_immediate(system_data, registers, 1);
    write_byte(system_data, registers.mapped_16_bit_register_getter(3), n);
    registers.program_counter = registers.program_counter + 2;
}

/// LD r, r' (opcodes 0x40-0x7F without the (HL) forms).
pub fn load_8_bit_register_to_register(system_data: &mut SystemData, registers: &mut Registers, opcode: u8)
    requires
        old(system_data).wf(),
        dst_code(opcode) != 7 && src_code(opcode) != 7 ==> pc_room(*old(registers), 1),
    ensures
        produces(*old(system_data), *final(system_data), *final(registers),
            load_8_bit_register_to_register_effect(*old(registers), old(system_data).memory(), old(system_data).cycles, opcode)),
{
    let register_set_code = dst_code_of(opcode);
    let register_get_code = src_code_of(opcode);
    if register_set_code != 7 && register_get_code != 7 {
        let register_value = registers.mapped_register_getter(register_get_code);
        registers.mapped_register_setter(register_set_code, register_value);
        registers.program_counter = registers.program_counter + 1;
    }
}

/// LD r, (HL) (opcodes 0x46, 0x4E, ..., 0x7E).
pub fn load_register_with_hl_location(system_data: &mut SystemData, registers: &mut Registers, opcode: u8)
    requires
        old(system_data).wf(),
        dst_code(opcode) != 7 ==> pc_room(*old(registers), 1),
    ensures
        produces(*old(system_data), *final(system_data), *final(registers),
            load_register_with_hl_location_effect(*old(registers), old(system_data).memory(), old(system_data).cycles, opcode)),
{
    let register_code = dst_code_of(opcode);
    if register_code != 7 {
        let location_value = read_byte(system_data, registers.mapped_16_bit_register_getter(3));
        registers.mapped_register_setter(register_code, location_value);
        registers.program_counter = registers.program_counter + 1;
    }
}

/// LD (HL), r (opcodes 0x70-0x75, 0x77).
pub fn load_hl_address_with_register(system_data: &mut SystemData, registers: &mut Registers, opcode: u8)
    requires
        old(system_data).wf(),
        pc_room(*old(registers), 1),
    ensures
        produces(*old(system_data), *final(system_data), *final(registers),
            load_hl_address_with_register_effect(*old(registers), old(system_data).memory(), old(system_data).cycles, opcode)),
{
    let register_code = src_code_of(opcode);
    if register_code != 7 {
        let value = registers.mapped_register_getter(register_code);
        write_byte(system_data, registers.mapped_16_bit_register_getter(3), value);
    }
    registers.program_counter = registers.program_counter + 1;
}

/// LD (0xFF00 + C), A (opcode 0xE2).
pub fn load_accumulator_to_io_port_with_c_offset(system_data: &mut SystemData, registers: &mut Registers)
    requires
        old(system_data).wf(),
        pc_room(*old(registers), 1),
    ensures
        produces(*old(system_data), *final(system_data), *final(registers),
            load_accumulator_to_io_port_with_c_offset_effect(*old(registers), old(system_data).memory(), old(system_data).cycles)),
{
    write_byte(system_data, 0xFF00 + registers.c_register as u16, registers.accumulator);
    registers.program_counter = registers.program_counter + 1;
}

/// LD A, (0xFF00 + C) (opcode 0xF2).
pub fn read_io_port_with_c_offset_to_accumulator(system_data: &mut SystemData, registers: &mut Registers)
    requires
        old(system_data).wf(),
        pc_room(*old(registers), 1),
    ensures
        produces(*old(system_data), *final(system_data), *final(registers),
            read_io_port_with_c_offset_to_accumulator_effect(*old(registers), old(system_data).memory(), old(system_data).cycles)),
{
    registers.accumulator = read_byte(system_data, 0xFF00 + registers.c_register as u16);
    registers.program_counter = registers.program_counter + 1;
}

/// LDH (n), A (opcode 0xE0).
pub fn load_accumulator_to_io_port_with_n_offset(system_data: &mut SystemData, registers: &mut Registers)
    requires
        old(system_data).wf(),
        pc_room(*old(registers), 2),
    ensures
        produces(*old(system_data), *final(system_data), *final(registers),
            load_accumulator_to_io_port_with_n_offset_effect(*old(registers), old(system_data).memory(), old(system_data).cycles)),
{
    let n = read_immediate(system_data, registers, 1);
    write_byte(system_data, 0xFF00 + n as u16, registers.accumulator);
    registers.program_counter = registers.program_counter + 2;
}

/// LDH A, (n) (opcode 0xF0).
pub fn load_accumulator_with_io_port_with_n_offset(system_data: &mut SystemData, registers: &mut Registers)
    requires
        old(system_data).wf(),
        pc_room(*old(registers), 2),
    ensures
        produces(*old(system_data), *final(system_data), *final(registers),
            load_accumulator_with_io_port_with_n_offset_effect(*old(registers), old(system_data).memory(), old(system_data).cycles)),
{
    let n = read_immediate(system_data, registers, 1);
    registers.accumulator = read_byte(system_data, 0xFF00 + n as u16);
    registers.program_counter = registers.program_counter + 2;
}

/// LD (HL-), A (opcode 0x32).
pub fn load_decrement_hl_register_location_with_accumulator(system_data: &mut SystemData, registers: &mut Registers)
    requires
        old(system_data).wf(),
        pc_room(*old(registers), 1),
    ensures
        produces(*old(system_data), *final(system_data), *final(registers),
            load_decrement_hl_register_location_with_accumulator_effect(*old(registers), old(system_data).memory(), old(system_data).cycles)),
{
    let address = registers.mapped_16_bit_register_getter(3);
    write_byte(system_data, address, registers.accumulator);
    let next = if address == 0 { 0xFFFF } else { address - 1 };
    registers.mapped_16_bit_register_setter(3, next);
    registers.program_counter = registers.program_counter + 1;
}

/// LD (HL+), A (opcode 0x22).
pub fn load_increment_hl_register_location_with_accumulator(system_data: &mut SystemData, registers: &mut Registers)
    requires
        old(system_data).wf(),
        pc_room(*old(registers), 1),
    ensures
        produces(*old(system_data), *final(system_data), *final(registers),
            load_increment_hl_register_location_with_accumulator_effect(*old(registers), old(system_data).memory(), old(system_data).cycles)),
{
    let address = registers.mapped_16_bit_register_getter(3);
    write_byte(system_data, address, registers.accumulator);
    let next = if address == 0xFFFF { 0 } else { address + 1 };
    registers.mapped_16_bit_register_setter(3, next);
    registers.program_counter = registers.program_counter + 1;
}

/// LD A, (HL+) (opcode 0x2A).
pub fn load_accumulator_with_hl_then_increment(system_data: &mut SystemData, registers: &mut Registers)
    requires
        old(system_data).wf(),
        pc_room(*old(registers), 1),
    ensures
        produces(*old(system_data), *final(system_data), *final(registers),
            load_accumulator_with_hl_then_increment_effect(*old(registers), old(system_data).memory(), old(system_data).cycles)),
{
    let address = registers.mapped_16_bit_register_getter(3);
    registers.accumulator = read_byte(system_data, address);
    let next = if address == 0xFFFF { 0 } else { address + 1 };
    registers.mapped_16_bit_register_setter(3, next);
    registers.program_counter = registers.program_counter + 1;
}

/// LD A, (HL-) (opcode 0x3A).
pub fn load_accumulator_with_hl_then_decrement(system_data: &mut SystemData, registers: &mut Registers)
    requires
        old(system_data).wf(),
        pc_room(*old(registers), 1),
    ensures
        produces(*old(system_data), *final(system_data), *final(registers),
            load_accumulator_with_hl_then_decrement_effect(*old(registers), old(system_data).memory(), old(system_data).cycles)),
{
    let address = registers.mapped_16_bit_register_getter(3);
    registers.accumulator = read_byte(system_data, address);
    let next = if address == 0 { 0xFFFF } else { address - 1 };
    registers.mapped_16_bit_register_setter(3, next);
    registers.program_counter = registers.program_counter + 1;
}

/// LD A, (DE) (opcode 0x1A).
pub fn load_accumulator_with_de_address(system_data: &mut SystemData, registers: &mut Registers)
    requires
        old(system_data).wf(),
        pc_room(*old(registers), 1),
    ensures
        produces(*old(system_data), *final(system_data), *final(registers),
            load_accumulator_with_de_address_effect(*old(registers), old(system_data).memory(), old(system_data).cycles)),
{
    registers.accumulator = read_byte(system_data, registers.mapped_16_bit_register_getter(2));
    registers.program_counter = registers.program_counter + 1;
}

/// LD A, (BC) (opcode 0x0A).
pub fn load_accumulator_with_bc_address(system_data: &mut SystemData, registers: &mut Registers)
    requires
        old(system_data).wf(),
        pc_room(*old(registers), 1),
    ensures
        produces(*old(system_data), *final(system_data), *final(registers),
            load_accumulator_with_bc_address_effect(*old(registers), old(system_data).memory(), old(system_data).cycles)),
{
    registers.accumulator = read_byte(system_data, registers.mapped_16_bit_register_getter(1));
    registers.program_counter = registers.program_counter + 1;
}

/// LD (DE), A (opcode 0x12).
pub fn load_de_location_with_accumulator(system_data: &mut SystemData, registers: &mut Registers)
    requires
        old(system_data).wf(),
        pc_room(*old(registers), 1),
    ensures
        produces(*old(system_data), *final(system_data), *final(registers),
            load_de_location_with_accumulator_effect(*old(registers), old(system_data).memory(), old(system_data).cycles)),
{
    registers.program_counter = registers.program_counter + 1;
    write_byte(system_data, registers.mapped_16_bit_register_getter(2), registers.accumulator);
}

/// LD (BC), A (opcode 0x02).
pub fn load_accumulator_to_address_at_bc(system_data: &mut SystemData, registers: &mut Registers)
    requires
        old(system_data).wf(),
        pc_room(*old(registers), 1),
    ensures
        produces(*old(system_data), *final(system_data), *final(registers),
            load_accumulator_to_address_at_bc_effect(*old(registers), old(system_data).memory(), old(system_data).cycles)),
{
    registers.program_counter = registers.program_counter + 1;
    write_byte(system_data, registers.mapped_16_bit_register_getter(1), registers.accumulator);
}

/// LD (nn), A (opcode 0xEA).
pub fn load_nn_with_accumulator(system_data: &mut SystemData, registers: &mut Registers)
    requires
        old(system_data).wf(),
        pc_room(*old(registers), 3),
    ensures
        produces(*old(system_data), *final(system_data), *final(registers),
            load_nn_with_accumulator_effect(*old(registers), old(system_data).memory(), old(system_data).cycles)),
{
    let address = read_immediate16(system_data, registers);
    write_byte(system_data, address, registers.accumulator);
    registers.program_counter = registers.program_counter + 3;
}

/// LD A, (nn) (opcode 0xFA).
pub fn load_accumulator_with_nn_address(system_data: &mut SystemData, registers: &mut Registers)
    requires
        old(system_data).wf(),
        pc_room(*old(registers), 3),
    ensures
        produces(*old(system_data), *final(system_data), *final(registers),
            load_accumulator_with_nn_address_effect(*old(registers), old(system_data).memory(), old(system_data).cycles)),
{
    let address = read_immediate16(system_data, registers);
    registers.accumulator = read_byte(system_data, address);
    registers.program_counter = registers.program_counter + 3;
}

/// LD rr, nn (opcodes 0x01, 0x11, 0x21, 0x31).
pub fn load_nn_to_16bit_register(system_data: &mut SystemData, registers: &mut Registers, opcode: u8)
    requires
        old(system_data).wf(),
        pc_room(*old(registers), 2),
        is_load_nn_opcode(opcode) ==> pc_room(*old(registers), 3),
    ensures
        produces(*old(system_data), *final(system_data), *final(registers),
            load_nn_to_16bit_register_effect(*old(registers), old(system_data).memory(), old(system_data).cycles, opcode)),
{
    let set_value = read_immediate16(system_data, registers);
    if opcode == 0x01 {
        registers.mapped_16_bit_register_setter(1, set_value);
    } else if opcode == 0x11 {
        registers.mapped_16_bit_register_setter(2, set_value);
    } else if opcode == 0x21 {
        registers.mapped_16_bit_register_setter(3, set_value);
    } else if opcode == 0x31 {
        registers.mapped_16_bit_register_setter(4, set_value);
    } else {
        return;
    }
    registers.program_counter = registers.program_counter + 3;
}

/// LD (nn), SP (opcode 0x08).
pub fn load_stack_pointer_to_nn_address(system_data: &mut SystemData, registers: &mut Registers)
    requires
        old(system_data).wf(),
        pc_room(*old(registers), 3),
        imm16(*old(registers), old(system_data).memory()) < 0xFFFF,
    ensures
        produces(*old(system_data), *final(system_data), *final(registers),
            load_stack_pointer_to_nn_address_effect(*old(registers), old(system_data).memory(), old(system_data).cycles)),
{
    let address = read_immediate16(system_data, registers);
    let (high, low) = split_bytes(registers.stack_pointer);
    write_byte(system_data, address, low);
    write_byte(system_data, address + 1, high);
    registers.program_counter = registers.program_counter + 3;
}

/// LD SP, HL (opcode 0xF9).
pub fn load_hl_to_stack_pointer(system_data: &mut SystemData, registers: &mut Registers)
    requires
        old(system_data).wf(),
        pc_room(*old(registers), 1),
    ensures
        produces(*old(system_data), *final(system_data), *final(registers),
            load_hl_to_stack_pointer_effect(*old(registers), old(system_data).memory(), old(system_data).cycles)),
{
    registers.program_counter = registers.program_counter + 1;
    registers.stack_pointer = registers.mapped_16_bit_register_getter(3);
}

/// SP plus a signed byte, with the flags of the addition.
fn stack_offset_of(sp: u16, n: u8) -> (res: (u16, u8))
    ensures
        res == stack_offset(sp, n),
{
    let value = add_displacement(sp, n);
    let flags = make_flags(false, false, n % 16 + (sp % 16) as u8 >= 16, n as u16 + sp % 256 >= 256);
    (value, flags)
}

/// LD HL, SP + n (opcode 0xF8).
pub fn load_hl_with_stack_pointer_plus_n(system_data: &mut SystemData, registers: &mut Registers)
    requires
        old(system_data).wf(),
        pc_room(*old(registers), 2),
    ensures
        produces(*old(system_data), *final(system_data), *final(registers),
            load_hl_with_stack_pointer_plus_n_effect(*old(registers), old(system_data).memory(), old(system_data).cycles)),
{
    let n = read_immediate(system_data, registers, 1);
    let (value, flags) = stack_offset_of(registers.stack_pointer, n);
    registers.flags = flags;
    registers.mapped_16_bit_register_setter(3, value);
    registers.program_counter = registers.program_counter + 2;
}

/// ADD SP, n (opcode 0xE8).
pub fn add_signed_8_bit_to_stack_pointer(system_data: &mut SystemData, registers: &mut Registers)
    requires
        old(system_data).wf(),
        pc_room(*old(registers), 2),
    ensures
        produces(*old(system_data), *final(system_data), *final(registers),
            add_signed_8_bit_to_stack_pointer_effect(*old(registers), old(system_data).memory(), old(system_data).cycles)),
{
    let n = read_immediate(system_data, registers, 1);
    let (value, flags) = stack_offset_of(registers.stack_pointer, n);
    registers.flags = flags;
    registers.stack_pointer = value;
    registers.program_counter = registers.program_counter + 2;
}

/// ADD HL, rr (opcodes 0x09, 0x19, 0x29, 0x39).
pub fn add_16_bit_register_to_hl(system_data: &mut SystemData, registers: &mut Registers, opcode: u8)
    requires
        old(system_data).wf(),
        pc_room(*old(registers), 1),
    ensures
        produces(*old(system_data), *final(system_data), *final(registers),
            add_16_bit_register_to_hl_effect(*old(registers), old(system_data).memory(), old(system_data).cycles, opcode)),
{
    let kept = registers.flags & 0x8F;
    proof {
        lemma_and_at_most_mask(registers.flags, 0x8F);
    }
    registers.program_counter = registers.program_counter + 1;
    let register_code = pair_code_of(opcode);
    let add_register = registers.mapped_16_bit_register_getter(register_code);
    let hl_register = registers.mapped_16_bit_register_getter(3);
    let sum: u32 = add_register as u32 + hl_register as u32;
    let half = add_register % 4096 + hl_register % 4096 >= 4096;
    let carry = sum >= 0x10000;
    let mut flags = kept;
    if half {
        flags = flags + 0x20;
    }
    if carry {
        flags = flags + 0x10;
    }
    registers.flags = flags;
    registers.mapped_16_bit_register_setter(3, (sum % 0x10000) as u16);
}

/// JP (HL) (opcode 0xE9).
pub fn jump_to_hl(system_data: &mut SystemData, registers: &mut Registers)
    requires
        old(system_data).wf(),
    ensures
        produces(*old(system_data), *final(system_data), *final(registers),
            jump_to_hl_effect(*old(registers), old(system_data).memory(), old(system_data).cycles)),
{
    registers.program_counter = registers.mapped_16_bit_register_getter(3);
}

/// JR d (opcode 0x18).
pub fn jump_displacement(system_data: &mut SystemData, registers: &mut Registers)
    requires
        old(system_data).wf(),
        pc_room(*old(registers), 1),
        displaced(old(registers).program_counter, imm(*old(registers), old(system_data).memory(), 1)) + 2 <= 0xFFFF,
    ensures
        produces(*old(system_data), *final(system_data), *final(registers),
            jump_displacement_effect(*old(registers), old(system_data).memory(), old(system_data).cycles)),
{
    let d = read_immediate(system_data, registers, 1);
    registers.program_counter = add_displacement(registers.program_counter, d) + 2;
}

/// JR cc, d (opcodes 0x20, 0x28, 0x30, 0x38).
pub fn jump_displacement_on_flag(system_data: &mut SystemData, registers: &mut Registers, opcode: u8)
    requires
        old(system_data).wf(),
        condition_holds(old(registers).flags, condition_code(opcode)) ==> pc_room(*old(registers), 1)
            && displaced(old(registers).program_counter, imm(*old(registers), old(system_data).memory(), 1)) + 2 <= 0xFFFF,
        !condition_holds(old(registers).flags, condition_code(opcode)) ==> pc_room(*old(registers), 2),
    ensures
        produces(*old(system_data), *final(system_data), *final(registers),
            jump_displacement_on_flag_effect(*old(registers), old(system_data).memory(), old(system_data).cycles, opcode)),
{
    if !check_condition(registers.flags, condition_code_of(opcode)) {
        registers.program_counter = registers.program_counter + 2;
    } else {
        system_data.cycles = 3;
        let d = read_immediate(system_data, registers, 1);
        registers.program_counter = add_displacement(registers.program_counter, d) + 2;
    }
}

/// JP nn (opcode 0xC3).
pub fn jump_address(system_data: &mut SystemData, registers: &mut Registers)
    requires
        old(system_data).wf(),
        pc_room(*old(registers), 2),
    ensures
        produces(*old(system_data), *final(system_data), *final(registers),
            jump_address_effect(*old(registers), old(system_data).memory(), old(system_data).cycles)),
{
    registers.program_counter = read_immediate16(system_data, registers);
    system_data.cycles = 4;
}

/// JP cc, nn (opcodes 0xC2, 0xCA, 0xD2, 0xDA).
pub fn jump_address_with_conditional(system_data: &mut SystemData, registers: &mut Registers, opcode: u8)
    requires
        old(system_data).wf(),
        condition_holds(old(registers).flags, condition_code(opcode)) ==> pc_room(*old(registers), 2),
        !condition_holds(old(registers).flags, condition_code(opcode)) ==> pc_room(*old(registers), 3),
    ensures
        produces(*old(system_data), *final(system_data), *final(registers),
            jump_address_with_conditional_effect(*old(registers), old(system_data).memory(), old(system_data).cycles, opcode)),
{
    if !check_condition(registers.flags, condition_code_of(opcode)) {
        registers.program_counter = registers.program_counter + 3;
    } else {
        registers.program_counter = read_immediate16(system_data, registers);
        system_data.cycles = 4;
    }
}

/// Pushes a 16-bit value: upper byte at SP - 1, lower byte at SP - 2.
pub(crate) fn push_value(system_data: &mut SystemData, registers: &mut Registers, value: u16)
    requires
        old(system_data).wf(),
        old(registers).stack_pointer >= 2,
    ensures
        final(system_data).memory() == push_memory(old(system_data).memory(), old(registers).stack_pointer, value),
        *final(registers) == (Registers { stack_pointer: (old(registers).stack_pointer - 2) as u16, ..*old(registers) }),
        final(system_data).wf(),
        final(system_data).cycles == old(system_data).cycles,
        same_but_memory_and_cycles(*old(system_data), *final(system_data)),
{
    let (high, low) = split_bytes(value);
    registers.stack_pointer = registers.stack_pointer - 1;
    write_byte(system_data, registers.stack_pointer, high);
    registers.stack_pointer = registers.stack_pointer - 1;
    write_byte(system_data, registers.stack_pointer, low);
}

/// Reads the 16-bit value on top of the stack.
fn read_stack_top(system_data: &SystemData, registers: &Registers) -> (value: u16)
    requires
        system_data.wf(),
        registers.stack_pointer + 1 < 0x10000,
    ensures
        value == stack_top(system_data.memory(), registers.stack_pointer),
{
    let lower = read_byte(system_data, registers.stack_pointer);
    let upper = read_byte(system_data, registers.stack_pointer + 1);
    combine_bytes(upper, lower)
}

/// CALL nn (opcode 0xCD).
pub fn call_nn(system_data: &mut SystemData, registers: &mut Registers)
    requires
        old(system_data).wf(),
        pc_room(*old(registers), 3),
        old(registers).stack_pointer >= 2,
    ensures
        produces(*old(system_data), *final(system_data), *final(registers),
            call_nn_effect(*old(registers), old(system_data).memory(), old(system_data).cycles)),
{
    let return_address = registers.program_counter + 3;
    push_value(system_data, registers, return_address);
    registers.program_counter = read_immediate16(system_data, registers);
}

/// CALL cc, nn (opcodes 0xC4, 0xCC, 0xD4, 0xDC).
pub fn call_function_nn_on_conditional(system_data: &mut SystemData, registers: &mut Registers, opcode: u8)
    requires
        old(system_data).wf(),
        bit_code(opcode) <= 3 ==> pc_room(*old(registers), 3),
        bit_code(opcode) <= 3 && condition_holds(old(registers).flags, bit_code(opcode)) ==> old(registers).stack_pointer >= 2,
    ensures
        produces(*old(system_data), *final(system_data), *final(registers),
            call_function_nn_on_conditional_effect(*old(registers), old(system_data).memory(), old(system_data).cycles, opcode)),
{
    let condition = bit_code_of(opcode);
    if condition > 3 {
        return;
    }
    if check_condition(registers.flags, condition) {
        system_data.cycles = 6;
        let target = read_immediate16(system_data, registers);
        registers.program_counter = registers.program_counter + 3;
        let return_address = registers.program_counter;
        push_value(system_data, registers, return_address);
        registers.program_counter = target;
    } else {
        registers.program_counter = registers.program_counter + 3;
    }
}

/// RET (opcode 0xC9).
pub fn return_from_call(system_data: &mut SystemData, registers: &mut Registers)
    requires
        old(system_data).wf(),
        old(registers).stack_pointer + 2 <= 0xFFFF,
    ensures
        produces(*old(system_data), *final(system_data), *final(registers),
            return_from_call_effect(*old(registers), old(system_data).memory(), old(system_data).cycles)),
{
    registers.program_counter = read_stack_top(system_data, registers);
    registers.stack_pointer = registers.stack_pointer + 2;
}

/// RETI (opcode 0xD9).
pub fn return_from_call_ei(system_data: &mut SystemData, registers: &mut Registers)
    requires
        old(system_data).wf(),
        old(registers).stack_pointer + 2 <= 0xFFFF,
    ensures
        produces(*old(system_data), *final(system_data), *final(registers),
            return_from_call_ei_effect(*old(registers), old(system_data).memory(), old(system_data).cycles)),
{
    registers.program_counter = read_stack_top(system_data, registers);
    registers.stack_pointer = registers.stack_pointer + 2;
    registers.interrupt_master_enable_delay_flag = true;
}

/// RET cc (opcodes 0xC0, 0xC8, 0xD0, 0xD8).
pub fn return_from_call_conditional(system_data: &mut SystemData, registers: &mut Registers, opcode: u8)
    requires
        old(system_data).wf(),
        condition_holds(old(registers).flags, condition_code(opcode)) ==> old(registers).stack_pointer + 2 <= 0xFFFF,
        !condition_holds(old(registers).flags, condition_code(opcode)) ==> pc_room(*old(registers), 1),
    ensures
        produces(*old(system_data), *final(system_data), *final(registers),
            return_from_call_conditional_effect(*old(registers), old(system_data).memory(), old(system_data).cycles, opcode)),
{
    if !check_condition(registers.flags, condition_code_of(opcode)) {
        registers.program_counter = registers.program_counter + 1;
    } else {
        system_data.cycles = 5;
        registers.program_counter = read_stack_top(system_data, registers);
        registers.stack_pointer = registers.stack_pointer + 2;
    }
}

/// PUSH rr (opcodes 0xC5, 0xD5, 0xE5, 0xF5).
pub fn push_16_bit_register(system_data: &mut SystemData, registers: &mut Registers, opcode: u8)
    requires
        old(system_data).wf(),
        pc_room(*old(registers), 1),
        old(registers).stack_pointer >= 2,
    ensures
        produces(*old(system_data), *final(system_data), *final(registers),
            push_16_bit_register_effect(*old(registers), old(system_data).memory(), old(system_data).cycles, opcode)),
{
    let register_code = ((opcode / 16) % 4 + 1) % 4;
    let value = registers.mapped_16_bit_register_getter(register_code);
    push_value(system_data, registers, value);
    registers.program_counter = registers.program_counter + 1;
}

/// POP rr (opcodes 0xC1, 0xD1, 0xE1, 0xF1).
pub fn pop_16_bit_register(system_data: &mut SystemData, registers: &mut Registers, opcode: u8)
    requires
        old(system_data).wf(),
        pc_room(*old(registers), 1),
        old(registers).stack_pointer + 2 <= 0xFFFF,
    ensures
        produces(*old(system_data), *final(system_data), *final(registers),
            pop_16_bit_register_effect(*old(registers), old(system_data).memory(), old(system_data).cycles, opcode)),
{
    let register_code: u8 = if opcode == 0xC1 {
        1
    } else if opcode == 0xD1 {
        2
    } else if opcode == 0xE1 {
        3
    } else {
        0
    };
    let lower = read_byte(system_data, registers.stack_pointer);
    let upper = read_byte(system_data, registers.stack_pointer + 1);
    registers.stack_pointer = registers.stack_pointer + 2;
    let low = if register_code == 0 { lower & 0xF0 } else { lower };
    registers.mapped_16_bit_register_setter(register_code, combine_bytes(upper, low));
    registers.program_counter = registers.program_counter + 1;
}

/// RST t (opcodes 0xC7, 0xCF, ..., 0xFF).
pub fn rst_jump(system_data: &mut SystemData, registers: &mut Registers, opcode: u8)
    requires
        old(system_data).wf(),
        pc_room(*old(registers), 1),
        old(registers).stack_pointer >= 2,
    ensures
        produces(*old(system_data), *final(system_data), *final(registers),
            rst_jump_effect(*old(registers), old(system_data).memory(), old(system_data).cycles, opcode)),
{
    registers.program_counter = registers.program_counter + 1;
    let return_address = registers.program_counter;
    push_value(system_data, registers, return_address);
    registers.program_counter = bit_code_of(opcode) as u16 * 8;
}

/// XOR r (opcodes 0xA8-0xAD, 0xAF).
pub fn xor_8_bit_register(system_data: &mut SystemData, registers: &mut Registers, opcode: u8)
    requires
        old(system_data).wf(),
        src_code(opcode) != 7 ==> pc_room(*old(registers), 1),
    ensures
        produces(*old(system_data), *final(system_data), *final(registers),
            xor_8_bit_register_effect(*old(registers), old(system_data).memory(), old(system_data).cycles, opcode)),
{
    let register_code = src_code_of(opcode);
    if register_code != 7 {
        registers.accumulator = registers.accumulator ^ registers.mapped_register_getter(register_code);
        registers.flags = logic_flags_of(registers.accumulator, false);
        registers.program_counter = registers.program_counter + 1;
    }
}

/// OR r (opcodes 0xB0-0xB5, 0xB7).
pub fn or_8_bit_register(system_data: &mut SystemData, registers: &mut Registers, opcode: u8)
    requires
        old(system_data).wf(),
        src_code(opcode) != 7 ==> pc_room(*old(registers), 1),
    ensures
        produces(*old(system_data), *final(system_data), *final(registers),
            or_8_bit_register_effect(*old(registers), old(system_data).memory(), old(system_data).cycles, opcode)),
{
    let register_code = src_code_of(opcode);
    if register_code != 7 {
        registers.accumulator = registers.accumulator | registers.mapped_register_getter(register_code);
        registers.flags = logic_flags_of(registers.accumulator, false);
        registers.program_counter = registers.program_counter + 1;
    }
}

/// AND r and AND (HL) (opcodes 0xA0-0xA7).
pub fn and_8_bit_register(system_data: &mut SystemData, registers: &mut Registers, opcode: u8)
    requires
        old(system_data).wf(),
        pc_room(*old(registers), 1),
    ensures
        produces(*old(system_data), *final(system_data), *final(registers),
            and_8_bit_register_effect(*old(registers), old(system_data).memory(), old(system_data).cycles, opcode)),
{
    let value = read_operand(system_data, registers, src_code_of(opcode));
    registers.accumulator = registers.accumulator & value;
    registers.flags = logic_flags_of(registers.accumulator, true);
    registers.program_counter = registers.program_counter + 1;
}

/// AND n (opcode 0xE6).
pub fn and_nn_with_accumulator(system_data: &mut SystemData, registers: &mut Registers)
    requires
        old(system_data).wf(),
        pc_room(*old(registers), 2),
    ensures
        produces(*old(system_data), *final(system_data), *final(registers),
            and_nn_with_accumulator_effect(*old(registers), old(system_data).memory(), old(system_data).cycles)),
{
    let n = read_immediate(system_data, registers, 1);
    registers.accumulator = registers.accumulator & n;
    registers.flags = logic_flags_of(registers.accumulator, true);
    registers.program_counter = registers.program_counter + 2;
}

/// OR n (opcode 0xF6).
pub fn or_n(system_data: &mut SystemData, registers: &mut Registers)
    requires
        old(system_data).wf(),
        pc_room(*old(registers), 2),
    ensures
        produces(*old(system_data), *final(system_data), *final(registers),
            or_n_effect(*old(registers), old(system_data).memory(), old(system_data).cycles)),
{
    let n = read_immediate(system_data, registers, 1);
    registers.accumulator = registers.accumulator | n;
    registers.flags = logic_flags_of(registers.accumulator, false);
    registers.program_counter = registers.program_counter + 2;
}

/// XOR n (opcode 0xEE).
pub fn xor_accumulator_with_n(system_data: &mut SystemData, registers: &mut Registers)
    requires
        old(system_data).wf(),
        pc_room(*old(registers), 2),
    ensures
        produces(*old(system_data), *final(system_data), *final(registers),
            xor_accumulator_with_n_effect(*old(registers), old(system_data).memory(), old(system_data).cycles)),
{
    let n = read_immediate(system_data, registers, 1);
    registers.accumulator = registers.accumulator ^ n;
    registers.flags = logic_flags_of(registers.accumulator, false);
    registers.program_counter = registers.program_counter + 2;
}

/// XOR (HL) (opcode 0xAE).
pub fn xor_hl_location(system_data: &mut SystemData, registers: &mut Registers)
    requires
        old(system_data).wf(),
        pc_room(*old(registers), 1),
    ensures
        produces(*old(system_data), *final(system_data), *final(registers),
            xor_hl_location_effect(*old(registers), old(system_data).memory(), old(system_data).cycles)),
{
    let value = read_byte(system_data, registers.mapped_16_bit_register_getter(3));
    registers.accumulator = registers.accumulator ^ value;
    registers.flags = logic_flags_of(registers.accumulator, false);
    registers.program_counter = registers.program_counter + 1;
}

/// OR (HL) (opcode 0xB6).
pub fn or_hl_location(system_data: &mut SystemData, registers: &mut Registers)
    requires
        old(system_data).wf(),
        pc_room(*old(registers), 1),
    ensures
        produces(*old(system_data), *final(system_data), *final(registers),
            or_hl_location_effect(*old(registers), old(system_data).memory(), old(system_data).cycles)),
{
    registers.program_counter = registers.program_counter + 1;
    let value = read_byte(system_data, registers.mapped_16_bit_register_getter(3));
    registers.accumulator = registers.accumulator | value;
    registers.flags = logic_flags_of(registers.accumulator, false);
}

/// CPL (opcode 0x2F).
pub fn ones_complement(system_data: &mut SystemData, registers: &mut Registers)
    requires
        old(system_data).wf(),
        pc_room(*old(registers), 1),
    ensures
        produces(*old(system_data), *final(system_data), *final(registers),
            ones_complement_effect(*old(registers), old(system_data).memory(), old(system_data).cycles)),
{
    registers.program_counter = registers.program_counter + 1;
    registers.accumulator = 255 - registers.accumulator;
    registers.flags = registers.flags | 0x60;
}

/// DAA (opcode 0x27).
pub fn bcd_adjust(system_data: &mut SystemData, registers: &mut Registers)
    requires
        old(system_data).wf(),
        pc_room(*old(registers), 1),
    ensures
        produces(*old(system_data), *final(system_data), *final(registers),
            bcd_adjust_effect(*old(registers), old(system_data).memory(), old(system_data).cycles)),
{
    registers.program_counter = registers.program_counter + 1;
    let a = registers.accumulator;
    let n_flag = registers.flags & 0x40 == 0x40;
    let h_flag = registers.flags & 0x20 == 0x20;
    let c_flag = registers.flags & 0x10 == 0x10;
    let mut add_value: u16 = 0;
    let mut carry_set = false;
    if !n_flag {
        if c_flag || a > 0x99 {
            add_value = add_value + 0x60;
            carry_set = true;
        }
        if h_flag || a % 16 > 9 {
            add_value = add_value + 0x06;
        }
    } else {
        if c_flag && h_flag {
            add_value = 0x9A;
            carry_set = true;
        } else if c_flag {
            add_value = 0xA0;
            carry_set = true;
        } else if h_flag {
            add_value = 0xFA;
        }
    }
    let result = ((a as u16 + add_value) % 256) as u8;
    registers.flags = make_flags(result == 0, n_flag, false, carry_set);
    registers.accumulator = result;
}

/// SCF (opcode 0x37).
pub fn set_carry_flag(system_data: &mut SystemData, registers: &mut Registers)
    requires
        old(system_data).wf(),
        pc_room(*old(registers), 1),
    ensures
        produces(*old(system_data), *final(system_data), *final(registers),
            set_carry_flag_effect(*old(registers), old(system_data).memory(), old(system_data).cycles)),
{
    registers.program_counter = registers.program_counter + 1;
    registers.flags = make_flags(registers.flags & 0x80 == 0x80, false, false, true);
}

/// CCF (opcode 0x3F).
pub fn flip_carry_flag(system_data: &mut SystemData, registers: &mut Registers)
    requires
        old(system_data).wf(),
        pc_room(*old(registers), 1),
    ensures
        produces(*old(system_data), *final(system_data), *final(registers),
            flip_carry_flag_effect(*old(registers), old(system_data).memory(), old(system_data).cycles)),
{
    registers.program_counter = registers.program_counter + 1;
    registers.flags = make_flags(registers.flags & 0x80 == 0x80, false, false, registers.flags & 0x10 != 0x10);
}

/// RLA (opcode 0x17).
pub fn rotate_accumulator_left_through_carry(system_data: &mut SystemData, registers: &mut Registers)
    requires
        old(system_data).wf(),
        pc_room(*old(registers), 1),
    ensures
        produces(*old(system_data), *final(system_data), *final(registers),
            rotate_accumulator_left_through_carry_effect(*old(registers), old(system_data).memory(), old(system_data).cycles)),
{
    let carry = carry_of(registers.flags);
    let a = registers.accumulator;
    registers.flags = make_flags(false, false, false, a >= 128);
    registers.accumulator = rotate_left_byte(a, carry);
    registers.program_counter = registers.program_counter + 1;
}

/// RRA (opcode 0x1F).
pub fn rotate_accumulator_right_through_carry(system_data: &mut SystemData, registers: &mut Registers)
    requires
        old(system_data).wf(),
        pc_room(*old(registers), 1),
    ensures
        produces(*old(system_data), *final(system_data), *final(registers),
            rotate_accumulator_right_through_carry_effect(*old(registers), old(system_data).memory(), old(system_data).cycles)),
{
    let carry = carry_of(registers.flags);
    let a = registers.accumulator;
    registers.flags = make_flags(false, false, false, a % 2 == 1);
    registers.accumulator = rotate_right_byte(a, carry);
    registers.program_counter = registers.program_counter + 1;
}

/// RLCA (opcode 0x07).
pub fn rlca(system_data: &mut SystemData, registers: &mut Registers)
    requires
        old(system_data).wf(),
        pc_room(*old(registers), 1),
    ensures
        produces(*old(system_data), *final(system_data), *final(registers),
            rlca_effect(*old(registers), old(system_data).memory(), old(system_data).cycles)),
{
    registers.program_counter = registers.program_counter + 1;
    let a = registers.accumulator;
    registers.accumulator = rotate_left_byte(a, a / 128);
    registers.flags = make_flags(false, false, false, a >= 128);
}

/// RRCA (opcode 0x0F).
pub fn rrca(system_data: &mut SystemData, registers: &mut Registers)
    requires
        old(system_data).wf(),
        pc_room(*old(registers), 1),
    ensures
        produces(*old(system_data), *final(system_data), *final(registers),
            rrca_effect(*old(registers), old(system_data).memory(), old(system_data).cycles)),
{
    registers.program_counter = registers.program_counter + 1;
    let a = registers.accumulator;
    registers.accumulator = rotate_right_byte(a, a % 2);
    registers.flags = make_flags(false, false, false, a % 2 == 1);
}

/// Runs the instruction with opcode `opcode` (the cycle count already set to
/// the opcode's base count).
pub fn execute_opcode(system_data: &mut SystemData, registers: &mut Registers, opcode: u8)
    requires
        old(system_data).wf(),
        execute_ok(opcode, *old(registers), old(system_data).memory()),
    ensures
        produces(*old(system_data), *final(system_data), *final(registers),
            execute(opcode, *old(registers), old(system_data).memory(), old(system_data).cycles)),
{
    match opcode {
        0x00 => no_operation(system_data, registers),
        0x01 | 0x11 | 0x21 | 0x31 => load_nn_to_16bit_register(system_data, registers, opcode),
        0x02 => load_accumulator_to_address_at_bc(system_data, registers),
        0x03 | 0x13 | 0x23 | 0x33 => increment_16_bit_register(system_data, registers, opcode),
        0x04 | 0x0C | 0x14 | 0x1C | 0x24 | 0x2C | 0x3C => increment_8_bit_register(system_data, registers, opcode),
        0x05 | 0x0D | 0x15 | 0x1D | 0x25 | 0x2D | 0x3D => decrement_8_bit_register(system_data, registers, opcode),
        0x06 | 0x0E | 0x16 | 0x1E | 0x26 | 0x2E | 0x3E => load_n_to_8bit_register(system_data, registers, opcode),
        0x07 => rlca(system_data, registers),
        0x08 => load_stack_pointer_to_nn_address(system_data, registers),
        0x09 | 0x19 | 0x29 | 0x39 => add_16_bit_register_to_hl(system_data, registers, opcode),
        0x0A => load_accumulator_with_bc_address(system_data, registers),
        0x0B | 0x1B | 0x2B | 0x3B => decrement_16_bit_register(system_data, registers, opcode),
        0x0F => rrca(system_data, registers),
        0x10 => stop(system_data, registers),
        0x12 => load_de_location_with_accumulator(system_data, registers),
        0x17 => rotate_accumulator_left_through_carry(system_data, registers),
        0x18 => jump_displacement(system_data, registers),
        0x1A => load_accumulator_with_de_address(system_data, registers),
        0x1F => rotate_accumulator_right_through_carry(system_data, registers),
        0x20 | 0x28 | 0x30 | 0x38 => jump_displacement_on_flag(system_data, registers, opcode),
        0x22 => load_increment_hl_register_location_with_accumulator(system_data, registers),
        0x27 => bcd_adjust(system_data, registers),
        0x2A => load_accumulator_with_hl_then_increment(system_data, registers),
        0x2F => ones_complement(system_data, registers),
        0x32 => load_decrement_hl_register_location_with_accumulator(system_data, registers),
        0x34 => increment_hl_location(system_data, registers),
        0x35 => decrement_hl_location(system_data, registers),
        0x36 => load_n_to_hl_location(system_data, registers),
        0x37 => set_carry_flag(system_data, registers),
        0x3A => load_accumulator_with_hl_then_decrement(system_data, registers),
        0x3F => flip_carry_flag(system_data, registers),
        0x76 => halt(system_data, registers),
        0x46 | 0x4E | 0x56 | 0x5E | 0x66 | 0x6E | 0x7E => load_register_with_hl_location(system_data, registers, opcode),
        _ if 0x70 <= opcode && opcode <= 0x77 => load_hl_address_with_register(system_data, registers, opcode),
        _ if 0x40 <= opcode && opcode <= 0x7F => load_8_bit_register_to_register(system_data, registers, opcode),
        _ if 0x80 <= opcode && opcode <= 0x87 => add_8_bit(system_data, registers, opcode),
        _ if 0x88 <= opcode && opcode <= 0x8F => add_registers_to_accumulator_with_carry(system_data, registers, opcode),
        _ if 0x90 <= opcode && opcode <= 0x97 => subtract_8_bit(system_data, registers, opcode),
        0x9E => subtract_hl_location_and_carry_from_accumulator(system_data, registers),
        _ if 0x98 <= opcode && opcode <= 0x9F => subtract_register_and_carry_from_accumulator(system_data, registers, opcode),
        _ if 0xA0 <= opcode && opcode <= 0xA7 => and_8_bit_register(system_data, registers, opcode),
        0xAE => xor_hl_location(system_data, registers),
        _ if 0xA8 <= opcode && opcode <= 0xAF => xor_8_bit_register(system_data, registers, opcode),
        0xB6 => or_hl_location(system_data, registers),
        _ if 0xB0 <= opcode && opcode <= 0xB7 => or_8_bit_register(system_data, registers, opcode),
        0xBE => compare_with_hl_address(system_data, registers),
        _ if 0xB8 <= opcode && opcode <= 0xBF => compare_register_to_accumulator(system_data, registers, opcode),
        0xC0 | 0xC8 | 0xD0 | 0xD8 => return_from_call_conditional(system_data, registers, opcode),
        0xC1 | 0xD1 | 0xE1 | 0xF1 => pop_16_bit_register(system_data, registers, opcode),
        0xC2 | 0xCA | 0xD2 | 0xDA => jump_address_with_conditional(system_data, registers, opcode),
        0xC3 => jump_address(system_data, registers),
        0xC4 | 0xCC | 0xD4 | 0xDC => call_function_nn_on_conditional(system_data, registers, opcode),
        0xC5 | 0xD5 | 0xE5 | 0xF5 => push_16_bit_register(system_data, registers, opcode),
        0xC6 => add_8_bit_to_accumulator(system_data, registers),
        0xC7 | 0xCF | 0xD7 | 0xDF | 0xE7 | 0xEF | 0xF7 | 0xFF => rst_jump(system_data, registers, opcode),
        0xC9 => return_from_call(system_data, registers),
        0xCB => cb_codes(system_data, registers),
        0xCD => call_nn(system_data, registers),
        0xCE => add_8_bit_to_accumulator_with_carry(system_data, registers),
        0xD6 => subtraction_n_from_accumulator(system_data, registers),
        0xD9 => return_from_call_ei(system_data, registers),
        0xDE => subtract_8_bit_from_accumulator_with_carry(system_data, registers),
        0xE0 => load_accumulator_to_io_port_with_n_offset(system_data, registers),
        0xE2 => load_accumulator_to_io_port_with_c_offset(system_data, registers),
        0xE6 => and_nn_with_accumulator(system_data, registers),
        0xE8 => add_signed_8_bit_to_stack_pointer(system_data, registers),
        0xE9 => jump_to_hl(system_data, registers),
        0xEA => load_nn_with_accumulator(system_data, registers),
        0xEE => xor_accumulator_with_n(system_data, registers),
        0xF0 => load_accumulator_with_io_port_with_n_offset(system_data, registers),
        0xF2 => read_io_port_with_c_offset_to_accumulator(system_data, registers),
        0xF3 => disable_interupts(system_data, registers),
        0xF6 => or_n(system_data, registers),
        0xF8 => load_hl_with_stack_pointer_plus_n(system_data, registers),
        0xF9 => load_hl_to_stack_pointer(system_data, registers),
        0xFA => load_accumulator_with_nn_address(system_data, registers),
        0xFB => enable_interupts(system_data, registers),
        0xFE => compare_with_n(system_data, registers),
        _ => {},
    }
}

/// Executes one instruction (see `step`): handles halt, serves a pending
/// interrupt, applies a pending interrupt enable, runs the opcode at the
/// program counter and leaves the clock cycles it took in `system_data.cycles`.
pub fn parse_opcode(system_data: &mut SystemData, registers: &mut Registers)
    requires
        old(system_data).wf(),
        step_ok(*old(registers), old(system_data).memory()),
    ensures
        produces(*old(system_data), *final(system_data), *final(registers),
            step(*old(registers), old(system_data).memory())),
{
    reveal(step);
    reveal(step_ok);
    let mut bonus_cycles: u8 = 0;
    if registers.halt_flag {
        if read_byte(system_data, 0xFF0F) & 0x1F != 0x00 {
            registers.halt_flag = false;
            bonus_cycles = bonus_cycles + 4;
        } else {
            system_data.cycles = 4;
            return;
        }
    }
    let mut opcode: u8 = read_byte(system_data, registers.program_counter);
    if registers.interrupt_master_enable_flag {
        let enabled_interrupts = read_byte(system_data, 0xFFFF);
        let requested_interrupts = read_byte(system_data, 0xFF0F);
        let runnable_interrupts = enabled_interrupts & requested_interrupts;
        if runnable_interrupts > 0x00 && runnable_interrupts <= 0x1F {
            let (interrupt_vector, mask): (u16, u8) = if runnable_interrupts & 0x01 == 0x01 {
                (0x40, 0x1E)
            } else if runnable_interrupts & 0x02 == 0x02 {
                (0x48, 0x1D)
            } else if runnable_interrupts & 0x04 == 0x04 {
                (0x50, 0x1B)
            } else if runnable_interrupts & 0x08 == 0x08 {
                (0x58, 0x17)
            } else {
                (0x60, 0x0F)
            };
            write_byte(system_data, 0xFF0F, requested_interrupts & mask);
            let return_address = registers.program_counter;
            push_value(system_data, registers, return_address);
            registers.program_counter = interrupt_vector;
            opcode = read_byte(system_data, registers.program_counter);
            registers.interrupt_master_enable_flag = false;
            bonus_cycles = bonus_cycles + 20;
        }
    }
    if registers.interrupt_master_enable_delay_flag {
        registers.interrupt_master_enable_delay_flag = false;
        registers.interrupt_master_enable_flag = true;
    }
    let ghost before = *registers;
    let ghost memory_before = system_data.memory();
    system_data.cycles = cycle_parse(opcode);
    execute_opcode(system_data, registers, opcode);
    proof {
        lemma_execute_cycles_small(opcode, before, memory_before, opcode_cycles(opcode));
    }
    system_data.cycles = system_data.cycles * 4 + bonus_cycles;
}

} // verus!
