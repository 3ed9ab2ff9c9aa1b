use vstd::prelude::*;
use crate::cpu::cycles::{cb_opcode_cycles, opcode_cycles};
use crate::cpu::model::{add_displacement, bit_code, bit_code_of, check_condition, condition_code, condition_code_of, condition_holds, displaced, imm, imm16, outcome, pc_room, read_byte};
use crate::cpu::semantics::{add_16_bit_register_to_hl_effect, add_8_bit_effect, add_8_bit_to_accumulator_effect, add_8_bit_to_accumulator_with_carry_effect, add_registers_to_accumulator_with_carry_effect, add_signed_8_bit_to_stack_pointer_effect, and_8_bit_register_effect, and_nn_with_accumulator_effect, bcd_adjust_effect, bit_check_register_effect, call_function_nn_on_conditional_effect, call_nn_effect, compare_register_to_accumulator_effect, compare_with_hl_address_effect, compare_with_n_effect, decrement_16_bit_register_effect, decrement_8_bit_register_effect, decrement_hl_location_effect, disable_interupts_effect, enable_interupts_effect, flip_carry_flag_effect, halt_effect, increment_16_bit_register_effect, increment_8_bit_register_effect, increment_hl_location_effect, jump_address_effect, jump_address_with_conditional_effect, jump_displacement_effect, jump_displacement_on_flag_effect, jump_to_hl_effect, load_8_bit_register_to_register_effect, load_accumulator_to_address_at_bc_effect, load_accumulator_to_io_port_with_c_offset_effect, load_accumulator_to_io_port_with_n_offset_effect, load_accumulator_with_bc_address_effect, load_accumulator_with_de_address_effect, load_accumulator_with_hl_then_decrement_effect, load_accumulator_with_hl_then_increment_effect, load_accumulator_with_io_port_with_n_offset_effect, load_accumulator_with_nn_address_effect, load_de_location_with_accumulator_effect, load_decrement_hl_register_location_with_accumulator_effect, load_hl_address_with_register_effect, load_hl_to_stack_pointer_effect, load_hl_with_stack_pointer_plus_n_effect, load_increment_hl_register_location_with_accumulator_effect, load_n_to_8bit_register_effect, load_n_to_hl_location_effect, load_nn_to_16bit_register_effect, load_nn_with_accumulator_effect, load_register_with_hl_location_effect, load_stack_pointer_to_nn_address_effect, no_operation_effect, ones_complement_effect, or_8_bit_register_effect, or_hl_location_effect, or_n_effect, pop_16_bit_register_effect, push_16_bit_register_effect, push_memory, read_io_port_with_c_offset_to_accumulator_effect, reset_bit_in_register_effect, return_from_call_conditional_effect, return_from_call_effect, return_from_call_ei_effect, rlca_effect, rotate_accumulator_left_through_carry_effect, rotate_accumulator_right_through_carry_effect, rotate_left_through_carry_effect, rotate_register_left_carry_set_effect, rotate_register_right_carry_set_effect, rotate_right_through_carry_effect, rrca_effect, rst_jump_effect, set_bit_in_register_effect, set_carry_flag_effect, shift_left_load_carry_effect, shift_right_load_carry_effect, shift_right_register_logical_effect, stop_effect, subtract_8_bit_effect, subtract_8_bit_from_accumulator_with_carry_effect, subtract_hl_location_and_carry_from_accumulator_effect, subtract_register_and_carry_from_accumulator_effect, subtraction_n_from_accumulator_effect, swap_nibbles_effect, xor_8_bit_register_effect, xor_accumulator_with_n_effect, xor_hl_location_effect};
use crate::system::{Registers, SystemData, combine_bytes};

verus! {

/// What a CB-prefixed instruction does: the second opcode byte selects the
/// operation, and the cycle count becomes that of the CB table.
pub open spec fn cb_execute(r: Registers, m: Seq<u8>) -> (Registers, Seq<u8>, u8) {
    let op = imm(r, m, 1);
    let c = cb_opcode_cycles(op);
    if op < 0x08 {
        rotate_register_left_carry_set_effect(r, m, c, op)
    } else if op < 0x10 {
        rotate_register_right_carry_set_effect(r, m, c, op)
    } else if op < 0x18 {
        rotate_left_through_carry_effect(r, m, c, op)
    } else if op < 0x20 {
        rotate_right_through_carry_effect(r, m, c, op)
    } else if op < 0x28 {
        shift_left_load_carry_effect(r, m, c, op)
    } else if op < 0x30 {
        shift_right_load_carry_effect(r, m, c, op)
    } else if op < 0x38 {
        swap_nibbles_effect(r, m, c, op)
    } else if op < 0x40 {
        shift_right_register_logical_effect(r, m, c, op)
    } else if op < 0x80 {
        bit_check_register_effect(r, m, c, op, bit_code(op))
    } else if op < 0xC0 {
        reset_bit_in_register_effect(r, m, c, op)
    } else {
        set_bit_in_register_effect(r, m, c, op)
    }
}

/// What the instruction with opcode `op` does when the cycle count has been
/// set to `c`. Unused opcodes change nothing.
pub open spec fn execute(op: u8, r: Registers, m: Seq<u8>, c: u8) -> (Registers, Seq<u8>, u8) {
    match op {
        0x00 => no_operation_effect(r, m, c),
        0x01 | 0x11 | 0x21 | 0x31 => load_nn_to_16bit_register_effect(r, m, c, op),
        0x02 => load_accumulator_to_address_at_bc_effect(r, m, c),
        0x03 | 0x13 | 0x23 | 0x33 => increment_16_bit_register_effect(r, m, c, op),
        0x04 | 0x0C | 0x14 | 0x1C | 0x24 | 0x2C | 0x3C => increment_8_bit_register_effect(r, m, c, op),
        0x05 | 0x0D | 0x15 | 0x1D | 0x25 | 0x2D | 0x3D => decrement_8_bit_register_effect(r, m, c, op),
        0x06 | 0x0E | 0x16 | 0x1E | 0x26 | 0x2E | 0x3E => load_n_to_8bit_register_effect(r, m, c, op),
        0x07 => rlca_effect(r, m, c),
        0x08 => load_stack_pointer_to_nn_address_effect(r, m, c),
        0x09 | 0x19 | 0x29 | 0x39 => add_16_bit_register_to_hl_effect(r, m, c, op),
        0x0A => load_accumulator_with_bc_address_effect(r, m, c),
        0x0B | 0x1B | 0x2B | 0x3B => decrement_16_bit_register_effect(r, m, c, op),
        0x0F => rrca_effect(r, m, c),
        0x10 => stop_effect(r, m, c),
        0x12 => load_de_location_with_accumulator_effect(r, m, c),
        0x17 => rotate_accumulator_left_through_carry_effect(r, m, c),
        0x18 => jump_displacement_effect(r, m, c),
        0x1A => load_accumulator_with_de_address_effect(r, m, c),
        0x1F => rotate_accumulator_right_through_carry_effect(r, m, c),
        0x20 | 0x28 | 0x30 | 0x38 => jump_displacement_on_flag_effect(r, m, c, op),
        0x22 => load_increment_hl_register_location_with_accumulator_effect(r, m, c),
        0x27 => bcd_adjust_effect(r, m, c),
        0x2A => load_accumulator_with_hl_then_increment_effect(r, m, c),
        0x2F => ones_complement_effect(r, m, c),
        0x32 => load_decrement_hl_register_location_with_accumulator_effect(r, m, c),
        0x34 => increment_hl_location_effect(r, m, c),
        0x35 => decrement_hl_location_effect(r, m, c),
        0x36 => load_n_to_hl_location_effect(r, m, c),
        0x37 => set_carry_flag_effect(r, m, c),
        0x3A => load_accumulator_with_hl_then_decrement_effect(r, m, c),
        0x3F => flip_carry_flag_effect(r, m, c),
        0x76 => halt_effect(r, m, c),
        0x46 | 0x4E | 0x56 | 0x5E | 0x66 | 0x6E | 0x7E => load_register_with_hl_location_effect(r, m, c, op),
        _ if 0x70 <= op <= 0x77 => load_hl_address_with_register_effect(r, m, c, op),
        _ if 0x40 <= op <= 0x7F => load_8_bit_register_to_register_effect(r, m, c, op),
        _ if 0x80 <= op <= 0x87 => add_8_bit_effect(r, m, c, op),
        _ if 0x88 <= op <= 0x8F => add_registers_to_accumulator_with_carry_effect(r, m, c, op),
        _ if 0x90 <= op <= 0x97 => subtract_8_bit_effect(r, m, c, op),
        0x9E => subtract_hl_location_and_carry_from_accumulator_effect(r, m, c),
        _ if 0x98 <= op <= 0x9F => subtract_register_and_carry_from_accumulator_effect(r, m, c, op),
        _ if 0xA0 <= op <= 0xA7 => and_8_bit_register_effect(r, m, c, op),
        0xAE => xor_hl_location_effect(r, m, c),
        _ if 0xA8 <= op <= 0xAF => xor_8_bit_register_effect(r, m, c, op),
        0xB6 => or_hl_location_effect(r, m, c),
        _ if 0xB0 <= op <= 0xB7 => or_8_bit_register_effect(r, m, c, op),
        0xBE => compare_with_hl_address_effect(r, m, c),
        _ if 0xB8 <= op <= 0xBF => compare_register_to_accumulator_effect(r, m, c, op),
        0xC0 | 0xC8 | 0xD0 | 0xD8 => return_from_call_conditional_effect(r, m, c, op),
        0xC1 | 0xD1 | 0xE1 | 0xF1 => pop_16_bit_register_effect(r, m, c, op),
        0xC2 | 0xCA | 0xD2 | 0xDA => jump_address_with_conditional_effect(r, m, c, op),
        0xC3 => jump_address_effect(r, m, c),
        0xC4 | 0xCC | 0xD4 | 0xDC => call_function_nn_on_conditional_effect(r, m, c, op),
        0xC5 | 0xD5 | 0xE5 | 0xF5 => push_16_bit_register_effect(r, m, c, op),
        0xC6 => add_8_bit_to_accumulator_effect(r, m, c),
        0xC7 | 0xCF | 0xD7 | 0xDF | 0xE7 | 0xEF | 0xF7 | 0xFF => rst_jump_effect(r, m, c, op),
        0xC9 => return_from_call_effect(r, m, c),
        0xCB => cb_execute(r, m),
        0xCD => call_nn_effect(r, m, c),
        0xCE => add_8_bit_to_accumulator_with_carry_effect(r, m, c),
        0xD6 => subtraction_n_from_accumulator_effect(r, m, c),
        0xD9 => return_from_call_ei_effect(r, m, c),
        0xDE => subtract_8_bit_from_accumulator_with_carry_effect(r, m, c),
        0xE0 => load_accumulator_to_io_port_with_n_offset_effect(r, m, c),
        0xE2 => load_accumulator_to_io_port_with_c_offset_effect(r, m, c),
        0xE6 => and_nn_with_accumulator_effect(r, m, c),
        0xE8 => add_signed_8_bit_to_stack_pointer_effect(r, m, c),
        0xE9 => jump_to_hl_effect(r, m, c),
        0xEA => load_nn_with_accumulator_effect(r, m, c),
        0xEE => xor_accumulator_with_n_effect(r, m, c),
        0xF0 => load_accumulator_with_io_port_with_n_offset_effect(r, m, c),
        0xF2 => read_io_port_with_c_offset_to_accumulator_effect(r, m, c),
        0xF3 => disable_interupts_effect(r, m, c),
        0xF6 => or_n_effect(r, m, c),
        0xF8 => load_hl_with_stack_pointer_plus_n_effect(r, m, c),
        0xF9 => load_hl_to_stack_pointer_effect(r, m, c),
        0xFA => load_accumulator_with_nn_address_effect(r, m, c),
        0xFB => enable_interupts_effect(r, m, c),
        0xFE => compare_with_n_effect(r, m, c),
        _ => outcome(r, m, c),
    }
}

/// The instruction with opcode `op` runs without an arithmetic overflow of
/// the program counter, the stack pointer or an address: the conditions under
/// which each instruction handler is defined.
pub open spec fn execute_ok(op: u8, r: Registers, m: Seq<u8>) -> bool {
    let holds = condition_holds(r.flags, condition_code(op));
    match op {
        0x01 | 0x11 | 0x21 | 0x31 => pc_room(r, 3),
        0x06 | 0x0E | 0x16 | 0x1E | 0x26 | 0x2E | 0x3E => pc_room(r, 2),
        0x08 => pc_room(r, 3) && imm16(r, m) < 0xFFFF,
        0x10 => pc_room(r, 2),
        0x18 => pc_room(r, 1) && displaced(r.program_counter, imm(r, m, 1)) + 2 <= 0xFFFF,
        0x20 | 0x28 | 0x30 | 0x38 => (holds ==> pc_room(r, 1) && displaced(r.program_counter, imm(r, m, 1)) + 2
            <= 0xFFFF) && (!holds ==> pc_room(r, 2)),
        0x36 => pc_room(r, 2),
        0x46 | 0x4E | 0x56 | 0x5E | 0x66 | 0x6E | 0x7E => pc_room(r, 1),
        _ if 0x70 <= op <= 0x77 => pc_room(r, 1),
        _ if 0x40 <= op <= 0x7F => pc_room(r, 1),
        0xC0 | 0xC8 | 0xD0 | 0xD8 => (holds ==> r.stack_pointer + 2 <= 0xFFFF) && (!holds ==> pc_room(r, 1)),
        0xC1 | 0xD1 | 0xE1 | 0xF1 => pc_room(r, 1) && r.stack_pointer + 2 <= 0xFFFF,
        0xC2 | 0xCA | 0xD2 | 0xDA => (holds ==> pc_room(r, 2)) && (!holds ==> pc_room(r, 3)),
        0xC3 => pc_room(r, 2),
        0xC4 | 0xCC | 0xD4 | 0xDC => pc_room(r, 3) && (condition_holds(r.flags, bit_code(op)) ==> r.stack_pointer >= 2),
        0xC5 | 0xD5 | 0xE5 | 0xF5 => pc_room(r, 1) && r.stack_pointer >= 2,
        0xC6 | 0xCE | 0xD6 | 0xDE | 0xE0 | 0xE6 | 0xE8 | 0xEE | 0xF0 | 0xF6 | 0xF8 | 0xFE => pc_room(r, 2),
        0xC7 | 0xCF | 0xD7 | 0xDF | 0xE7 | 0xEF | 0xF7 | 0xFF => pc_room(r, 1) && r.stack_pointer >= 2,
        0xC9 | 0xD9 => r.stack_pointer + 2 <= 0xFFFF,
        0xCB => pc_room(r, 2),
        0xCD => pc_room(r, 3) && r.stack_pointer >= 2,
        0xEA | 0xFA => pc_room(r, 3),
        0xE9 | 0xD3 | 0xDB | 0xDD | 0xE3 | 0xE4 | 0xEB | 0xEC | 0xED | 0xF4 | 0xFC | 0xFD => true,
        _ => pc_room(r, 1),
    }
}

/// The interrupt that is served among those both enabled and requested (the
/// lowest bit first): its vector and the mask that clears its request bit.
pub open spec fn interrupt_choice(runnable: u8) -> (u16, u8) {
    if runnable & 0x01 == 0x01 {
        (0x40, 0x1E)
    } else if runnable & 0x02 == 0x02 {
        (0x48, 0x1D)
    } else if runnable & 0x04 == 0x04 {
        (0x50, 0x1B)
    } else if runnable & 0x08 == 0x08 {
        (0x58, 0x17)
    } else {
        (0x60, 0x0F)
    }
}

/// The interrupts that are both enabled (0xFFFF) and requested (0xFF0F).
pub open spec fn runnable_interrupts(m: Seq<u8>) -> u8 {
    m[0xFFFF] & m[0xFF0F]
}

/// Whether an interrupt is served before the next instruction.
pub open spec fn interrupt_taken(r: Registers, m: Seq<u8>) -> bool {
    r.interrupt_master_enable_flag && 0 < runnable_interrupts(m) <= 0x1F
}

/// Serving an interrupt: its request bit is cleared, the program counter is
/// pushed, interrupts are disabled and execution goes to the vector.
pub open spec fn interrupt_entry(r: Registers, m: Seq<u8>) -> (Registers, Seq<u8>) {
    let (vector, mask) = interrupt_choice(runnable_interrupts(m));
    let m1 = m.update(0xFF0F, m[0xFF0F] & mask);
    (
        Registers {
            program_counter: vector,
            stack_pointer: (r.stack_pointer - 2) as u16,
            interrupt_master_enable_flag: false,
            ..r
        },
        push_memory(m1, r.stack_pointer, r.program_counter),
    )
}

/// Whether a halted CPU stays halted: no interrupt is requested.
pub open spec fn stays_halted(r: Registers, m: Seq<u8>) -> bool {
    r.halt_flag && m[0xFF0F] & 0x1F == 0
}

/// The registers and memory just before the instruction's own effect: after
/// leaving halt, serving an interrupt, and applying a pending interrupt enable.
pub open spec fn before_instruction(r: Registers, m: Seq<u8>) -> (Registers, Seq<u8>) {
    let r0 = Registers { halt_flag: false, ..r };
    let (r1, m1) = if interrupt_taken(r0, m) { interrupt_entry(r0, m) } else { (r0, m) };
    let r2 = if r1.interrupt_master_enable_delay_flag {
        Registers { interrupt_master_enable_delay_flag: false, interrupt_master_enable_flag: true, ..r1 }
    } else {
        r1
    };
    (r2, m1)
}

/// Clock cycles added on top of the instruction's own: 4 for leaving halt,
/// 20 for serving an interrupt.
pub open spec fn bonus_cycles(r: Registers, m: Seq<u8>) -> int {
    (if r.halt_flag { 4int } else { 0 }) + (if interrupt_taken(Registers { halt_flag: false, ..r }, m) {
        20int
    } else {
        0
    })
}

/// One step of the CPU. A halted CPU with no interrupt requested only counts
/// 4 clock cycles. Otherwise the CPU leaves halt, serves an interrupt if one
/// is enabled and requested while interrupts are on, applies a pending
/// interrupt enable, and runs the instruction at the program counter; the
/// cycle count is then converted to clock cycles (times 4) plus the bonus.
#[verifier::opaque]
pub open spec fn step(r: Registers, m: Seq<u8>) -> (Registers, Seq<u8>, u8) {
    if stays_halted(r, m) {
        outcome(r, m, 4)
    } else {
        let (r2, m1) = before_instruction(r, m);
        let op = m1[r2.program_counter as int];
        let (r3, m3, c3) = execute(op, r2, m1, opcode_cycles(op));
        outcome(r3, m3, (c3 * 4 + bonus_cycles(r, m)) as u8)
    }
}

/// The step is defined: serving an interrupt needs room for two bytes on the
/// stack, and the instruction must be defined (see `execute_ok`).
#[verifier::opaque]
pub open spec fn step_ok(r: Registers, m: Seq<u8>) -> bool {
    !stays_halted(r, m) ==> {
        &&& interrupt_taken(Registers { halt_flag: false, ..r }, m) ==> r.stack_pointer >= 2
        &&& {
            let (r2, m1) = before_instruction(r, m);
            execute_ok(m1[r2.program_counter as int], r2, m1)
        }
    }
}

/// Whether the instruction `op` is defined for the registers `r` (see
/// `execute_ok`), given the two bytes after it as they are in `m`.
fn instruction_is_defined(op: u8, b1: u8, b2: u8, r: &Registers, Ghost(m): Ghost<Seq<u8>>) -> (ok: bool)
    requires
        m.len() == 0x10000,
        r.program_counter + 1 < 0x10000 ==> m[r.program_counter + 1] == b1,
        r.program_counter + 2 < 0x10000 ==> m[r.program_counter + 2] == b2,
    ensures
        ok == execute_ok(op, *r, m),
{
    let pc = r.program_counter as u32;
    let sp = r.stack_pointer as u32;
    let holds = check_condition(r.flags, condition_code_of(op));
    let room1 = pc + 1 <= 0xFFFF;
    let room2 = pc + 2 <= 0xFFFF;
    let room3 = pc + 3 <= 0xFFFF;
    let jump_ok = room1 && add_displacement(r.program_counter, b1) as u32 + 2 <= 0xFFFF;
    match op {
        0x01 | 0x11 | 0x21 | 0x31 => room3,
        0x06 | 0x0E | 0x16 | 0x1E | 0x26 | 0x2E | 0x3E => room2,
        0x08 => room3 && combine_bytes(b2, b1) < 0xFFFF,
        0x10 => room2,
        0x18 => jump_ok,
        0x20 | 0x28 | 0x30 | 0x38 => if holds {
            jump_ok
        } else {
            room2
        },
        0x36 => room2,
        0xC0 | 0xC8 | 0xD0 | 0xD8 => if holds {
            sp + 2 <= 0xFFFF
        } else {
            room1
        },
        0xC1 | 0xD1 | 0xE1 | 0xF1 => room1 && sp + 2 <= 0xFFFF,
        0xC2 | 0xCA | 0xD2 | 0xDA => if holds {
            room2
        } else {
            room3
        },
        0xC3 => room2,
        0xC4 | 0xCC | 0xD4 | 0xDC => room3 && (!check_condition(r.flags, bit_code_of(op)) || sp >= 2),
        0xC5 | 0xD5 | 0xE5 | 0xF5 => room1 && sp >= 2,
        0xC6 | 0xCE | 0xD6 | 0xDE | 0xE0 | 0xE6 | 0xE8 | 0xEE | 0xF0 | 0xF6 | 0xF8 | 0xFE => room2,
        0xC7 | 0xCF | 0xD7 | 0xDF | 0xE7 | 0xEF | 0xF7 | 0xFF => room1 && sp >= 2,
        0xC9 | 0xD9 => sp + 2 <= 0xFFFF,
        0xCB => room2,
        0xCD => room3 && sp >= 2,
        0xEA | 0xFA => room3,
        0xE9 | 0xD3 | 0xDB | 0xDD | 0xE3 | 0xE4 | 0xEB | 0xEC | 0xED | 0xF4 | 0xFC | 0xFD => true,
        _ => room1,
    }
}

/// The interrupt to serve among the runnable ones (see `interrupt_choice`).
fn interrupt_choice_of(runnable: u8) -> (choice: (u16, u8))
    ensures
        choice == interrupt_choice(runnable),
{
    if runnable & 0x01 == 0x01 {
        (0x40, 0x1E)
    } else if runnable & 0x02 == 0x02 {
        (0x48, 0x1D)
    } else if runnable & 0x04 == 0x04 {
        (0x50, 0x1B)
    } else if runnable & 0x08 == 0x08 {
        (0x58, 0x17)
    } else {
        (0x60, 0x0F)
    }
}

/// The byte at `address` once an interrupt entry, when `taken`, has cleared
/// a request bit with `mask` and pushed the program counter.
fn byte_before_instruction(system_data: &SystemData, registers: &Registers, taken: bool, mask: u8, address: u16) -> (b: u8)
    requires
        system_data.wf(),
        taken ==> registers.stack_pointer >= 2,
    ensures
        b == (if taken {
            push_memory(
                system_data.memory().update(0xFF0F, system_data.memory()[0xFF0F] & mask),
                registers.stack_pointer,
                registers.program_counter,
            )[address as int]
        } else {
            system_data.memory()[address as int]
        }),
{
    if taken && address == registers.stack_pointer - 2 {
        (registers.program_counter % 256) as u8
    } else if taken && address == registers.stack_pointer - 1 {
        (registers.program_counter / 256) as u8
    } else if taken && address == 0xFF0F {
        read_byte(system_data, 0xFF0F) & mask
    } else {
        read_byte(system_data, address)
    }
}

/// Whether the next step of the CPU is defined (see `step_ok`), which is
/// what `cpu_continue` requires.
pub fn step_is_defined(system_data: &SystemData, registers: &Registers) -> (ok: bool)
    requires
        system_data.wf(),
    ensures
        ok == step_ok(*registers, system_data.memory()),
{
    reveal(step_ok);
    let ghost m = system_data.memory();
    let requested = read_byte(system_data, 0xFF0F);
    if registers.halt_flag && requested & 0x1F == 0 {
        return true;
    }
    let runnable = read_byte(system_data, 0xFFFF) & requested;
    let taken = registers.interrupt_master_enable_flag && runnable > 0 && runnable <= 0x1F;
    if taken && registers.stack_pointer < 2 {
        return false;
    }
    let mut next = *registers;
    next.halt_flag = false;
    let mut mask: u8 = 0;
    if taken {
        let (vector, mask_bits) = interrupt_choice_of(runnable);
        mask = mask_bits;
        next.program_counter = vector;
        next.stack_pointer = registers.stack_pointer - 2;
        next.interrupt_master_enable_flag = false;
    }
    if next.interrupt_master_enable_delay_flag {
        next.interrupt_master_enable_delay_flag = false;
        next.interrupt_master_enable_flag = true;
    }
    let ghost m1 = before_instruction(*registers, m).1;
    assert(next == before_instruction(*registers, m).0);
    let pc = next.program_counter;
    let op = byte_before_instruction(system_data, registers, taken, mask, pc);
    let b1 = if pc < 0xFFFF {
        byte_before_instruction(system_data, registers, taken, mask, pc + 1)
    } else {
        0
    };
    let b2 = if pc < 0xFFFE {
        byte_before_instruction(system_data, registers, taken, mask, pc + 2)
    } else {
        0
    };
    instruction_is_defined(op, b1, b2, &next, Ghost(m1))
}

/// Every instruction takes between 1 and 6 machine cycles when it starts
/// from a count in that range.
pub proof fn lemma_execute_cycles_small(op: u8, r: Registers, m: Seq<u8>, c: u8)
    requires
        1 <= c <= 6,
    ensures
        1 <= execute(op, r, m, c).2 <= 6,
{
}

} // verus!
