//! Properties that relate several instructions: what one instruction undoes
//! of another, and what holds of every step of the CPU.

use vstd::prelude::*;
use crate::cpu::cycles::{opcode_cycles};
use crate::cpu::decode::{before_instruction, interrupt_choice, interrupt_entry, lemma_execute_cycles_small, runnable_interrupts, stays_halted, step};
use crate::cpu::model::{advance, carry_flag, carry_value, dst_code, flag_bits, half_carry_flag, imm, operand, pair_code, pc_room, src_code, subtract_flag, wrapping_dec16, wrapping_inc16, zero_flag};
use crate::cpu::semantics::{add_8_bit_to_accumulator_effect, add_result, bcd_adjust_effect, call_nn_effect, compare_with_n_effect, decrement_16_bit_register_effect, increment_16_bit_register_effect, load_hl_address_with_register_effect, load_register_with_hl_location_effect, ones_complement_effect, pop_16_bit_register_effect, push_16_bit_register_effect, push_code, push_memory, return_from_call_effect, return_from_call_ei_effect, rlca_effect, rotate_left_through, rotate_left_through_carry_effect, rotate_register_left_carry_set_effect, rotate_register_right_carry_set_effect, rotate_right_through_carry_effect, rrca_effect, rst_jump_effect, stack_top, sub_result, subtraction_n_from_accumulator_effect, swap_nibbles_effect, swapped, xor_8_bit_register_effect};
use crate::system::{Registers, high_byte, hl, low_byte, pair, reg16, reg8, with_reg16, with_reg8};

verus! {

/// The four flag bits read arithmetically.
proof fn lemma_flag_bits_arith(f: u8)
    ensures
        (f & 0x80 == 0x80) == (f >= 128),
        (f & 0x40 == 0x40) == ((f / 64) % 2 == 1),
        (f & 0x20 == 0x20) == ((f / 32) % 2 == 1),
        (f & 0x10 == 0x10) == ((f / 16) % 2 == 1),
        (f | 0x60) | 0x60 == f | 0x60,
{
    assert((f & 0x80 == 0x80) == (f >= 128)) by (bit_vector);
    assert((f & 0x40 == 0x40) == ((f / 64) % 2 == 1)) by (bit_vector);
    assert((f & 0x20 == 0x20) == ((f / 32) % 2 == 1)) by (bit_vector);
    assert((f & 0x10 == 0x10) == ((f / 16) % 2 == 1)) by (bit_vector);
    assert((f | 0x60) | 0x60 == f | 0x60) by (bit_vector);
}

/// The carry flag of a flags byte built from four flags is the one given.
proof fn lemma_carry_of_flag_bits(z: bool, n: bool, h: bool, c: bool)
    ensures
        carry_flag(flag_bits(z, n, h, c)) == c,
        carry_value(flag_bits(z, n, h, c)) == (if c { 1u8 } else { 0u8 }),
{
    lemma_flag_bits_arith(flag_bits(z, n, h, c));
}

/// Writing back the value a register pair already holds changes nothing.
proof fn lemma_pair_write_back(r: Registers, code: u8)
    requires
        code < 5,
    ensures
        with_reg16(r, code, reg16(r, code)) == r,
{
}

/// Splitting a 16-bit value into its bytes and joining them gives it back.
proof fn lemma_pair_of_bytes(value: u16)
    ensures
        pair(high_byte(value), low_byte(value)) == value,
{
}

/// The value pushed is the value on top of the stack afterwards, and the
/// memory keeps its size.
proof fn lemma_stack_top_of_push(m: Seq<u8>, sp: u16, value: u16)
    requires
        m.len() == 0x10000,
        sp >= 2,
    ensures
        stack_top(push_memory(m, sp, value), (sp - 2) as u16) == value,
        push_memory(m, sp, value).len() == 0x10000,
{
    lemma_pair_of_bytes(value);
}

/// PUSH rr followed by POP rr gives the pair back (for AF, with the low
/// nibble of the flags cleared); the stack pointer returns to where it was,
/// the program counter moves past both instructions and the memory is the
/// one the push left.
pub proof fn law_push_then_pop_restores_pair(r: Registers, m: Seq<u8>, c1: u8, c2: u8, push_op: u8)
    requires
        push_op == 0xC5 || push_op == 0xD5 || push_op == 0xE5 || push_op == 0xF5,
        m.len() == 0x10000,
        r.stack_pointer >= 2,
        pc_room(r, 2),
    ensures
        ({
            let (r1, m1, _) = push_16_bit_register_effect(r, m, c1, push_op);
            let (r2, m2, _) = pop_16_bit_register_effect(r1, m1, c2, (push_op - 4) as u8);
            &&& r2 == advance(
                if push_op == 0xF5 { Registers { flags: r.flags & 0xF0, ..r } } else { r },
                2,
            )
            &&& m2 == m1
        }),
{
    let code = push_code(push_op);
    lemma_stack_top_of_push(m, r.stack_pointer, reg16(r, code));
    lemma_pair_write_back(advance(r, 2), code);
    let v = reg16(r, code);
    if push_op == 0xF5 {
        assert(low_byte(v) == r.flags);
        assert(high_byte(v) == r.accumulator);
    }
}

/// CALL nn followed by RET resumes right after the call: the program counter
/// is three bytes on, the stack pointer is back, the other registers are
/// unchanged and the memory is the one the call left.
pub proof fn law_call_then_return_resumes_after_call(r: Registers, m: Seq<u8>, c1: u8, c2: u8)
    requires
        m.len() == 0x10000,
        r.stack_pointer >= 2,
        pc_room(r, 3),
    ensures
        ({
            let (r1, m1, _) = call_nn_effect(r, m, c1);
            let (r2, m2, _) = return_from_call_effect(r1, m1, c2);
            &&& r2 == advance(r, 3)
            &&& m2 == m1
        }),
{
    lemma_stack_top_of_push(m, r.stack_pointer, (r.program_counter + 3) as u16);
}

/// RST t followed by RET resumes at the next instruction.
pub proof fn law_restart_then_return_resumes(r: Registers, m: Seq<u8>, c1: u8, c2: u8, op: u8)
    requires
        m.len() == 0x10000,
        r.stack_pointer >= 2,
        pc_room(r, 1),
    ensures
        ({
            let (r1, m1, _) = rst_jump_effect(r, m, c1, op);
            let (r2, m2, _) = return_from_call_effect(r1, m1, c2);
            &&& r2 == advance(r, 1)
            &&& m2 == m1
        }),
{
    lemma_stack_top_of_push(m, r.stack_pointer, (r.program_counter + 1) as u16);
}

/// Serving an interrupt and then returning with RETI resumes the interrupted
/// program: the program counter and the stack pointer are back, and
/// interrupts, turned off on entry, are turned on again after the next
/// instruction.
pub proof fn law_interrupt_then_return_resumes(r: Registers, m: Seq<u8>, c: u8)
    requires
        m.len() == 0x10000,
        r.stack_pointer >= 2,
    ensures
        ({
            let (r1, m1) = interrupt_entry(r, m);
            let (r2, m2, _) = return_from_call_ei_effect(r1, m1, c);
            &&& r2 == Registers {
                interrupt_master_enable_flag: false,
                interrupt_master_enable_delay_flag: true,
                ..r
            }
            &&& m2 == m1
        }),
{
    let (vector, mask) = interrupt_choice(runnable_interrupts(m));
    lemma_stack_top_of_push(m.update(0xFF0F, m[0xFF0F] & mask), r.stack_pointer, r.program_counter);
}

/// INC rr followed by DEC rr on the same pair leaves every register as it
/// was but the program counter, which moves past both instructions.
pub proof fn law_increment_then_decrement_pair(r: Registers, m: Seq<u8>, c1: u8, c2: u8, op: u8)
    requires
        op == 0x03 || op == 0x13 || op == 0x23 || op == 0x33,
        pc_room(r, 2),
    ensures
        ({
            let (r1, m1, _) = increment_16_bit_register_effect(r, m, c1, op);
            let (r2, m2, _) = decrement_16_bit_register_effect(r1, m1, c2, (op + 8) as u8);
            &&& r2 == advance(r, 2)
            &&& m2 == m
        }),
{
    let code = pair_code(op);
    assert(pair_code((op + 8) as u8) == code);
    let x = reg16(r, code);
    let r1 = with_reg16(advance(r, 1), code, wrapping_inc16(x));
    assert(reg16(r1, code) == wrapping_inc16(x));
    assert(wrapping_dec16(wrapping_inc16(x)) == x);
    assert(with_reg16(advance(r1, 1), code, x) == with_reg16(advance(r, 2), code, x));
    lemma_pair_write_back(advance(r, 2), code);
}

/// RLCA followed by RRCA gives the accumulator back.
pub proof fn law_rlca_then_rrca_restores_accumulator(r: Registers, m: Seq<u8>, c1: u8, c2: u8)
    requires
        pc_room(r, 2),
    ensures
        ({
            let (r1, m1, _) = rlca_effect(r, m, c1);
            let (r2, m2, _) = rrca_effect(r1, m1, c2);
            &&& r2.accumulator == r.accumulator
            &&& carry_flag(r2.flags) == (r.accumulator >= 128)
            &&& r2 == Registers { flags: r2.flags, ..advance(r, 2) }
            &&& m2 == m
        }),
{
    let a = r.accumulator;
    let w = rotate_left_through(a, a / 128);
    assert(w % 2 == a / 128 && w / 2 == a % 128);
    lemma_carry_of_flag_bits(false, false, false, w % 2 == 1);
}

/// RL r followed by RR r on the same operand (a register, or the byte at HL)
/// gives the operand and the carry flag back; Z tells whether the operand is
/// zero, N and H are clear, and the program counter moves past both
/// two-byte instructions.
pub proof fn law_rotate_through_carry_left_then_right(r: Registers, m: Seq<u8>, c1: u8, c2: u8, op: u8)
    requires
        0x10 <= op <= 0x17,
        m.len() == 0x10000,
        pc_room(r, 4),
    ensures
        ({
            let (r1, m1, _) = rotate_left_through_carry_effect(r, m, c1, op);
            let (r2, m2, _) = rotate_right_through_carry_effect(r1, m1, c2, (op + 8) as u8);
            &&& r2 == Registers {
                flags: flag_bits(operand(r, m, src_code(op)) == 0, false, false, carry_flag(r.flags)),
                ..advance(r, 4)
            }
            &&& m2 == m
        }),
{
    let code = src_code(op);
    assert(src_code((op + 8) as u8) == code);
    let v = operand(r, m, code);
    lemma_carry_of_flag_bits(rotate_left_through(v, carry_value(r.flags)) == 0, false, false, v >= 128);
    let (r1, m1, _) = rotate_left_through_carry_effect(r, m, c1, op);
    assert(operand(r1, m1, code) == rotate_left_through(v, carry_value(r.flags)));
    if code == 7 {
        assert(m1.update(hl(r) as int, v) =~= m);
    }
}

/// RLC r followed by RRC r on the same operand gives the operand back; the
/// carry flag then holds its bit 7.
pub proof fn law_rotate_left_then_right(r: Registers, m: Seq<u8>, c1: u8, c2: u8, op: u8)
    requires
        op <= 0x07,
        m.len() == 0x10000,
        pc_room(r, 4),
    ensures
        ({
            let v = operand(r, m, src_code(op));
            let (r1, m1, _) = rotate_register_left_carry_set_effect(r, m, c1, op);
            let (r2, m2, _) = rotate_register_right_carry_set_effect(r1, m1, c2, (op + 8) as u8);
            &&& r2 == Registers { flags: flag_bits(v == 0, false, false, v >= 128), ..advance(r, 4) }
            &&& m2 == m
        }),
{
    let code = src_code(op);
    assert(src_code((op + 8) as u8) == code);
    let v = operand(r, m, code);
    let (r1, m1, _) = rotate_register_left_carry_set_effect(r, m, c1, op);
    let w = rotate_left_through(v, v / 128);
    assert(operand(r1, m1, code) == w);
    assert(w % 2 == v / 128 && w / 2 == v % 128);
    if code == 7 {
        assert(m1.update(hl(r) as int, v) =~= m);
    }
}

/// SWAP r twice gives the operand back; only Z, which tells whether the
/// operand is zero, remains among the flags.
pub proof fn law_swap_twice_restores(r: Registers, m: Seq<u8>, c1: u8, c2: u8, op: u8)
    requires
        0x30 <= op <= 0x37,
        m.len() == 0x10000,
        pc_room(r, 4),
    ensures
        ({
            let v = operand(r, m, src_code(op));
            let (r1, m1, _) = swap_nibbles_effect(r, m, c1, op);
            let (r2, m2, _) = swap_nibbles_effect(r1, m1, c2, op);
            &&& r2 == Registers { flags: flag_bits(v == 0, false, false, false), ..advance(r, 4) }
            &&& m2 == m
        }),
{
    let code = src_code(op);
    let v = operand(r, m, code);
    let (r1, m1, _) = swap_nibbles_effect(r, m, c1, op);
    assert(operand(r1, m1, code) == swapped(v));
    assert(swapped(swapped(v)) == v);
    if code == 7 {
        assert(m1.update(hl(r) as int, v) =~= m);
    }
}

/// CPL twice gives the accumulator back; N and H stay set.
pub proof fn law_complement_twice_restores_accumulator(r: Registers, m: Seq<u8>, c1: u8, c2: u8)
    requires
        pc_room(r, 2),
    ensures
        ({
            let (r1, m1, _) = ones_complement_effect(r, m, c1);
            let (r2, m2, _) = ones_complement_effect(r1, m1, c2);
            &&& r2 == Registers { flags: r.flags | 0x60, ..advance(r, 2) }
            &&& m2 == m
        }),
{
    lemma_flag_bits_arith(r.flags);
}

/// The four flags of a flags byte built from four flags are the ones given.
proof fn lemma_flags_of_flag_bits(z: bool, n: bool, h: bool, c: bool)
    ensures
        zero_flag(flag_bits(z, n, h, c)) == z,
        subtract_flag(flag_bits(z, n, h, c)) == n,
        half_carry_flag(flag_bits(z, n, h, c)) == h,
        carry_flag(flag_bits(z, n, h, c)) == c,
{
    lemma_flag_bits_arith(flag_bits(z, n, h, c));
}

/// A byte holding two binary-coded decimal digits.
pub open spec fn is_bcd(x: u8) -> bool {
    x % 16 <= 9 && x / 16 <= 9
}

/// The number that two binary-coded decimal digits stand for.
pub open spec fn bcd_value(x: u8) -> int {
    (x / 16) * 10 + x % 16
}

/// ADD A, n followed by DAA adds two binary-coded decimal numbers: the
/// accumulator holds the last two decimal digits of the sum, and the carry
/// flag tells whether the sum reached 100.
pub proof fn law_add_then_bcd_adjust_adds_decimals(r: Registers, m: Seq<u8>, c1: u8, c2: u8)
    requires
        is_bcd(r.accumulator),
        is_bcd(imm(r, m, 1)),
    ensures
        ({
            let sum = bcd_value(r.accumulator) + bcd_value(imm(r, m, 1));
            let (r1, m1, _) = add_8_bit_to_accumulator_effect(r, m, c1);
            let (r2, _, _) = bcd_adjust_effect(r1, m1, c2);
            &&& is_bcd(r2.accumulator)
            &&& bcd_value(r2.accumulator) == sum % 100
            &&& carry_flag(r2.flags) == (sum >= 100)
        }),
{
    let a = r.accumulator;
    let b = imm(r, m, 1);
    let total = a + b;
    let s = (total % 256) as u8;
    let h = a % 16 + b % 16 >= 16;
    let cy = total >= 256;
    lemma_flags_of_flag_bits(s == 0, false, h, cy);
    let adjust = (if cy || s > 0x99 { 0x60int } else { 0 }) + (if h || s % 16 > 9 { 0x06int } else { 0 });
    let result = ((s + adjust) % 256) as u8;
    lemma_flags_of_flag_bits(result == 0, false, false, cy || s > 0x99);
    assert(is_bcd(result) && bcd_value(result) == (bcd_value(a) + bcd_value(b)) % 100 && ((cy || s > 0x99) == (
    bcd_value(a) + bcd_value(b) >= 100))) by (nonlinear_arith)
        requires
            a % 16 <= 9,
            a / 16 <= 9,
            b % 16 <= 9,
            b / 16 <= 9,
            total == a + b,
            s == total % 256,
            h == (a % 16 + b % 16 >= 16),
            cy == (total >= 256),
            adjust == (if cy || s > 0x99 { 0x60int } else { 0 }) + (if h || s % 16 > 9 { 0x06int } else { 0 }),
            result == (s + adjust) % 256,
    ;
}

/// SUB n followed by DAA subtracts two binary-coded decimal numbers: the
/// accumulator holds the difference modulo 100 in decimal digits, and the
/// carry flag tells whether a borrow was needed.
pub proof fn law_subtract_then_bcd_adjust_subtracts_decimals(r: Registers, m: Seq<u8>, c1: u8, c2: u8)
    requires
        is_bcd(r.accumulator),
        is_bcd(imm(r, m, 1)),
    ensures
        ({
            let difference = bcd_value(r.accumulator) - bcd_value(imm(r, m, 1));
            let (r1, m1, _) = subtraction_n_from_accumulator_effect(r, m, c1);
            let (r2, _, _) = bcd_adjust_effect(r1, m1, c2);
            &&& is_bcd(r2.accumulator)
            &&& bcd_value(r2.accumulator) == (difference + 100) % 100
            &&& carry_flag(r2.flags) == (difference < 0)
        }),
{
    let a = r.accumulator;
    let b = imm(r, m, 1);
    let s = ((a - b + 256) % 256) as u8;
    let h = b % 16 > a % 16;
    let cy = b > a;
    lemma_flags_of_flag_bits(s == 0, true, h, cy);
    let adjust = if cy && h {
        0x9Aint
    } else if cy {
        0xA0int
    } else if h {
        0xFAint
    } else {
        0int
    };
    let result = ((s + adjust) % 256) as u8;
    lemma_flags_of_flag_bits(result == 0, true, false, cy);
    assert(is_bcd(result) && bcd_value(result) == (bcd_value(a) - bcd_value(b) + 100) % 100 && (cy == (
    bcd_value(a) < bcd_value(b)))) by (nonlinear_arith)
        requires
            a % 16 <= 9,
            a / 16 <= 9,
            b % 16 <= 9,
            b / 16 <= 9,
            s == (a - b + 256) % 256,
            h == (b % 16 > a % 16),
            cy == (b > a),
            adjust == (if cy && h {
                0x9Aint
            } else if cy {
                0xA0int
            } else if h {
                0xFAint
            } else {
                0int
            }),
            result == (s + adjust) % 256,
    ;
}

/// LD (HL), r followed by LD r', (HL) copies register r to register r'
/// through memory: the byte at HL and r' then hold the value of r.
pub proof fn law_store_then_load_through_hl(r: Registers, m: Seq<u8>, c1: u8, c2: u8, store_op: u8, load_op: u8)
    requires
        0x70 <= store_op <= 0x77,
        store_op != 0x76,
        0x46 <= load_op <= 0x7E,
        load_op % 8 == 6,
        load_op != 0x76,
        m.len() == 0x10000,
        pc_room(r, 2),
    ensures
        ({
            let value = reg8(r, src_code(store_op));
            let (r1, m1, _) = load_hl_address_with_register_effect(r, m, c1, store_op);
            let (r2, m2, _) = load_register_with_hl_location_effect(r1, m1, c2, load_op);
            &&& m2 == m.update(hl(r) as int, value)
            &&& reg8(r2, dst_code(load_op)) == value
            &&& r2 == advance(with_reg8(r, dst_code(load_op), value), 2)
        }),
{
}

/// Subtracting a byte undoes adding it.
pub proof fn law_subtract_undoes_add(a: u8, v: u8)
    ensures
        sub_result(add_result(a, v, 0).0, v, 0).0 == a,
        add_result(sub_result(a, v, 0).0, v, 0).0 == a,
{
    if a + v >= 256 {
        assert(add_result(a, v, 0).0 == a + v - 256);
    } else {
        assert(add_result(a, v, 0).0 == a + v);
    }
    if a >= v {
        assert(sub_result(a, v, 0).0 == a - v);
    } else {
        assert(sub_result(a, v, 0).0 == a - v + 256);
    }
}

/// CP n sets the flags that SUB n sets, and leaves the accumulator alone.
pub proof fn law_compare_is_subtract_without_result(r: Registers, m: Seq<u8>, c: u8)
    ensures
        compare_with_n_effect(r, m, c) == ({
            let (r1, m1, c1) = subtraction_n_from_accumulator_effect(r, m, c);
            (Registers { accumulator: r.accumulator, ..r1 }, m1, c1)
        }),
{
}

/// XOR A with itself clears the accumulator and sets only the zero flag.
pub proof fn law_xor_with_itself_clears(r: Registers, m: Seq<u8>, c: u8)
    ensures
        xor_8_bit_register_effect(r, m, c, 0xAF).0 == (Registers { accumulator: 0, flags: 0x80, ..advance(r, 1) }),
{
    assert(r.accumulator ^ r.accumulator == 0) by (bit_vector);
}

/// Every step of the CPU takes between 4 and 48 clock cycles.
pub proof fn law_step_takes_4_to_48_cycles(r: Registers, m: Seq<u8>)
    ensures
        4 <= step(r, m).2 <= 48,
{
    reveal(step);
    if !stays_halted(r, m) {
        let (r2, m1) = before_instruction(r, m);
        let op = m1[r2.program_counter as int];
        lemma_execute_cycles_small(op, r2, m1, opcode_cycles(op));
    }
}

/// The carry flag (bit 4) as a number, 0 or 1.
pub open spec fn carry_bit(f: u8) -> int {
    if f & 0x10 == 0x10 {
        1
    } else {
        0
    }
}

/// The CB operand slot named by the low three bits of `b` (B, C, D, E, H, L,
/// (HL), A) as an index of `operand`.
pub open spec fn cb_slot(b: u8) -> u8 {
    ((b % 8 + 1) % 8) as u8
}

/// A CB instruction whose second byte is 0x10-0x17 (RL) rotates its operand
/// left through the carry: the operand becomes twice its value modulo 256
/// plus the old carry, and the carry takes its bit 7. With 0x18-0x1F (RR) it
/// rotates right through the carry: the operand becomes half its value plus
/// 128 times the old carry, and the carry takes its bit 0. Either way the
/// step moves past both bytes and takes 8 clock cycles, 16 on (HL).
pub proof fn law_step_rotates_through_carry(r: Registers, m: Seq<u8>)
    requires
        m.len() == 0x10000,
        !r.halt_flag,
        !r.interrupt_master_enable_flag,
        !r.interrupt_master_enable_delay_flag,
        pc_room(r, 2),
        m[r.program_counter as int] == 0xCB,
        0x10 <= m[r.program_counter + 1] <= 0x1F,
    ensures
        ({
            let b = m[r.program_counter + 1];
            let code = cb_slot(b);
            let v = operand(r, m, code);
            let (r2, m2, c2) = step(r, m);
            &&& b < 0x18 ==> operand(r2, m2, code) == (v * 2) % 256 + carry_bit(r.flags)
            &&& b < 0x18 ==> (r2.flags & 0x10 == 0x10) == (v >= 128)
            &&& b >= 0x18 ==> operand(r2, m2, code) == v / 2 + 128 * carry_bit(r.flags)
            &&& b >= 0x18 ==> (r2.flags & 0x10 == 0x10) == (v % 2 == 1)
            &&& r2.program_counter == r.program_counter + 2
            &&& c2 == (if code == 7 { 16int } else { 8 })
        }),
{
    reveal(step);
    let b = m[r.program_counter + 1];
    let code = cb_slot(b);
    let v = operand(r, m, code);
    assert(before_instruction(r, m) == (r, m));
    assert(src_code(b) == code);
    if b < 0x18 {
        let res = rotate_left_through(v, carry_value(r.flags));
        lemma_carry_of_flag_bits(res == 0, false, false, v >= 128);
    } else {
        let res = (v / 2 + carry_value(r.flags) * 128) as u8;
        lemma_carry_of_flag_bits(res == 0, false, false, v % 2 == 1);
    }
}

/// The interrupt vectors and request masks by priority: with `k` the lowest
/// bit set in `runnable`, the tests of `interrupt_choice` find bit `k`, and
/// the mask keeps the requests 0-4 but bit `k`.
proof fn lemma_lowest_request(runnable: u8, k: u8)
    by (bit_vector)
    requires
        k < 5,
        (runnable >> k) & 1 == 1,
        runnable & (((1u8 << k) - 1) as u8) == 0,
    ensures
        k == 0 ==> runnable & 0x01 == 0x01,
        k == 1 ==> runnable & 0x01 != 0x01 && runnable & 0x02 == 0x02,
        k == 2 ==> runnable & 0x01 != 0x01 && runnable & 0x02 != 0x02 && runnable & 0x04 == 0x04,
        k == 3 ==> runnable & 0x01 != 0x01 && runnable & 0x02 != 0x02 && runnable & 0x04 != 0x04
            && runnable & 0x08 == 0x08,
        k == 4 ==> runnable & 0x01 != 0x01 && runnable & 0x02 != 0x02 && runnable & 0x04 != 0x04
            && runnable & 0x08 != 0x08,
        k == 0 ==> 0x1Fu8 ^ (1u8 << k) == 0x1E,
        k == 1 ==> 0x1Fu8 ^ (1u8 << k) == 0x1D,
        k == 2 ==> 0x1Fu8 ^ (1u8 << k) == 0x1B,
        k == 3 ==> 0x1Fu8 ^ (1u8 << k) == 0x17,
        k == 4 ==> 0x1Fu8 ^ (1u8 << k) == 0x0F,
{
}

/// Serving an interrupt goes to vector 0x40 + 8k, where k is the lowest bit
/// set in both the enable register (0xFFFF) and the request register
/// (0xFF0F): VBlank 0x40, LCD status 0x48, timer 0x50, serial 0x58, joypad
/// 0x60. The request register keeps its bits 0-4 but bit k, the program
/// counter is pushed (upper byte at SP - 1, lower at SP - 2) and interrupts
/// are turned off. Stated where the pushed bytes do not land on 0xFF0F.
pub proof fn law_interrupt_served_by_priority(r: Registers, m: Seq<u8>, k: u8)
    requires
        m.len() == 0x10000,
        r.stack_pointer >= 2,
        r.stack_pointer != 0xFF10,
        r.stack_pointer != 0xFF11,
        k < 5,
        ((m[0xFFFF] & m[0xFF0F]) >> k) & 1 == 1,
        (m[0xFFFF] & m[0xFF0F]) & (((1u8 << k) - 1) as u8) == 0,
    ensures
        ({
            let (r1, m1) = interrupt_entry(r, m);
            &&& r1.program_counter == 0x40 + 8 * k
            &&& m1[0xFF0F] == m[0xFF0F] & (0x1Fu8 ^ (1u8 << k))
            &&& m1[r.stack_pointer - 1] == r.program_counter / 256
            &&& m1[r.stack_pointer - 2] == r.program_counter % 256
            &&& r1.stack_pointer == r.stack_pointer - 2
            &&& !r1.interrupt_master_enable_flag
        }),
{
    lemma_lowest_request(m[0xFFFF] & m[0xFF0F], k);
}

} // verus!
