use vstd::prelude::*;
use crate::cpu::model::{advance, bit_code, carry_flag, carry_value, condition_code, condition_holds, displaced, dst_code, flag_bits, half_carry_flag, imm, imm16, operand, outcome, pair_code, src_code, store_operand, subtract_flag, wrapping_dec16, wrapping_dec8, wrapping_inc16, wrapping_inc8, zero_flag};
use crate::system::{Registers, high_byte, hl, low_byte, pair, reg16, reg8, with_reg16, with_reg8};

verus! {

// Each function below states what one instruction does to the registers
// `r`, the memory `m` and the cycle count `c`: the result is the new
// registers, memory and cycle count.

// ---------------------------------------------------------------------------
// Control
// ---------------------------------------------------------------------------

/// NOP: only the program counter moves.
pub open spec fn no_operation_effect(r: Registers, m: Seq<u8>, c: u8) -> (Registers, Seq<u8>, u8) {
    outcome(advance(r, 1), m, c)
}

/// DI: interrupts are disabled at once.
pub open spec fn disable_interupts_effect(r: Registers, m: Seq<u8>, c: u8) -> (Registers, Seq<u8>, u8) {
    outcome(Registers { interrupt_master_enable_flag: false, ..advance(r, 1) }, m, c)
}

/// EI: interrupts are enabled after the next instruction.
pub open spec fn enable_interupts_effect(r: Registers, m: Seq<u8>, c: u8) -> (Registers, Seq<u8>, u8) {
    outcome(Registers { interrupt_master_enable_delay_flag: true, ..advance(r, 1) }, m, c)
}

/// STOP: skips its two bytes.
pub open spec fn stop_effect(r: Registers, m: Seq<u8>, c: u8) -> (Registers, Seq<u8>, u8) {
    outcome(advance(r, 2), m, c)
}

/// HALT: the CPU halts until an interrupt is requested.
pub open spec fn halt_effect(r: Registers, m: Seq<u8>, c: u8) -> (Registers, Seq<u8>, u8) {
    outcome(Registers { halt_flag: true, ..advance(r, 1) }, m, c)
}

// ---------------------------------------------------------------------------
// Increment and decrement
// ---------------------------------------------------------------------------

/// INC r: the register named by bits 3-5 goes up by one, wrapping; Z if the
/// result is 0, H if its low nibble is 0, N cleared, C kept.
pub open spec fn increment_8_bit_register_effect(r: Registers, m: Seq<u8>, c: u8, op: u8) -> (Registers, Seq<u8>, u8) {
    let code = dst_code(op);
    let v = wrapping_inc8(reg8(r, code));
    let r1 = with_reg8(r, code, v);
    outcome(
        Registers {
            flags: flag_bits(v == 0, false, v % 16 == 0, carry_flag(r.flags)),
            ..advance(r1, 1)
        },
        m,
        c,
    )
}

/// INC (HL): the byte at HL goes up by one, wrapping; flags as for INC r.
pub open spec fn increment_hl_location_effect(r: Registers, m: Seq<u8>, c: u8) -> (Registers, Seq<u8>, u8) {
    let v = wrapping_inc8(m[hl(r) as int]);
    outcome(
        Registers { flags: flag_bits(v == 0, false, v % 16 == 0, carry_flag(r.flags)), ..advance(r, 1) },
        m.update(hl(r) as int, v),
        c,
    )
}

/// INC rr: the pair named by bits 4-5 (BC, DE, HL, SP) goes up by one,
/// wrapping; flags unchanged.
pub open spec fn increment_16_bit_register_effect(r: Registers, m: Seq<u8>, c: u8, op: u8) -> (Registers, Seq<u8>, u8) {
    let code = pair_code(op);
    outcome(with_reg16(advance(r, 1), code, wrapping_inc16(reg16(r, code))), m, c)
}

/// DEC rr: the pair named by bits 4-5 goes down by one, wrapping; flags unchanged.
pub open spec fn decrement_16_bit_register_effect(r: Registers, m: Seq<u8>, c: u8, op: u8) -> (Registers, Seq<u8>, u8) {
    let code = pair_code(op);
    outcome(with_reg16(advance(r, 1), code, wrapping_dec16(reg16(r, code))), m, c)
}

/// DEC r: the register named by bits 3-5 goes down by one, wrapping; Z if the
/// result is 0, H if its low nibble is 0xF, N set, C kept. For the (HL)
/// slot of the table no register changes, only N is set and Z, H cleared.
pub open spec fn decrement_8_bit_register_effect(r: Registers, m: Seq<u8>, c: u8, op: u8) -> (Registers, Seq<u8>, u8) {
    let code = dst_code(op);
    if code == 7 {
        outcome(Registers { flags: flag_bits(false, true, false, carry_flag(r.flags)), ..advance(r, 1) }, m, c)
    } else {
        let v = wrapping_dec8(reg8(r, code));
        let r1 = with_reg8(r, code, v);
        outcome(
            Registers { flags: flag_bits(v == 0, true, v % 16 == 15, carry_flag(r.flags)), ..advance(r1, 1) },
            m,
            c,
        )
    }
}

/// DEC (HL): the byte at HL goes down by one, wrapping; flags as for DEC r.
pub open spec fn decrement_hl_location_effect(r: Registers, m: Seq<u8>, c: u8) -> (Registers, Seq<u8>, u8) {
    let v = wrapping_dec8(m[hl(r) as int]);
    outcome(
        Registers { flags: flag_bits(v == 0, true, v % 16 == 15, carry_flag(r.flags)), ..advance(r, 1) },
        m.update(hl(r) as int, v),
        c,
    )
}

// ---------------------------------------------------------------------------
// 8-bit arithmetic
// ---------------------------------------------------------------------------

/// The accumulator and flags after adding `v` and `carry_in` (0 or 1).
pub open spec fn add_result(a: u8, v: u8, carry_in: u8) -> (u8, u8) {
    let sum = a + v + carry_in;
    let result = (sum % 256) as u8;
    (result, flag_bits(result == 0, false, a % 16 + v % 16 + carry_in >= 16, sum >= 256))
}

/// The accumulator and flags after subtracting `v` and `borrow_in` (0 or 1).
pub open spec fn sub_result(a: u8, v: u8, borrow_in: u8) -> (u8, u8) {
    let difference = a - v - borrow_in;
    let result = ((difference + 256) % 256) as u8;
    (result, flag_bits(result == 0, true, v % 16 + borrow_in > a % 16, v + borrow_in > a))
}

/// The flags after comparing the accumulator with `v` (a subtraction whose
/// result is dropped).
pub open spec fn compare_flags(a: u8, v: u8) -> u8 {
    flag_bits(a == v, true, v % 16 > a % 16, v > a)
}

/// ADD A, r / ADD A, (HL): adds the operand named by bits 0-2 to A.
pub open spec fn add_8_bit_effect(r: Registers, m: Seq<u8>, c: u8, op: u8) -> (Registers, Seq<u8>, u8) {
    let (a, f) = add_result(r.accumulator, operand(r, m, src_code(op)), 0);
    outcome(Registers { accumulator: a, flags: f, ..advance(r, 1) }, m, c)
}

/// ADD A, n: adds the immediate byte to A.
pub open spec fn add_8_bit_to_accumulator_effect(r: Registers, m: Seq<u8>, c: u8) -> (Registers, Seq<u8>, u8) {
    let (a, f) = add_result(r.accumulator, imm(r, m, 1), 0);
    outcome(Registers { accumulator: a, flags: f, ..advance(r, 2) }, m, c)
}

/// ADC A, n: adds the immediate byte and the carry flag to A.
pub open spec fn add_8_bit_to_accumulator_with_carry_effect(r: Registers, m: Seq<u8>, c: u8) -> (Registers, Seq<u8>, u8) {
    let (a, f) = add_result(r.accumulator, imm(r, m, 1), carry_value(r.flags));
    outcome(Registers { accumulator: a, flags: f, ..advance(r, 2) }, m, c)
}

/// The operand slot of an ADC r opcode (0x88-0x8F), 8 for any other opcode.
pub open spec fn adc_code(op: u8) -> u8 {
    if 0x88 <= op <= 0x8F {
        src_code(op)
    } else {
        8
    }
}

/// ADC A, r / ADC A, (HL): adds the operand and the carry flag to A; the
/// cycle count becomes 1 for a register and 2 for (HL). Any opcode outside
/// 0x88-0x8F changes nothing.
pub open spec fn add_registers_to_accumulator_with_carry_effect(r: Registers, m: Seq<u8>, c: u8, op: u8) -> (Registers, Seq<u8>, u8) {
    let code = adc_code(op);
    if code == 8 {
        outcome(r, m, c)
    } else {
        let (a, f) = add_result(r.accumulator, operand(r, m, code), carry_value(r.flags));
        outcome(Registers { accumulator: a, flags: f, ..advance(r, 1) }, m, if code == 7 { 2 } else { 1 })
    }
}

/// SUB r / SUB (HL): subtracts the operand named by bits 0-2 from A.
pub open spec fn subtract_8_bit_effect(r: Registers, m: Seq<u8>, c: u8, op: u8) -> (Registers, Seq<u8>, u8) {
    let (a, f) = sub_result(r.accumulator, operand(r, m, src_code(op)), 0);
    outcome(Registers { accumulator: a, flags: f, ..advance(r, 1) }, m, c)
}

/// SUB n: subtracts the immediate byte from A.
pub open spec fn subtraction_n_from_accumulator_effect(r: Registers, m: Seq<u8>, c: u8) -> (Registers, Seq<u8>, u8) {
    let (a, f) = sub_result(r.accumulator, imm(r, m, 1), 0);
    outcome(Registers { accumulator: a, flags: f, ..advance(r, 2) }, m, c)
}

/// SBC A, r: subtracts the register named by bits 0-2 and the carry flag
/// from A; the (HL) slot changes nothing.
pub open spec fn subtract_register_and_carry_from_accumulator_effect(r: Registers, m: Seq<u8>, c: u8, op: u8) -> (Registers, Seq<u8>, u8) {
    let code = src_code(op);
    if code == 7 {
        outcome(r, m, c)
    } else {
        let (a, f) = sub_result(r.accumulator, reg8(r, code), carry_value(r.flags));
        outcome(Registers { accumulator: a, flags: f, ..advance(r, 1) }, m, c)
    }
}

/// SBC A, (HL): subtracts the byte at HL and the carry flag from A.
pub open spec fn subtract_hl_location_and_carry_from_accumulator_effect(r: Registers, m: Seq<u8>, c: u8) -> (Registers, Seq<u8>, u8) {
    let (a, f) = sub_result(r.accumulator, m[hl(r) as int], carry_value(r.flags));
    outcome(Registers { accumulator: a, flags: f, ..advance(r, 1) }, m, c)
}

/// SBC A, n: subtracts the immediate byte and the carry flag from A.
pub open spec fn subtract_8_bit_from_accumulator_with_carry_effect(r: Registers, m: Seq<u8>, c: u8) -> (Registers, Seq<u8>, u8) {
    let (a, f) = sub_result(r.accumulator, imm(r, m, 1), carry_value(r.flags));
    outcome(Registers { accumulator: a, flags: f, ..advance(r, 2) }, m, c)
}

/// The register slot of a CP r opcode (0xB8-0xBD, 0xBF), 8 for any other opcode.
pub open spec fn compare_code(op: u8) -> u8 {
    if 0xB8 <= op <= 0xBF && op != 0xBE {
        src_code(op)
    } else {
        8
    }
}

/// CP r: compares the register with A; A is unchanged. For any other opcode
/// only the flags change, to N alone.
pub open spec fn compare_register_to_accumulator_effect(r: Registers, m: Seq<u8>, c: u8, op: u8) -> (Registers, Seq<u8>, u8) {
    let code = compare_code(op);
    if code == 8 {
        outcome(Registers { flags: 0x40, ..r }, m, c)
    } else {
        outcome(Registers { flags: compare_flags(r.accumulator, reg8(r, code)), ..advance(r, 1) }, m, c)
    }
}

/// CP n: compares the immediate byte with A; A is unchanged.
pub open spec fn compare_with_n_effect(r: Registers, m: Seq<u8>, c: u8) -> (Registers, Seq<u8>, u8) {
    outcome(Registers { flags: compare_flags(r.accumulator, imm(r, m, 1)), ..advance(r, 2) }, m, c)
}

/// CP (HL): compares the byte at HL with A; A is unchanged.
pub open spec fn compare_with_hl_address_effect(r: Registers, m: Seq<u8>, c: u8) -> (Registers, Seq<u8>, u8) {
    outcome(Registers { flags: compare_flags(r.accumulator, m[hl(r) as int]), ..advance(r, 1) }, m, c)
}

// ---------------------------------------------------------------------------
// 8-bit logic
// ---------------------------------------------------------------------------

/// The flags after a logical operation: Z from the result, H as given.
pub open spec fn logic_flags(result: u8, h: bool) -> u8 {
    flag_bits(result == 0, false, h, false)
}

/// XOR r: A becomes A xor the register named by bits 0-2; the (HL) slot
/// changes nothing.
pub open spec fn xor_8_bit_register_effect(r: Registers, m: Seq<u8>, c: u8, op: u8) -> (Registers, Seq<u8>, u8) {
    let code = src_code(op);
    if code == 7 {
        outcome(r, m, c)
    } else {
        let a = r.accumulator ^ reg8(r, code);
        outcome(Registers { accumulator: a, flags: logic_flags(a, false), ..advance(r, 1) }, m, c)
    }
}

/// OR r: A becomes A or the register named by bits 0-2; the (HL) slot
/// changes nothing.
pub open spec fn or_8_bit_register_effect(r: Registers, m: Seq<u8>, c: u8, op: u8) -> (Registers, Seq<u8>, u8) {
    let code = src_code(op);
    if code == 7 {
        outcome(r, m, c)
    } else {
        let a = r.accumulator | reg8(r, code);
        outcome(Registers { accumulator: a, flags: logic_flags(a, false), ..advance(r, 1) }, m, c)
    }
}

/// AND r / AND (HL): A becomes A and the operand named by bits 0-2; H set.
pub open spec fn and_8_bit_register_effect(r: Registers, m: Seq<u8>, c: u8, op: u8) -> (Registers, Seq<u8>, u8) {
    let a = r.accumulator & operand(r, m, src_code(op));
    outcome(Registers { accumulator: a, flags: logic_flags(a, true), ..advance(r, 1) }, m, c)
}

/// AND n.
pub open spec fn and_nn_with_accumulator_effect(r: Registers, m: Seq<u8>, c: u8) -> (Registers, Seq<u8>, u8) {
    let a = r.accumulator & imm(r, m, 1);
    outcome(Registers { accumulator: a, flags: logic_flags(a, true), ..advance(r, 2) }, m, c)
}

/// OR n.
pub open spec fn or_n_effect(r: Registers, m: Seq<u8>, c: u8) -> (Registers, Seq<u8>, u8) {
    let a = r.accumulator | imm(r, m, 1);
    outcome(Registers { accumulator: a, flags: logic_flags(a, false), ..advance(r, 2) }, m, c)
}

/// XOR n.
pub open spec fn xor_accumulator_with_n_effect(r: Registers, m: Seq<u8>, c: u8) -> (Registers, Seq<u8>, u8) {
    let a = r.accumulator ^ imm(r, m, 1);
    outcome(Registers { accumulator: a, flags: logic_flags(a, false), ..advance(r, 2) }, m, c)
}

/// XOR (HL).
pub open spec fn xor_hl_location_effect(r: Registers, m: Seq<u8>, c: u8) -> (Registers, Seq<u8>, u8) {
    let a = r.accumulator ^ m[hl(r) as int];
    outcome(Registers { accumulator: a, flags: logic_flags(a, false), ..advance(r, 1) }, m, c)
}

/// OR (HL).
pub open spec fn or_hl_location_effect(r: Registers, m: Seq<u8>, c: u8) -> (Registers, Seq<u8>, u8) {
    let a = r.accumulator | m[hl(r) as int];
    outcome(Registers { accumulator: a, flags: logic_flags(a, false), ..advance(r, 1) }, m, c)
}

/// CPL: A becomes its complement; N and H are set, the other flags kept.
pub open spec fn ones_complement_effect(r: Registers, m: Seq<u8>, c: u8) -> (Registers, Seq<u8>, u8) {
    outcome(Registers { accumulator: (255 - r.accumulator) as u8, flags: r.flags | 0x60, ..advance(r, 1) }, m, c)
}

/// DAA: adjusts A to binary-coded decimal after an addition (N clear) or a
/// subtraction (N set). Z from the result, N kept, H cleared, C set when
/// the adjustment carries.
pub open spec fn bcd_adjust_effect(r: Registers, m: Seq<u8>, c: u8) -> (Registers, Seq<u8>, u8) {
    let a = r.accumulator;
    let n = subtract_flag(r.flags);
    let h = half_carry_flag(r.flags);
    let cy = carry_flag(r.flags);
    let (adjust, carry_out) = if !n {
        (
            (if cy || a > 0x99 { 0x60int } else { 0 }) + (if h || a % 16 > 9 { 0x06int } else { 0 }),
            cy || a > 0x99,
        )
    } else if cy && h {
        (0x9Aint, true)
    } else if cy {
        (0xA0int, true)
    } else if h {
        (0xFAint, false)
    } else {
        (0int, false)
    };
    let result = ((a + adjust) % 256) as u8;
    outcome(Registers { accumulator: result, flags: flag_bits(result == 0, n, false, carry_out), ..advance(r, 1) }, m, c)
}

/// SCF: sets the carry flag; Z kept, N and H cleared.
pub open spec fn set_carry_flag_effect(r: Registers, m: Seq<u8>, c: u8) -> (Registers, Seq<u8>, u8) {
    outcome(Registers { flags: flag_bits(zero_flag(r.flags), false, false, true), ..advance(r, 1) }, m, c)
}

/// CCF: flips the carry flag; Z kept, N and H cleared.
pub open spec fn flip_carry_flag_effect(r: Registers, m: Seq<u8>, c: u8) -> (Registers, Seq<u8>, u8) {
    outcome(
        Registers { flags: flag_bits(zero_flag(r.flags), false, false, !carry_flag(r.flags)), ..advance(r, 1) },
        m,
        c,
    )
}

// ---------------------------------------------------------------------------
// Rotations of the accumulator
// ---------------------------------------------------------------------------

/// A rotated left through the carry flag.
pub open spec fn rotate_left_through(v: u8, carry_in: u8) -> u8 {
    ((v * 2) % 256 + carry_in) as u8
}

/// A rotated right through the carry flag.
pub open spec fn rotate_right_through(v: u8, carry_in: u8) -> u8 {
    (v / 2 + carry_in * 128) as u8
}

/// RLA: A rotates left through the carry flag; only C can be set.
pub open spec fn rotate_accumulator_left_through_carry_effect(r: Registers, m: Seq<u8>, c: u8) -> (Registers, Seq<u8>, u8) {
    let a = r.accumulator;
    outcome(
        Registers {
            accumulator: rotate_left_through(a, carry_value(r.flags)),
            flags: flag_bits(false, false, false, a >= 128),
            ..advance(r, 1)
        },
        m,
        c,
    )
}

/// RRA: A rotates right through the carry flag; only C can be set.
pub open spec fn rotate_accumulator_right_through_carry_effect(r: Registers, m: Seq<u8>, c: u8) -> (Registers, Seq<u8>, u8) {
    let a = r.accumulator;
    outcome(
        Registers {
            accumulator: rotate_right_through(a, carry_value(r.flags)),
            flags: flag_bits(false, false, false, a % 2 == 1),
            ..advance(r, 1)
        },
        m,
        c,
    )
}

/// RLCA: A rotates left, bit 7 going to bit 0 and to C.
pub open spec fn rlca_effect(r: Registers, m: Seq<u8>, c: u8) -> (Registers, Seq<u8>, u8) {
    let a = r.accumulator;
    outcome(
        Registers {
            accumulator: rotate_left_through(a, a / 128),
            flags: flag_bits(false, false, false, a >= 128),
            ..advance(r, 1)
        },
        m,
        c,
    )
}

/// RRCA: A rotates right, bit 0 going to bit 7 and to C.
pub open spec fn rrca_effect(r: Registers, m: Seq<u8>, c: u8) -> (Registers, Seq<u8>, u8) {
    let a = r.accumulator;
    outcome(
        Registers {
            accumulator: rotate_right_through(a, a % 2),
            flags: flag_bits(false, false, false, a % 2 == 1),
            ..advance(r, 1)
        },
        m,
        c,
    )
}

// ---------------------------------------------------------------------------
// 8-bit loads
// ---------------------------------------------------------------------------

/// LD r, n: the register named by bits 3-5 gets the immediate byte; the (HL)
/// slot loads nothing. The program counter skips both bytes either way.
pub open spec fn load_n_to_8bit_register_effect(r: Registers, m: Seq<u8>, c: u8, op: u8) -> (Registers, Seq<u8>, u8) {
    let code = dst_code(op);
    let r1 = if code == 7 { r } else { with_reg8(r, code, imm(r, m, 1)) };
    outcome(advance(r1, 2), m, c)
}

/// LD (HL), n.
pub open spec fn load_n_to_hl_location_effect(r: Registers, m: Seq<u8>, c: u8) -> (Registers, Seq<u8>, u8) {
    outcome(advance(r, 2), m.update(hl(r) as int, imm(r, m, 1)), c)
}

/// LD r, r': the register named by bits 3-5 gets the one named by bits 0-2;
/// an opcode that names (HL) on either side changes nothing.
pub open spec fn load_8_bit_register_to_register_effect(r: Registers, m: Seq<u8>, c: u8, op: u8) -> (Registers, Seq<u8>, u8) {
    let set = dst_code(op);
    let get = src_code(op);
    if set == 7 || get == 7 {
        outcome(r, m, c)
    } else {
        outcome(advance(with_reg8(r, set, reg8(r, get)), 1), m, c)
    }
}

/// LD r, (HL): the register named by bits 3-5 gets the byte at HL; the (HL)
/// slot changes nothing.
pub open spec fn load_register_with_hl_location_effect(r: Registers, m: Seq<u8>, c: u8, op: u8) -> (Registers, Seq<u8>, u8) {
    let code = dst_code(op);
    if code == 7 {
        outcome(r, m, c)
    } else {
        outcome(advance(with_reg8(r, code, m[hl(r) as int]), 1), m, c)
    }
}

/// LD (HL), r: the byte at HL gets the register named by bits 0-2; the (HL)
/// slot stores nothing. The program counter moves either way.
pub open spec fn load_hl_address_with_register_effect(r: Registers, m: Seq<u8>, c: u8, op: u8) -> (Registers, Seq<u8>, u8) {
    let code = src_code(op);
    outcome(advance(r, 1), if code == 7 { m } else { m.update(hl(r) as int, reg8(r, code)) }, c)
}

/// LD (0xFF00 + C), A.
pub open spec fn load_accumulator_to_io_port_with_c_offset_effect(r: Registers, m: Seq<u8>, c: u8) -> (Registers, Seq<u8>, u8) {
    outcome(advance(r, 1), m.update(0xFF00 + r.c_register, r.accumulator), c)
}

/// LD A, (0xFF00 + C).
pub open spec fn read_io_port_with_c_offset_to_accumulator_effect(r: Registers, m: Seq<u8>, c: u8) -> (Registers, Seq<u8>, u8) {
    outcome(Registers { accumulator: m[0xFF00 + r.c_register], ..advance(r, 1) }, m, c)
}

/// LDH (n), A: stores A at 0xFF00 plus the immediate byte.
pub open spec fn load_accumulator_to_io_port_with_n_offset_effect(r: Registers, m: Seq<u8>, c: u8) -> (Registers, Seq<u8>, u8) {
    outcome(advance(r, 2), m.update(0xFF00 + imm(r, m, 1), r.accumulator), c)
}

/// LDH A, (n): loads A from 0xFF00 plus the immediate byte.
pub open spec fn load_accumulator_with_io_port_with_n_offset_effect(r: Registers, m: Seq<u8>, c: u8) -> (Registers, Seq<u8>, u8) {
    outcome(Registers { accumulator: m[0xFF00 + imm(r, m, 1)], ..advance(r, 2) }, m, c)
}

/// LD (HL-), A: stores A at HL, then HL goes down by one, wrapping.
pub open spec fn load_decrement_hl_register_location_with_accumulator_effect(r: Registers, m: Seq<u8>, c: u8) -> (Registers, Seq<u8>, u8) {
    outcome(with_reg16(advance(r, 1), 3, wrapping_dec16(hl(r))), m.update(hl(r) as int, r.accumulator), c)
}

/// LD (HL+), A: stores A at HL, then HL goes up by one, wrapping.
pub open spec fn load_increment_hl_register_location_with_accumulator_effect(r: Registers, m: Seq<u8>, c: u8) -> (Registers, Seq<u8>, u8) {
    outcome(with_reg16(advance(r, 1), 3, wrapping_inc16(hl(r))), m.update(hl(r) as int, r.accumulator), c)
}

/// LD A, (HL+): loads A from HL, then HL goes up by one, wrapping.
pub open spec fn load_accumulator_with_hl_then_increment_effect(r: Registers, m: Seq<u8>, c: u8) -> (Registers, Seq<u8>, u8) {
    outcome(
        with_reg16(Registers { accumulator: m[hl(r) as int], ..advance(r, 1) }, 3, wrapping_inc16(hl(r))),
        m,
        c,
    )
}

/// LD A, (HL-): loads A from HL, then HL goes down by one, wrapping.
pub open spec fn load_accumulator_with_hl_then_decrement_effect(r: Registers, m: Seq<u8>, c: u8) -> (Registers, Seq<u8>, u8) {
    outcome(
        with_reg16(Registers { accumulator: m[hl(r) as int], ..advance(r, 1) }, 3, wrapping_dec16(hl(r))),
        m,
        c,
    )
}

/// LD A, (DE).
pub open spec fn load_accumulator_with_de_address_effect(r: Registers, m: Seq<u8>, c: u8) -> (Registers, Seq<u8>, u8) {
    outcome(Registers { accumulator: m[reg16(r, 2) as int], ..advance(r, 1) }, m, c)
}

/// LD A, (BC).
pub open spec fn load_accumulator_with_bc_address_effect(r: Registers, m: Seq<u8>, c: u8) -> (Registers, Seq<u8>, u8) {
    outcome(Registers { accumulator: m[reg16(r, 1) as int], ..advance(r, 1) }, m, c)
}

/// LD (DE), A.
pub open spec fn load_de_location_with_accumulator_effect(r: Registers, m: Seq<u8>, c: u8) -> (Registers, Seq<u8>, u8) {
    outcome(advance(r, 1), m.update(reg16(r, 2) as int, r.accumulator), c)
}

/// LD (BC), A.
pub open spec fn load_accumulator_to_address_at_bc_effect(r: Registers, m: Seq<u8>, c: u8) -> (Registers, Seq<u8>, u8) {
    outcome(advance(r, 1), m.update(reg16(r, 1) as int, r.accumulator), c)
}

/// LD (nn), A.
pub open spec fn load_nn_with_accumulator_effect(r: Registers, m: Seq<u8>, c: u8) -> (Registers, Seq<u8>, u8) {
    outcome(advance(r, 3), m.update(imm16(r, m) as int, r.accumulator), c)
}

/// LD A, (nn).
pub open spec fn load_accumulator_with_nn_address_effect(r: Registers, m: Seq<u8>, c: u8) -> (Registers, Seq<u8>, u8) {
    outcome(Registers { accumulator: m[imm16(r, m) as int], ..advance(r, 3) }, m, c)
}

// ---------------------------------------------------------------------------
// 16-bit loads and arithmetic
// ---------------------------------------------------------------------------

/// Whether `op` is one of the LD rr, nn opcodes (0x01, 0x11, 0x21, 0x31).
pub open spec fn is_load_nn_opcode(op: u8) -> bool {
    op == 0x01 || op == 0x11 || op == 0x21 || op == 0x31
}

/// LD rr, nn: the pair named by bits 4-5 gets the immediate 16-bit value;
/// any other opcode changes nothing.
pub open spec fn load_nn_to_16bit_register_effect(r: Registers, m: Seq<u8>, c: u8, op: u8) -> (Registers, Seq<u8>, u8) {
    if is_load_nn_opcode(op) {
        outcome(advance(with_reg16(r, pair_code(op), imm16(r, m)), 3), m, c)
    } else {
        outcome(r, m, c)
    }
}

/// LD (nn), SP: stores SP at nn, lower byte first.
pub open spec fn load_stack_pointer_to_nn_address_effect(r: Registers, m: Seq<u8>, c: u8) -> (Registers, Seq<u8>, u8) {
    let address = imm16(r, m) as int;
    outcome(
        advance(r, 3),
        m.update(address, low_byte(r.stack_pointer)).update(address + 1, high_byte(r.stack_pointer)),
        c,
    )
}

/// LD SP, HL.
pub open spec fn load_hl_to_stack_pointer_effect(r: Registers, m: Seq<u8>, c: u8) -> (Registers, Seq<u8>, u8) {
    outcome(Registers { stack_pointer: hl(r), ..advance(r, 1) }, m, c)
}

/// SP plus a signed byte, and the flags of that addition: H and C from the
/// unsigned addition of the byte to the low nibble and the low byte of SP.
pub open spec fn stack_offset(sp: u16, n: u8) -> (u16, u8) {
    (displaced(sp, n), flag_bits(false, false, n % 16 + sp % 16 >= 16, n + sp % 256 >= 256))
}

/// LD HL, SP + n.
pub open spec fn load_hl_with_stack_pointer_plus_n_effect(r: Registers, m: Seq<u8>, c: u8) -> (Registers, Seq<u8>, u8) {
    let (value, flags) = stack_offset(r.stack_pointer, imm(r, m, 1));
    outcome(with_reg16(Registers { flags: flags, ..advance(r, 2) }, 3, value), m, c)
}

/// ADD SP, n.
pub open spec fn add_signed_8_bit_to_stack_pointer_effect(r: Registers, m: Seq<u8>, c: u8) -> (Registers, Seq<u8>, u8) {
    let (value, flags) = stack_offset(r.stack_pointer, imm(r, m, 1));
    outcome(Registers { stack_pointer: value, flags: flags, ..advance(r, 2) }, m, c)
}

/// ADD HL, rr: adds the pair named by bits 4-5 to HL, wrapping. Z and the low
/// nibble of the flags are kept, N cleared, H from bit 11, C from bit 15.
pub open spec fn add_16_bit_register_to_hl_effect(r: Registers, m: Seq<u8>, c: u8, op: u8) -> (Registers, Seq<u8>, u8) {
    let x = reg16(r, pair_code(op));
    let h = hl(r);
    let flags = ((r.flags & 0x8F) + (if x % 4096 + h % 4096 >= 4096 { 0x20int } else { 0 }) + (if x + h >= 0x10000 {
        0x10int
    } else {
        0
    })) as u8;
    outcome(with_reg16(Registers { flags: flags, ..advance(r, 1) }, 3, ((x + h) % 0x10000) as u16), m, c)
}

// ---------------------------------------------------------------------------
// Jumps, calls and the stack
// ---------------------------------------------------------------------------

/// JP (HL).
pub open spec fn jump_to_hl_effect(r: Registers, m: Seq<u8>, c: u8) -> (Registers, Seq<u8>, u8) {
    outcome(Registers { program_counter: hl(r), ..r }, m, c)
}

/// JR d: the program counter moves by the signed immediate byte, counted from
/// the next instruction.
pub open spec fn jump_displacement_effect(r: Registers, m: Seq<u8>, c: u8) -> (Registers, Seq<u8>, u8) {
    outcome(
        Registers { program_counter: (displaced(r.program_counter, imm(r, m, 1)) + 2) as u16, ..r },
        m,
        c,
    )
}

/// JR cc, d: as JR d when the condition in bits 3-4 holds (the cycle count
/// becomes 3), otherwise the two bytes are skipped.
pub open spec fn jump_displacement_on_flag_effect(r: Registers, m: Seq<u8>, c: u8, op: u8) -> (Registers, Seq<u8>, u8) {
    if condition_holds(r.flags, condition_code(op)) {
        outcome(Registers { program_counter: (displaced(r.program_counter, imm(r, m, 1)) + 2) as u16, ..r }, m, 3)
    } else {
        outcome(advance(r, 2), m, c)
    }
}

/// JP nn: the cycle count becomes 4.
pub open spec fn jump_address_effect(r: Registers, m: Seq<u8>, c: u8) -> (Registers, Seq<u8>, u8) {
    outcome(Registers { program_counter: imm16(r, m), ..r }, m, 4)
}

/// JP cc, nn: as JP nn when the condition in bits 3-4 holds, otherwise the
/// three bytes are skipped.
pub open spec fn jump_address_with_conditional_effect(r: Registers, m: Seq<u8>, c: u8, op: u8) -> (Registers, Seq<u8>, u8) {
    if condition_holds(r.flags, condition_code(op)) {
        outcome(Registers { program_counter: imm16(r, m), ..r }, m, 4)
    } else {
        outcome(advance(r, 3), m, c)
    }
}

/// Memory after pushing `value`: the upper byte at SP - 1, the lower at SP - 2.
pub open spec fn push_memory(m: Seq<u8>, sp: u16, value: u16) -> Seq<u8> {
    m.update(sp - 1, high_byte(value)).update(sp - 2, low_byte(value))
}

/// The 16-bit value on top of the stack.
pub open spec fn stack_top(m: Seq<u8>, sp: u16) -> u16 {
    pair(m[sp + 1], m[sp as int])
}

/// CALL nn: pushes the address of the next instruction and jumps to nn (the
/// target is read after the push).
pub open spec fn call_nn_effect(r: Registers, m: Seq<u8>, c: u8) -> (Registers, Seq<u8>, u8) {
    let m1 = push_memory(m, r.stack_pointer, (r.program_counter + 3) as u16);
    outcome(
        Registers { program_counter: imm16(r, m1), stack_pointer: (r.stack_pointer - 2) as u16, ..r },
        m1,
        c,
    )
}

/// CALL cc, nn (condition in bits 3-5, 0-3): when it holds, pushes the
/// address of the next instruction and jumps to nn (read before the push),
/// with 6 cycles; otherwise skips the three bytes. Conditions 4-7 change nothing.
pub open spec fn call_function_nn_on_conditional_effect(r: Registers, m: Seq<u8>, c: u8, op: u8) -> (Registers, Seq<u8>, u8) {
    let condition = bit_code(op);
    if condition > 3 {
        outcome(r, m, c)
    } else if condition_holds(r.flags, condition) {
        outcome(
            Registers { program_counter: imm16(r, m), stack_pointer: (r.stack_pointer - 2) as u16, ..r },
            push_memory(m, r.stack_pointer, (r.program_counter + 3) as u16),
            6,
        )
    } else {
        outcome(advance(r, 3), m, c)
    }
}

/// RET: pops the program counter.
pub open spec fn return_from_call_effect(r: Registers, m: Seq<u8>, c: u8) -> (Registers, Seq<u8>, u8) {
    outcome(
        Registers {
            program_counter: stack_top(m, r.stack_pointer),
            stack_pointer: (r.stack_pointer + 2) as u16,
            ..r
        },
        m,
        c,
    )
}

/// RETI: pops the program counter; interrupts are enabled after the next instruction.
pub open spec fn return_from_call_ei_effect(r: Registers, m: Seq<u8>, c: u8) -> (Registers, Seq<u8>, u8) {
    outcome(
        Registers {
            program_counter: stack_top(m, r.stack_pointer),
            stack_pointer: (r.stack_pointer + 2) as u16,
            interrupt_master_enable_delay_flag: true,
            ..r
        },
        m,
        c,
    )
}

/// RET cc: pops the program counter when the condition in bits 3-4 holds
/// (5 cycles), otherwise moves on by one byte.
pub open spec fn return_from_call_conditional_effect(r: Registers, m: Seq<u8>, c: u8, op: u8) -> (Registers, Seq<u8>, u8) {
    if condition_holds(r.flags, condition_code(op)) {
        outcome(
            Registers {
                program_counter: stack_top(m, r.stack_pointer),
                stack_pointer: (r.stack_pointer + 2) as u16,
                ..r
            },
            m,
            5,
        )
    } else {
        outcome(advance(r, 1), m, c)
    }
}

/// The register pair a PUSH opcode names in bits 4-5 (BC, DE, HL, AF).
pub open spec fn push_code(op: u8) -> u8 {
    (((op / 16) % 4 + 1) % 4) as u8
}

/// PUSH rr.
pub open spec fn push_16_bit_register_effect(r: Registers, m: Seq<u8>, c: u8, op: u8) -> (Registers, Seq<u8>, u8) {
    outcome(
        Registers { stack_pointer: (r.stack_pointer - 2) as u16, ..advance(r, 1) },
        push_memory(m, r.stack_pointer, reg16(r, push_code(op))),
        c,
    )
}

/// The register pair a POP opcode names: 0xC1 BC, 0xD1 DE, 0xE1 HL, and AF
/// for 0xF1 and any other opcode.
pub open spec fn pop_code(op: u8) -> u8 {
    if op == 0xC1 {
        1
    } else if op == 0xD1 {
        2
    } else if op == 0xE1 {
        3
    } else {
        0
    }
}

/// POP rr: the pair gets the value on top of the stack; for AF the low nibble
/// of the flags is cleared.
pub open spec fn pop_16_bit_register_effect(r: Registers, m: Seq<u8>, c: u8, op: u8) -> (Registers, Seq<u8>, u8) {
    let code = pop_code(op);
    let sp = r.stack_pointer;
    let low = if code == 0 { m[sp as int] & 0xF0 } else { m[sp as int] };
    outcome(
        with_reg16(Registers { stack_pointer: (sp + 2) as u16, ..advance(r, 1) }, code, pair(m[sp + 1], low)),
        m,
        c,
    )
}

/// RST t: pushes the address of the next instruction and jumps to
/// 8 times the number in bits 3-5.
pub open spec fn rst_jump_effect(r: Registers, m: Seq<u8>, c: u8, op: u8) -> (Registers, Seq<u8>, u8) {
    outcome(
        Registers {
            program_counter: (bit_code(op) * 8) as u16,
            stack_pointer: (r.stack_pointer - 2) as u16,
            ..r
        },
        push_memory(m, r.stack_pointer, (r.program_counter + 1) as u16),
        c,
    )
}

// ---------------------------------------------------------------------------
// CB-prefixed instructions (two bytes long)
// ---------------------------------------------------------------------------

/// The instruction result after storing `value` to the operand named by
/// `code`, with new flags, moving past the two opcode bytes.
pub open spec fn cb_result(r: Registers, m: Seq<u8>, c: u8, code: u8, value: u8, flags: u8) -> (Registers, Seq<u8>, u8) {
    let (r1, m1) = store_operand(r, m, code, value);
    outcome(Registers { flags: flags, ..advance(r1, 2) }, m1, c)
}

/// BIT b, r: Z is set when bit `test_bit` of the operand named by bits 0-2
/// is clear; N cleared, H set, C kept.
pub open spec fn bit_check_register_effect(r: Registers, m: Seq<u8>, c: u8, op: u8, test_bit: u8) -> (Registers, Seq<u8>, u8) {
    let v = operand(r, m, src_code(op));
    outcome(
        Registers {
            flags: flag_bits((v >> test_bit) & 1 == 0, false, true, carry_flag(r.flags)),
            ..advance(r, 2)
        },
        m,
        c,
    )
}

/// RL r: the operand rotates left through the carry flag.
pub open spec fn rotate_left_through_carry_effect(r: Registers, m: Seq<u8>, c: u8, op: u8) -> (Registers, Seq<u8>, u8) {
    let code = src_code(op);
    let v = operand(r, m, code);
    let result = rotate_left_through(v, carry_value(r.flags));
    cb_result(r, m, c, code, result, flag_bits(result == 0, false, false, v >= 128))
}

/// RR r: the operand rotates right through the carry flag.
pub open spec fn rotate_right_through_carry_effect(r: Registers, m: Seq<u8>, c: u8, op: u8) -> (Registers, Seq<u8>, u8) {
    let code = src_code(op);
    let v = operand(r, m, code);
    let result = rotate_right_through(v, carry_value(r.flags));
    cb_result(r, m, c, code, result, flag_bits(result == 0, false, false, v % 2 == 1))
}

/// The byte with its two nibbles exchanged.
pub open spec fn swapped(v: u8) -> u8 {
    ((v % 16) * 16 + v / 16) as u8
}

/// SWAP r: exchanges the nibbles of the operand; only Z can be set.
pub open spec fn swap_nibbles_effect(r: Registers, m: Seq<u8>, c: u8, op: u8) -> (Registers, Seq<u8>, u8) {
    let code = src_code(op);
    let result = swapped(operand(r, m, code));
    cb_result(r, m, c, code, result, flag_bits(result == 0, false, false, false))
}

/// SET b, r: sets bit b (bits 3-5) of the operand; flags unchanged.
pub open spec fn set_bit_in_register_effect(r: Registers, m: Seq<u8>, c: u8, op: u8) -> (Registers, Seq<u8>, u8) {
    let code = src_code(op);
    cb_result(r, m, c, code, operand(r, m, code) | (1u8 << bit_code(op)), r.flags)
}

/// The operand a RES opcode names: a register for 0x80-0xBF outside the
/// (HL) column, the byte at HL otherwise.
pub open spec fn reset_code(op: u8) -> u8 {
    if 0x80 <= op <= 0xBF && op % 8 != 6 {
        src_code(op)
    } else {
        7
    }
}

/// RES b, r: clears bit b (bits 3-5) of the operand; flags unchanged.
pub open spec fn reset_bit_in_register_effect(r: Registers, m: Seq<u8>, c: u8, op: u8) -> (Registers, Seq<u8>, u8) {
    let code = reset_code(op);
    cb_result(r, m, c, code, operand(r, m, code) & (0xFF ^ (1u8 << bit_code(op))), r.flags)
}

/// SRL r: shifts the operand right, bit 0 going to C.
pub open spec fn shift_right_register_logical_effect(r: Registers, m: Seq<u8>, c: u8, op: u8) -> (Registers, Seq<u8>, u8) {
    let code = src_code(op);
    let v = operand(r, m, code);
    let result = v / 2;
    cb_result(r, m, c, code, result, flag_bits(result == 0, false, false, v % 2 == 1))
}

/// RLC r (opcodes 0x00-0x07): rotates the operand left, bit 7 going to bit 0
/// and to C. Any other opcode changes nothing.
pub open spec fn rotate_register_left_carry_set_effect(r: Registers, m: Seq<u8>, c: u8, op: u8) -> (Registers, Seq<u8>, u8) {
    if op > 0x07 {
        outcome(r, m, c)
    } else {
        let code = src_code(op);
        let v = operand(r, m, code);
        let result = rotate_left_through(v, v / 128);
        cb_result(r, m, c, code, result, flag_bits(result == 0, false, false, v >= 128))
    }
}

/// RRC r (opcodes 0x08-0x0F): rotates the operand right, bit 0 going to bit 7
/// and to C. Any other opcode changes nothing.
pub open spec fn rotate_register_right_carry_set_effect(r: Registers, m: Seq<u8>, c: u8, op: u8) -> (Registers, Seq<u8>, u8) {
    if op < 0x08 || op > 0x0F {
        outcome(r, m, c)
    } else {
        let code = src_code(op);
        let v = operand(r, m, code);
        let result = rotate_right_through(v, v % 2);
        cb_result(r, m, c, code, result, flag_bits(result == 0, false, false, v % 2 == 1))
    }
}

/// SLA r (opcodes 0x20-0x27): shifts the operand left, bit 7 going to C. Any
/// other opcode changes nothing.
pub open spec fn shift_left_load_carry_effect(r: Registers, m: Seq<u8>, c: u8, op: u8) -> (Registers, Seq<u8>, u8) {
    if op < 0x20 || op > 0x27 {
        outcome(r, m, c)
    } else {
        let code = src_code(op);
        let v = operand(r, m, code);
        let result = ((v * 2) % 256) as u8;
        cb_result(r, m, c, code, result, flag_bits(result == 0, false, false, v >= 128))
    }
}

/// SRA r (opcodes 0x28-0x2F): shifts the operand right keeping bit 7, bit 0
/// going to C. Any other opcode changes nothing.
pub open spec fn shift_right_load_carry_effect(r: Registers, m: Seq<u8>, c: u8, op: u8) -> (Registers, Seq<u8>, u8) {
    if op < 0x28 || op > 0x2F {
        outcome(r, m, c)
    } else {
        let code = src_code(op);
        let v = operand(r, m, code);
        let result = (v / 2 + (if v >= 128 { 128int } else { 0 })) as u8;
        cb_result(r, m, c, code, result, flag_bits(result == 0, false, false, v % 2 == 1))
    }
}

} // verus!
