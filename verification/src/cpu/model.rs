use vstd::prelude::*;
use crate::system::{Registers, SystemData, combine_bytes, hl, pair, reg8, same_but_memory_and_cycles, with_reg8};

verus! {

// ---------------------------------------------------------------------------
// Flags register: Z (0x80), N (0x40), H (0x20), C (0x10).
// ---------------------------------------------------------------------------

/// The flags byte with the zero, subtract, half-carry and carry bits set as
/// given and the low nibble clear.
pub open spec fn flag_bits(z: bool, n: bool, h: bool, c: bool) -> u8 {
    ((if z { 0x80int } else { 0 }) + (if n { 0x40int } else { 0 }) + (if h { 0x20int } else { 0 }) + (
    if c {
        0x10int
    } else {
        0
    })) as u8
}

/// Whether the zero flag (bit 7) is set.
pub open spec fn zero_flag(f: u8) -> bool {
    f & 0x80 == 0x80
}

/// Whether the subtract flag (bit 6) is set.
pub open spec fn subtract_flag(f: u8) -> bool {
    f & 0x40 == 0x40
}

/// Whether the half-carry flag (bit 5) is set.
pub open spec fn half_carry_flag(f: u8) -> bool {
    f & 0x20 == 0x20
}

/// Whether the carry flag (bit 4) is set.
pub open spec fn carry_flag(f: u8) -> bool {
    f & 0x10 == 0x10
}

/// The carry flag as a number, 0 or 1.
pub open spec fn carry_value(f: u8) -> u8 {
    if carry_flag(f) {
        1
    } else {
        0
    }
}

/// Builds a flags byte from the four flags.
pub fn make_flags(z: bool, n: bool, h: bool, c: bool) -> (f: u8)
    ensures
        f == flag_bits(z, n, h, c),
{
    let mut f: u8 = 0;
    if z {
        f = f + 0x80;
    }
    if n {
        f = f + 0x40;
    }
    if h {
        f = f + 0x20;
    }
    if c {
        f = f + 0x10;
    }
    f
}

/// The carry flag of `f` as 0 or 1.
pub fn carry_of(f: u8) -> (c: u8)
    ensures
        c == carry_value(f),
{
    if f & 0x10 == 0x10 {
        1
    } else {
        0
    }
}

/// The branch condition selected by two opcode bits: 0 = zero flag clear,
/// 1 = zero flag set, 2 = carry clear, 3 = carry set.
pub open spec fn condition_holds(f: u8, condition: u8) -> bool {
    if condition == 0 {
        !zero_flag(f)
    } else if condition == 1 {
        zero_flag(f)
    } else if condition == 2 {
        !carry_flag(f)
    } else if condition == 3 {
        carry_flag(f)
    } else {
        false
    }
}

/// Evaluates a branch condition (see `condition_holds`).
pub fn check_condition(f: u8, condition: u8) -> (holds: bool)
    ensures
        holds == condition_holds(f, condition),
{
    if condition == 0 {
        f & 0x80 != 0x80
    } else if condition == 1 {
        f & 0x80 == 0x80
    } else if condition == 2 {
        f & 0x10 != 0x10
    } else if condition == 3 {
        f & 0x10 == 0x10
    } else {
        false
    }
}

// ---------------------------------------------------------------------------
// Operand selection from opcode bits.
// ---------------------------------------------------------------------------

/// The register index (A, B, C, D, E, H, L, 7 = memory at HL) named by opcode
/// bits 3-5, in the opcode table's order B, C, D, E, H, L, (HL), A.
pub open spec fn dst_code(op: u8) -> u8 {
    (((op / 8) % 8 + 1) % 8) as u8
}

/// The same for opcode bits 0-2.
pub open spec fn src_code(op: u8) -> u8 {
    ((op % 8 + 1) % 8) as u8
}

/// The register pair index (BC, DE, HL, SP) named by opcode bits 4-5.
pub open spec fn pair_code(op: u8) -> u8 {
    ((op / 16) % 4 + 1) as u8
}

/// The bit number named by opcode bits 3-5.
pub open spec fn bit_code(op: u8) -> u8 {
    ((op / 8) % 8) as u8
}

/// The branch condition named by opcode bits 3-4.
pub open spec fn condition_code(op: u8) -> u8 {
    ((op / 8) % 4) as u8
}

pub fn dst_code_of(op: u8) -> (code: u8)
    ensures
        code == dst_code(op),
        code < 8,
{
    ((op / 8) % 8 + 1) % 8
}

pub fn src_code_of(op: u8) -> (code: u8)
    ensures
        code == src_code(op),
        code < 8,
{
    (op % 8 + 1) % 8
}

pub fn pair_code_of(op: u8) -> (code: u8)
    ensures
        code == pair_code(op),
        1 <= code <= 4,
{
    (op / 16) % 4 + 1
}

pub fn bit_code_of(op: u8) -> (code: u8)
    ensures
        code == bit_code(op),
        code < 8,
{
    (op / 8) % 8
}

pub fn condition_code_of(op: u8) -> (code: u8)
    ensures
        code == condition_code(op),
        code < 4,
{
    (op / 8) % 4
}

// ---------------------------------------------------------------------------
// Machine state and instruction effects.
// ---------------------------------------------------------------------------

/// The result of an instruction: registers, memory and cycle count.
pub open spec fn outcome(r: Registers, m: Seq<u8>, cycles: u8) -> (Registers, Seq<u8>, u8) {
    (r, m, cycles)
}

/// The machine after the instruction (`system_data_after`, `after`) holds the
/// registers, memory and cycle count of `result`, and everything else of
/// `system_data_before`; its memory still covers the address space.
pub open spec fn produces(
    system_data_before: SystemData,
    system_data_after: SystemData,
    after: Registers,
    result: (Registers, Seq<u8>, u8),
) -> bool {
    &&& after == result.0
    &&& system_data_after.wf()
    &&& system_data_after.memory() == result.1
    &&& system_data_after.cycles == result.2
    &&& same_but_memory_and_cycles(system_data_before, system_data_after)
}

/// The program counter advanced by `k`.
pub open spec fn advance(r: Registers, k: int) -> Registers {
    Registers { program_counter: (r.program_counter + k) as u16, ..r }
}

/// There is room to advance the program counter by `k` without passing 0xFFFF.
pub open spec fn pc_room(r: Registers, k: int) -> bool {
    r.program_counter + k <= 0xFFFF
}

/// The byte `k` places after the program counter (an immediate operand).
pub open spec fn imm(r: Registers, m: Seq<u8>, k: int) -> u8 {
    m[r.program_counter + k]
}

/// The little-endian 16-bit immediate operand after the opcode.
pub open spec fn imm16(r: Registers, m: Seq<u8>) -> u16 {
    pair(imm(r, m, 2), imm(r, m, 1))
}

/// The 8-bit operand named by `code`: a register, or for 7 the byte at HL.
pub open spec fn operand(r: Registers, m: Seq<u8>, code: u8) -> u8 {
    if code == 7 {
        m[hl(r) as int]
    } else {
        reg8(r, code)
    }
}

/// Writes the 8-bit operand named by `code`: a register, or for 7 the byte at HL.
pub open spec fn store_operand(r: Registers, m: Seq<u8>, code: u8, value: u8) -> (Registers, Seq<u8>) {
    if code == 7 {
        (r, m.update(hl(r) as int, value))
    } else {
        (with_reg8(r, code, value), m)
    }
}

/// A byte as a signed number.
pub open spec fn signed(b: u8) -> int {
    if b < 128 {
        b as int
    } else {
        b - 256
    }
}

/// `base` moved by the signed byte `b`, wrapping within 16 bits.
pub open spec fn displaced(base: u16, b: u8) -> u16 {
    ((base + signed(b)) % 0x10000) as u16
}

/// `value + 1` wrapping within 16 bits.
pub open spec fn wrapping_inc16(value: u16) -> u16 {
    ((value + 1) % 0x10000) as u16
}

/// `value - 1` wrapping within 16 bits.
pub open spec fn wrapping_dec16(value: u16) -> u16 {
    ((value + 0xFFFF) % 0x10000) as u16
}

/// `value + 1` wrapping within 8 bits.
pub open spec fn wrapping_inc8(value: u8) -> u8 {
    ((value + 1) % 0x100) as u8
}

/// `value - 1` wrapping within 8 bits.
pub open spec fn wrapping_dec8(value: u8) -> u8 {
    ((value + 0xFF) % 0x100) as u8
}

// ---------------------------------------------------------------------------
// Executable access to memory and operands.
// ---------------------------------------------------------------------------

/// Reads the byte at a 16-bit address.
pub fn read_byte(system_data: &SystemData, address: u16) -> (value: u8)
    requires
        system_data.wf(),
    ensures
        value == system_data.memory()[address as int],
{
    system_data.mmu.get_from_memory(address as usize, true)
}

/// Writes the byte at a 16-bit address.
pub fn write_byte(system_data: &mut SystemData, address: u16, value: u8)
    requires
        old(system_data).wf(),
    ensures
        final(system_data).memory() == old(system_data).memory().update(address as int, value),
        final(system_data).wf(),
        final(system_data).cycles == old(system_data).cycles,
        same_but_memory_and_cycles(*old(system_data), *final(system_data)),
{
    system_data.mmu.set_to_memory(address as usize, value, true);
}

/// Reads the byte `k` places after the program counter.
pub fn read_immediate(system_data: &SystemData, registers: &Registers, k: u16) -> (value: u8)
    requires
        system_data.wf(),
        registers.program_counter + k < 0x10000,
    ensures
        value == imm(*registers, system_data.memory(), k as int),
{
    system_data.mmu.get_from_memory(registers.program_counter as usize + k as usize, false)
}

/// Reads the 16-bit little-endian operand after the opcode.
pub fn read_immediate16(system_data: &SystemData, registers: &Registers) -> (value: u16)
    requires
        system_data.wf(),
        registers.program_counter + 2 < 0x10000,
    ensures
        value == imm16(*registers, system_data.memory()),
{
    let lower = read_immediate(system_data, registers, 1);
    let upper = read_immediate(system_data, registers, 2);
    combine_bytes(upper, lower)
}

/// Reads the operand named by `code` (a register, or the byte at HL for 7).
pub fn read_operand(system_data: &SystemData, registers: &Registers, code: u8) -> (value: u8)
    requires
        system_data.wf(),
    ensures
        value == operand(*registers, system_data.memory(), code),
{
    if code == 7 {
        read_byte(system_data, registers.mapped_16_bit_register_getter(3))
    } else {
        registers.mapped_register_getter(code)
    }
}

/// Writes the operand named by `code` (a register, or the byte at HL for 7).
pub fn write_operand(system_data: &mut SystemData, registers: &mut Registers, code: u8, value: u8)
    requires
        old(system_data).wf(),
    ensures
        *final(registers) == store_operand(*old(registers), old(system_data).memory(), code, value).0,
        final(system_data).memory() == store_operand(*old(registers), old(system_data).memory(), code, value).1,
        final(system_data).wf(),
        final(system_data).cycles == old(system_data).cycles,
        same_but_memory_and_cycles(*old(system_data), *final(system_data)),
{
    if code == 7 {
        let address = registers.mapped_16_bit_register_getter(3);
        write_byte(system_data, address, value);
    } else {
        registers.mapped_register_setter(code, value);
    }
}

/// Adds a signed byte to a 16-bit value, wrapping within 16 bits.
pub fn add_displacement(base: u16, b: u8) -> (r: u16)
    ensures
        r == displaced(base, b),
{
    if b < 128 {
        ((base as u32 + b as u32) % 0x10000) as u16
    } else {
        ((base as u32 + 0x10000 - (256 - b as u32)) % 0x10000) as u16
    }
}

} // verus!
