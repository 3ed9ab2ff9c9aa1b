use rustboy::cpu::cb::{
    rotate_left_through_carry, rotate_register_left_carry_set, rotate_register_right_carry_set,
    rotate_right_through_carry, swap_nibbles,
};
use rustboy::cpu::cpu::cpu_continue;
use rustboy::cpu::decode::step_is_defined;
use rustboy::cpu::opcode::{
    add_8_bit_to_accumulator, bcd_adjust, call_nn, compare_with_n, decrement_16_bit_register, increment_16_bit_register,
    load_hl_address_with_register, load_register_with_hl_location, ones_complement, pop_16_bit_register, push_16_bit_register, return_from_call, rlca, rrca, rst_jump,
    subtraction_n_from_accumulator, xor_8_bit_register,
};
use rustboy::system::{get_system_data, Registers, SystemData};

fn machine() -> (SystemData, Registers) {
    let system_data = get_system_data("CLASSIC");
    let mut registers = Registers::new();
    registers.program_counter = 0x100;
    registers.stack_pointer = 0xFFFE;
    (system_data, registers)
}

#[test]
fn push_then_pop_restores_pair_test() {
    let (mut system_data, mut registers) = machine();
    registers.b_register = 0x12;
    registers.c_register = 0x34;
    push_16_bit_register(&mut system_data, &mut registers, 0xC5);
    assert_eq!(registers.stack_pointer, 0xFFFC);
    assert_eq!(system_data.mmu.mem_map[0xFFFD], 0x12);
    assert_eq!(system_data.mmu.mem_map[0xFFFC], 0x34);
    registers.b_register = 0;
    registers.c_register = 0;
    pop_16_bit_register(&mut system_data, &mut registers, 0xC1);
    assert_eq!(registers.b_register, 0x12);
    assert_eq!(registers.c_register, 0x34);
    assert_eq!(registers.stack_pointer, 0xFFFE);
    assert_eq!(registers.program_counter, 0x102);
}

#[test]
fn push_then_pop_af_clears_low_flag_bits_test() {
    let (mut system_data, mut registers) = machine();
    registers.accumulator = 0xAB;
    registers.flags = 0xF5;
    push_16_bit_register(&mut system_data, &mut registers, 0xF5);
    pop_16_bit_register(&mut system_data, &mut registers, 0xF1);
    assert_eq!(registers.accumulator, 0xAB);
    assert_eq!(registers.flags, 0xF0);
    assert_eq!(registers.stack_pointer, 0xFFFE);
}

#[test]
fn call_then_return_resumes_after_call_test() {
    let (mut system_data, mut registers) = machine();
    system_data.mmu.mem_map[0x101] = 0x00;
    system_data.mmu.mem_map[0x102] = 0x20;
    call_nn(&mut system_data, &mut registers);
    assert_eq!(registers.program_counter, 0x2000);
    assert_eq!(registers.stack_pointer, 0xFFFC);
    return_from_call(&mut system_data, &mut registers);
    assert_eq!(registers.program_counter, 0x103);
    assert_eq!(registers.stack_pointer, 0xFFFE);
}

#[test]
fn restart_then_return_resumes_test() {
    let (mut system_data, mut registers) = machine();
    rst_jump(&mut system_data, &mut registers, 0xEF);
    assert_eq!(registers.program_counter, 0x28);
    return_from_call(&mut system_data, &mut registers);
    assert_eq!(registers.program_counter, 0x101);
    assert_eq!(registers.stack_pointer, 0xFFFE);
}

#[test]
fn increment_then_decrement_pair_test() {
    let (mut system_data, mut registers) = machine();
    registers.h_register = 0xFF;
    registers.l_register = 0xFF;
    increment_16_bit_register(&mut system_data, &mut registers, 0x23);
    assert_eq!(registers.mapped_16_bit_register_getter(3), 0x0000);
    decrement_16_bit_register(&mut system_data, &mut registers, 0x2B);
    assert_eq!(registers.mapped_16_bit_register_getter(3), 0xFFFF);
    assert_eq!(registers.program_counter, 0x102);
}

#[test]
fn rlca_then_rrca_restores_accumulator_test() {
    let (mut system_data, mut registers) = machine();
    registers.accumulator = 0x85;
    rlca(&mut system_data, &mut registers);
    assert_eq!(registers.accumulator, 0x0B);
    assert_eq!(registers.flags, 0x10);
    rrca(&mut system_data, &mut registers);
    assert_eq!(registers.accumulator, 0x85);
    assert_eq!(registers.flags, 0x10);
}

#[test]
fn rotate_through_carry_left_then_right_test() {
    let (mut system_data, mut registers) = machine();
    registers.b_register = 0x80;
    registers.flags = 0x00;
    rotate_left_through_carry(&mut system_data, &mut registers, 0x10);
    assert_eq!(registers.b_register, 0x00);
    assert_eq!(registers.flags, 0x90);
    rotate_right_through_carry(&mut system_data, &mut registers, 0x18);
    assert_eq!(registers.b_register, 0x80);
    assert_eq!(registers.flags, 0x00);
    assert_eq!(registers.program_counter, 0x104);
}

#[test]
fn rotate_left_then_right_test() {
    let (mut system_data, mut registers) = machine();
    registers.b_register = 0x81;
    rotate_register_left_carry_set(&mut system_data, &mut registers, 0x00);
    assert_eq!(registers.b_register, 0x03);
    rotate_register_right_carry_set(&mut system_data, &mut registers, 0x08);
    assert_eq!(registers.b_register, 0x81);
    assert_eq!(registers.flags, 0x10);
}

#[test]
fn swap_twice_restores_test() {
    let (mut system_data, mut registers) = machine();
    registers.b_register = 0x1F;
    swap_nibbles(&mut system_data, &mut registers, 0x30);
    assert_eq!(registers.b_register, 0xF1);
    swap_nibbles(&mut system_data, &mut registers, 0x30);
    assert_eq!(registers.b_register, 0x1F);
    assert_eq!(registers.flags, 0x00);
}

#[test]
fn swap_of_hl_location_test() {
    let (mut system_data, mut registers) = machine();
    registers.h_register = 0xC0;
    registers.l_register = 0x00;
    system_data.mmu.mem_map[0xC000] = 0xA5;
    swap_nibbles(&mut system_data, &mut registers, 0x36);
    assert_eq!(system_data.mmu.mem_map[0xC000], 0x5A);
}

#[test]
fn complement_twice_restores_accumulator_test() {
    let (mut system_data, mut registers) = machine();
    registers.accumulator = 0x35;
    registers.flags = 0x80;
    ones_complement(&mut system_data, &mut registers);
    assert_eq!(registers.accumulator, 0xCA);
    assert_eq!(registers.flags, 0xE0);
    ones_complement(&mut system_data, &mut registers);
    assert_eq!(registers.accumulator, 0x35);
    assert_eq!(registers.flags, 0xE0);
}

#[test]
fn subtract_undoes_add_test() {
    let (mut system_data, mut registers) = machine();
    registers.accumulator = 0xF0;
    system_data.mmu.mem_map[0x101] = 0x20;
    system_data.mmu.mem_map[0x103] = 0x20;
    add_8_bit_to_accumulator(&mut system_data, &mut registers);
    assert_eq!(registers.accumulator, 0x10);
    assert_eq!(registers.flags, 0x10);
    subtraction_n_from_accumulator(&mut system_data, &mut registers);
    assert_eq!(registers.accumulator, 0xF0);
    assert_eq!(registers.flags, 0x50);
}

#[test]
fn compare_is_subtract_without_result_test() {
    let (mut system_data, mut registers) = machine();
    registers.accumulator = 0x10;
    system_data.mmu.mem_map[0x101] = 0x20;
    let mut compared = registers;
    compare_with_n(&mut system_data, &mut compared);
    let mut subtracted = registers;
    subtraction_n_from_accumulator(&mut system_data, &mut subtracted);
    assert_eq!(compared.accumulator, 0x10);
    assert_eq!(subtracted.accumulator, 0xF0);
    assert_eq!(compared.flags, subtracted.flags);
    assert_eq!(compared.flags, 0x50);
    assert_eq!(compared.program_counter, subtracted.program_counter);
}

#[test]
fn xor_with_itself_clears_test() {
    let (mut system_data, mut registers) = machine();
    registers.accumulator = 0x5A;
    registers.flags = 0x70;
    xor_8_bit_register(&mut system_data, &mut registers, 0xAF);
    assert_eq!(registers.accumulator, 0);
    assert_eq!(registers.flags, 0x80);
}

#[test]
fn step_cycles_test() {
    let (mut system_data, mut registers) = machine();
    // NOP: one machine cycle.
    system_data.mmu.mem_map[0x100] = 0x00;
    cpu_continue(&mut system_data, &mut registers);
    assert_eq!(system_data.cycles, 4);
    assert_eq!(registers.program_counter, 0x101);
    // CALL nn: six machine cycles.
    system_data.mmu.mem_map[0x101] = 0xCD;
    system_data.mmu.mem_map[0x102] = 0x00;
    system_data.mmu.mem_map[0x103] = 0x30;
    cpu_continue(&mut system_data, &mut registers);
    assert_eq!(system_data.cycles, 24);
    assert_eq!(registers.program_counter, 0x3000);
    // A CB instruction on (HL) takes four.
    registers.h_register = 0xC0;
    registers.l_register = 0x00;
    system_data.mmu.mem_map[0x3000] = 0xCB;
    system_data.mmu.mem_map[0x3001] = 0x36;
    cpu_continue(&mut system_data, &mut registers);
    assert_eq!(system_data.cycles, 16);
    assert_eq!(registers.program_counter, 0x3002);
}

#[test]
fn halted_cpu_waits_test() {
    let (mut system_data, mut registers) = machine();
    registers.halt_flag = true;
    cpu_continue(&mut system_data, &mut registers);
    assert_eq!(system_data.cycles, 4);
    assert_eq!(registers.program_counter, 0x100);
    assert!(registers.halt_flag);
    // A request wakes it up, with four extra cycles.
    system_data.mmu.mem_map[0xFF0F] = 0x01;
    cpu_continue(&mut system_data, &mut registers);
    assert!(!registers.halt_flag);
    assert_eq!(system_data.cycles, 8);
    assert_eq!(registers.program_counter, 0x101);
}

#[test]
fn interrupt_then_return_resumes_test() {
    let (mut system_data, mut registers) = machine();
    registers.program_counter = 0x150;
    registers.interrupt_master_enable_flag = true;
    system_data.mmu.mem_map[0xFFFF] = 0x01;
    system_data.mmu.mem_map[0xFF0F] = 0x01;
    system_data.mmu.mem_map[0x40] = 0xD9;
    system_data.mmu.mem_map[0x150] = 0x00;
    cpu_continue(&mut system_data, &mut registers);
    // The entry pushed 0x150 and RETI popped it.
    assert_eq!(system_data.mmu.mem_map[0xFFFD], 0x01);
    assert_eq!(system_data.mmu.mem_map[0xFFFC], 0x50);
    assert_eq!(system_data.mmu.mem_map[0xFF0F], 0x00);
    assert_eq!(registers.program_counter, 0x150);
    assert_eq!(registers.stack_pointer, 0xFFFE);
    assert!(!registers.interrupt_master_enable_flag);
    assert!(registers.interrupt_master_enable_delay_flag);
    assert_eq!(system_data.cycles, 36);
    cpu_continue(&mut system_data, &mut registers);
    assert!(registers.interrupt_master_enable_flag);
    assert_eq!(registers.program_counter, 0x151);
}

#[test]
fn interrupt_priority_test() {
    let (mut system_data, mut registers) = machine();
    registers.interrupt_master_enable_flag = true;
    system_data.mmu.mem_map[0xFFFF] = 0x1F;
    system_data.mmu.mem_map[0xFF0F] = 0x14;
    cpu_continue(&mut system_data, &mut registers);
    // The timer interrupt (bit 2) is served before the joypad (bit 4).
    assert_eq!(registers.program_counter, 0x51);
    assert_eq!(system_data.mmu.mem_map[0xFF0F], 0x10);
}

#[test]
fn step_is_defined_test() {
    let (mut system_data, mut registers) = machine();
    system_data.mmu.mem_map[0x100] = 0x00;
    assert!(step_is_defined(&system_data, &registers));
    // A NOP at the last address would move the program counter past it.
    registers.program_counter = 0xFFFF;
    assert!(!step_is_defined(&system_data, &registers));
    // A halted CPU with nothing requested does not run an instruction.
    registers.halt_flag = true;
    assert!(step_is_defined(&system_data, &registers));
    // Serving an interrupt needs room for two bytes on the stack.
    registers.halt_flag = false;
    registers.program_counter = 0x100;
    registers.stack_pointer = 1;
    registers.interrupt_master_enable_flag = true;
    system_data.mmu.mem_map[0xFFFF] = 0x01;
    system_data.mmu.mem_map[0xFF0F] = 0x01;
    assert!(!step_is_defined(&system_data, &registers));
    registers.stack_pointer = 0xFFFE;
    assert!(step_is_defined(&system_data, &registers));
    // A three-byte instruction too close to the end.
    registers.interrupt_master_enable_flag = false;
    registers.program_counter = 0xFFFD;
    system_data.mmu.mem_map[0xFFFD] = 0xC3;
    assert!(step_is_defined(&system_data, &registers));
    registers.program_counter = 0xFFFE;
    system_data.mmu.mem_map[0xFFFE] = 0xC3;
    assert!(!step_is_defined(&system_data, &registers));
}

#[test]
fn add_then_bcd_adjust_adds_decimals_test() {
    let (mut system_data, mut registers) = machine();
    registers.accumulator = 0x45;
    system_data.mmu.mem_map[0x101] = 0x38;
    add_8_bit_to_accumulator(&mut system_data, &mut registers);
    bcd_adjust(&mut system_data, &mut registers);
    assert_eq!(registers.accumulator, 0x83);
    assert_eq!(registers.flags & 0x10, 0x00);

    registers.accumulator = 0x99;
    system_data.mmu.mem_map[0x104] = 0x01;
    add_8_bit_to_accumulator(&mut system_data, &mut registers);
    bcd_adjust(&mut system_data, &mut registers);
    assert_eq!(registers.accumulator, 0x00);
    assert_eq!(registers.flags, 0x90);

    registers.accumulator = 0x58;
    system_data.mmu.mem_map[0x107] = 0x67;
    add_8_bit_to_accumulator(&mut system_data, &mut registers);
    bcd_adjust(&mut system_data, &mut registers);
    assert_eq!(registers.accumulator, 0x25);
    assert_eq!(registers.flags, 0x10);
}

#[test]
fn subtract_then_bcd_adjust_subtracts_decimals_test() {
    let (mut system_data, mut registers) = machine();
    registers.accumulator = 0x45;
    system_data.mmu.mem_map[0x101] = 0x38;
    subtraction_n_from_accumulator(&mut system_data, &mut registers);
    bcd_adjust(&mut system_data, &mut registers);
    assert_eq!(registers.accumulator, 0x07);
    assert_eq!(registers.flags, 0x40);

    registers.accumulator = 0x10;
    system_data.mmu.mem_map[0x104] = 0x20;
    subtraction_n_from_accumulator(&mut system_data, &mut registers);
    bcd_adjust(&mut system_data, &mut registers);
    assert_eq!(registers.accumulator, 0x90);
    assert_eq!(registers.flags, 0x50);
}

#[test]
fn store_then_load_through_hl_test() {
    let (mut system_data, mut registers) = machine();
    registers.h_register = 0xC0;
    registers.l_register = 0x10;
    registers.b_register = 0x42;
    load_hl_address_with_register(&mut system_data, &mut registers, 0x70);
    load_register_with_hl_location(&mut system_data, &mut registers, 0x5E);
    assert_eq!(system_data.mmu.mem_map[0xC010], 0x42);
    assert_eq!(registers.e_register, 0x42);
    assert_eq!(registers.program_counter, 0x102);
}
