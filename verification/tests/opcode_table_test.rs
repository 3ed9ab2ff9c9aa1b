use rustboy::cpu::cb::{bit_check_register, reset_bit_in_register, set_bit_in_register};
use rustboy::cpu::opcode::load_8_bit_register_to_register;
use rustboy::system::{get_system_data, Registers, SystemData};

/// Opcode bits for the registers in the order A, B, C, D, E, H, L.
const REGISTER_CODES: [u8; 7] = [7, 0, 1, 2, 3, 4, 5];

#[test]
fn bit_check_every_register_test() {
    let mut system_data: SystemData = get_system_data(&String::from("CLASSIC"));
    let mut registers: Registers = Registers::new();
    for i in 0..8u8 {
        for j in 0..7u8 {
            let opcode = 0x40 + i * 8 + REGISTER_CODES[j as usize];
            registers.mapped_register_setter(j, 0x00);
            registers.flags = 0x00;
            bit_check_register(&mut system_data, &mut registers, opcode, j);
            assert_eq!(registers.flags, 0xA0);
            registers.mapped_register_setter(j, 0xFF);
            registers.flags = 0x00;
            bit_check_register(&mut system_data, &mut registers, opcode, j);
            assert_eq!(registers.flags, 0x20);
        }
    }
}

#[test]
fn bit_check_single_bit_test() {
    let mut system_data: SystemData = get_system_data(&String::from("CLASSIC"));
    let mut registers: Registers = Registers::new();
    registers.d_register = 0x10;
    registers.flags = 0x10;
    bit_check_register(&mut system_data, &mut registers, 0x62, 4);
    assert_eq!(registers.flags, 0x30);
    bit_check_register(&mut system_data, &mut registers, 0x5A, 3);
    assert_eq!(registers.flags, 0xB0);
}

#[test]
fn load_register_to_every_register_test() {
    let mut system_data: SystemData = get_system_data(&String::from("CLASSIC"));
    let mut registers: Registers = Registers::new();
    for destination in 0..7u8 {
        for source in 0..7u8 {
            for i in 0..7u8 {
                registers.mapped_register_setter(i, i + 1);
            }
            let opcode = 0x40 + REGISTER_CODES[destination as usize] * 8 + REGISTER_CODES[source as usize];
            load_8_bit_register_to_register(&mut system_data, &mut registers, opcode);
            assert_eq!(registers.mapped_register_getter(destination), source + 1);
        }
    }
}

#[test]
fn set_bit_in_every_register_test() {
    let mut system_data: SystemData = get_system_data(&String::from("CLASSIC"));
    let mut registers: Registers = Registers::new();
    for i in 0..8u8 {
        for j in 0..7u8 {
            let opcode = 0xC0 + i * 8 + REGISTER_CODES[j as usize];
            registers.mapped_register_setter(j, 0x00);
            set_bit_in_register(&mut system_data, &mut registers, opcode);
            assert_eq!(registers.mapped_register_getter(j), 1 << i);
        }
    }
}

#[test]
fn reset_bit_in_every_register_test() {
    let mut system_data: SystemData = get_system_data(&String::from("CLASSIC"));
    let mut registers: Registers = Registers::new();
    for i in 0..8u8 {
        for j in 0..7u8 {
            let opcode = 0x80 + i * 8 + REGISTER_CODES[j as usize];
            registers.mapped_register_setter(j, 0xFF);
            reset_bit_in_register(&mut system_data, &mut registers, opcode);
            assert_eq!(registers.mapped_register_getter(j), 0xFF ^ (1 << i));
        }
    }
}
