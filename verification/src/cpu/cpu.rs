use vstd::prelude::*;
use crate::cpu::decode::{step, step_ok};
use crate::cpu::model::{produces};
use crate::cpu::opcode::{parse_opcode};
use crate::system::{Registers, SystemData};

verus! {

/// Runs the next instruction (see `parse_opcode`).
pub fn cpu_continue(system_data: &mut SystemData, registers: &mut Registers)
    requires
        old(system_data).wf(),
        step_ok(*old(registers), old(system_data).memory()),
    ensures
        produces(*old(system_data), *final(system_data), *final(registers),
            step(*old(registers), old(system_data).memory())),
{
    parse_opcode(system_data, registers);
}

} // verus!
