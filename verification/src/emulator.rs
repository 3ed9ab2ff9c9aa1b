//! One step of the running machine: what the emulator does for each
//! instruction between two frames.

use vstd::prelude::*;
use crate::cpu::cpu::{cpu_continue};
use crate::cpu::decode::{step, step_is_defined, step_ok};
use crate::gpu::gpu::{gpu_memory, gpu_update_ok, gpu_updated, update_gpu};
use crate::gpu::gpu_registers::{GPU_Registers};
use crate::system::{PlayerInput, Registers, SystemData, joypad_value, same_but_memory_and_cycles, same_settings};
use crate::timer::{Timer, timer_ticked};

verus! {

/// The memory after the joypad register is refreshed from the buttons: when a
/// button of the selected group is pressed the joypad interrupt is requested
/// (bit 4 of 0xFF0F), and the register value goes to 0xFF00.
pub open spec fn input_memory(input: PlayerInput, m: Seq<u8>) -> Seq<u8> {
    let joypad = joypad_value(input, m[0xFF00]);
    let m1 = if joypad & 0x0F != 0x0F { m.update(0xFF0F, m[0xFF0F] | 0x10) } else { m };
    m1.update(0xFF00, joypad)
}

/// Refreshes the joypad register from the buttons (see `input_memory`).
pub fn refresh_joypad(system_data: &mut SystemData)
    requires
        old(system_data).wf(),
    ensures
        final(system_data).wf(),
        final(system_data).memory() == input_memory(old(system_data).input, old(system_data).memory()),
        final(system_data).cycles == old(system_data).cycles,
        same_but_memory_and_cycles(*old(system_data), *final(system_data)),
{
    let joypad_input = system_data.input.update_input(system_data);
    if (joypad_input & 0x0F) != 0x0F {
        let current_if = system_data.mmu.get_from_memory(0xFF0F, false);
        system_data.mmu.set_to_memory(0xFF0F, current_if | 0x10, false);
    }
    system_data.mmu.set_to_memory(0xFF00, joypad_input, false);
}

/// The part of a machine step at which it stops because its arithmetic
/// would overflow.
#[derive(Clone, Copy, Debug, PartialEq, Eq, Structural)]
pub enum StepFault {
    /// The next instruction, or the interrupt entry before it, is not
    /// defined (see `step_ok`).
    Cpu,
    /// The line counters of the picture processor would overflow.
    Display,
    /// The cycle counter of the timer would overflow.
    Timer,
}

/// One step of the machine: refreshes the joypad register, runs the next
/// instruction, advances the picture processor by the cycles it took, then
/// the timer. Where a part is not defined the step stops before it, leaving
/// what the earlier parts did, and says which part it was.
pub fn emulation_step(system_data: &mut SystemData, registers: &mut Registers, gpu_registers: &mut GPU_Registers) -> (result: Result<(), StepFault>)
    requires
        old(system_data).wf(),
        old(gpu_registers).wf(),
    ensures
        final(system_data).wf(),
        final(gpu_registers).wf(),
        same_settings(*old(system_data), *final(system_data)),
        ({
            let m0 = input_memory(old(system_data).input, old(system_data).memory());
            let (r1, m1, c1) = step(*old(registers), m0);
            let cpu_ok = step_ok(*old(registers), m0);
            let display_ok = gpu_update_ok(*old(gpu_registers), c1);
            let timer_ok = old(system_data).timer.tima_cycles + c1 <= u16::MAX;
            let m2 = gpu_memory(*old(gpu_registers), c1, m1);
            let (t3, m3) = timer_ticked(old(system_data).timer, m2, c1);
            &&& (result == Err::<(), StepFault>(StepFault::Cpu)) == !cpu_ok
            &&& (result == Err::<(), StepFault>(StepFault::Display)) == (cpu_ok && !display_ok)
            &&& (result == Err::<(), StepFault>(StepFault::Timer)) == (cpu_ok && display_ok && !timer_ok)
            &&& !cpu_ok ==> {
                &&& *final(registers) == *old(registers)
                &&& final(system_data).memory() == m0
                &&& final(system_data).cycles == old(system_data).cycles
            }
            &&& cpu_ok ==> {
                &&& *final(registers) == r1
                &&& final(system_data).cycles == c1
            }
            &&& cpu_ok && !display_ok ==> final(system_data).memory() == m1
            &&& !(cpu_ok && display_ok) ==> *final(gpu_registers) == *old(gpu_registers)
            &&& cpu_ok && display_ok ==> gpu_updated(*old(gpu_registers), *final(gpu_registers), c1, m1)
            &&& cpu_ok && display_ok && !timer_ok ==> final(system_data).memory() == m2
            &&& !(cpu_ok && display_ok && timer_ok) ==> final(system_data).timer == old(system_data).timer
            &&& cpu_ok && display_ok && timer_ok ==> {
                &&& final(system_data).timer == t3
                &&& final(system_data).memory() == m3
            }
        }),
{
    refresh_joypad(system_data);
    if !step_is_defined(system_data, registers) {
        return Err(StepFault::Cpu);
    }
    cpu_continue(system_data, registers);
    let cycles = system_data.cycles;
    let ly = &gpu_registers.lcd_position.ly_register;
    if !(ly.cycle_count as u64 + cycles as u64 <= u32::MAX as u64
        && ly.sub_cycle_count as u32 + cycles as u32 <= u16::MAX as u32 && ly.value < 255) {
        return Err(StepFault::Display);
    }
    update_gpu(system_data, registers, gpu_registers);
    if system_data.timer.tima_cycles as u32 + cycles as u32 > u16::MAX as u32 {
        return Err(StepFault::Timer);
    }
    system_data.timer_tick();
    Ok(())
}

} // verus!
