use vstd::prelude::*;
use crate::bits::{lemma_and_at_most_mask};
use crate::cpu::model::{advance};
use crate::system::{SystemData, same_but_memory_and_cycles, same_settings};

verus! {

/// Address of the timer counter register (TIMA).
pub const TIMA_ADDRESS: usize = 0xFF05;
/// Address of the timer modulo register (TMA).
pub const TMA_ADDRESS: usize = 0xFF06;
/// Address of the timer control register (TAC).
pub const TAC_ADDRESS: usize = 0xFF07;
/// Address of the interrupt request register (IF).
pub const INTERRUPT_FLAG_ADDRESS: usize = 0xFF0F;

/// The programmable timer.
#[derive(Clone, Copy, Debug)]
pub struct Timer {
    pub divider_register: u8,
    pub timer_counter: u8,
    pub timer_modulo: u8,
    pub timer_control: u8,
    pub tima_cycles: u16,
}

/// The number of clock cycles per counter increment that the low two bits of
/// the control register select.
pub open spec fn timer_period(control: u8) -> u16 {
    let select = control & 0x03;
    if select == 0 {
        0x0400
    } else if select == 1 {
        0x0010
    } else if select == 2 {
        0x0040
    } else if select == 3 {
        0x0100
    } else {
        0
    }
}

/// Whether the control register enables the counter (bit 2).
pub open spec fn timer_enabled(control: u8) -> bool {
    control & 0x04 != 0
}

/// The timer after `cycles` clock cycles, and whether the counter overflowed.
///
/// When enabled, the cycles are accumulated; once they reach the period the
/// period is taken off and the counter goes up by one, or, at 0xFF, is
/// reloaded from the modulo register with an overflow.
pub open spec fn timer_step(t: Timer, cycles: u8) -> (Timer, bool) {
    if !timer_enabled(t.timer_control) {
        (t, false)
    } else {
        let total = t.tima_cycles + cycles;
        let period = timer_period(t.timer_control);
        if total >= period {
            if t.timer_counter == 0xFF {
                (Timer { tima_cycles: (total - period) as u16, timer_counter: t.timer_modulo, ..t }, true)
            } else {
                (
                    Timer {
                        tima_cycles: (total - period) as u16,
                        timer_counter: (t.timer_counter + 1) as u8,
                        ..t
                    },
                    false,
                )
            }
        } else {
            (Timer { tima_cycles: total as u16, ..t }, false)
        }
    }
}

/// Whether the counter moved in this step (and so was written back to memory).
pub open spec fn timer_counted(t: Timer, cycles: u8) -> bool {
    timer_enabled(t.timer_control) && t.tima_cycles + cycles >= timer_period(t.timer_control)
}

impl Timer {
    /// The timer at power-on: every register cleared.
    pub open spec fn initial() -> Timer {
        Timer { divider_register: 0, timer_counter: 0, timer_modulo: 0, timer_control: 0, tima_cycles: 0 }
    }

    /// A timer with every register cleared.
    pub fn new() -> (t: Timer)
        ensures
            t == Timer::initial(),
    {
        Timer { divider_register: 0, timer_counter: 0, timer_modulo: 0, timer_control: 0, tima_cycles: 0 }
    }

    /// Cycles per counter increment: 0x400, 0x10, 0x40 or 0x100 for the low
    /// two control bits 0, 1, 2, 3.
    pub fn map_timer_control_speed(&self) -> (period: u16)
        ensures
            period == timer_period(self.timer_control),
            period == 0x0400 || period == 0x0010 || period == 0x0040 || period == 0x0100,
    {
        let select = self.timer_control & 0x03;
        proof {
            lemma_and_at_most_mask(self.timer_control, 0x03);
        }
        if select == 0x00 {
            0x0400
        } else if select == 0x01 {
            0x0010
        } else if select == 0x02 {
            0x0040
        } else {
            0x0100
        }
    }

    /// Advances the timer by `cycles` clock cycles; returns whether the
    /// counter overflowed.
    pub fn advance(&mut self, cycles: u8) -> (overflow: bool)
        requires
            old(self).tima_cycles + cycles <= u16::MAX,
        ensures
            (*final(self), overflow) == timer_step(*old(self), cycles),
    {
        if (self.timer_control & 0x04) == 0x00 {
            return false;
        }
        let mut overflow_flag = false;
        self.tima_cycles = self.tima_cycles + cycles as u16;
        let cycle_tick_threshold = self.map_timer_control_speed();
        if self.tima_cycles >= cycle_tick_threshold {
            self.tima_cycles = self.tima_cycles - cycle_tick_threshold;
            if self.timer_counter == 0xFF {
                self.timer_counter = self.timer_modulo;
                overflow_flag = true;
            } else {
                self.timer_counter = self.timer_counter + 1;
            }
        }
        overflow_flag
    }

    /// Advances the timer by the cycles of the last instruction; when the
    /// counter moves, its new value is also written to 0xFF05. Returns
    /// whether the counter overflowed.
    pub fn tima_tick(&mut self, system_data: &mut SystemData) -> (overflow: bool)
        requires
            old(system_data).wf(),
            old(self).tima_cycles + old(system_data).cycles <= u16::MAX,
        ensures
            (*final(self), overflow) == timer_step(*old(self), old(system_data).cycles),
            final(system_data).memory() == (if timer_counted(*old(self), old(system_data).cycles) {
                old(system_data).memory().update(TIMA_ADDRESS as int, final(self).timer_counter)
            } else {
                old(system_data).memory()
            }),
            crate::system::same_but_memory_and_cycles(*old(system_data), *final(system_data)),
            final(system_data).cycles == old(system_data).cycles,
    {
        let counted = (self.timer_control & 0x04) != 0x00
            && self.tima_cycles as u32 + system_data.cycles as u32 >= self.map_timer_control_speed() as u32;
        let overflow_flag = self.advance(system_data.cycles);
        if counted {
            system_data.mmu.set_to_memory(TIMA_ADDRESS, self.timer_counter, false);
        }
        overflow_flag
    }
}

/// The control, modulo and counter registers as the program last wrote them
/// to memory.
pub open spec fn timer_from_memory(t: Timer, memory: Seq<u8>) -> Timer {
    Timer {
        timer_counter: memory[TIMA_ADDRESS as int],
        timer_modulo: memory[TMA_ADDRESS as int],
        timer_control: memory[TAC_ADDRESS as int],
        ..t
    }
}

/// The timer and the memory after `cycles` clock cycles: the timer registers
/// are first loaded from memory, the counter is written back to 0xFF05, and
/// an overflow requests the timer interrupt (bit 2 of 0xFF0F).
pub open spec fn timer_ticked(t: Timer, m: Seq<u8>, cycles: u8) -> (Timer, Seq<u8>) {
    let loaded = timer_from_memory(t, m);
    let (stepped, overflow) = timer_step(loaded, cycles);
    let written = m.update(TIMA_ADDRESS as int, stepped.timer_counter);
    (
        stepped,
        if overflow {
            written.update(INTERRUPT_FLAG_ADDRESS as int, written[INTERRUPT_FLAG_ADDRESS as int] | 0x04)
        } else {
            written
        },
    )
}

impl SystemData {
    /// Runs the timer for the cycles of the last instruction (see
    /// `timer_ticked`).
    pub fn timer_tick(&mut self)
        requires
            old(self).wf(),
            old(self).timer.tima_cycles + old(self).cycles <= u16::MAX,
        ensures
            final(self).wf(),
            (final(self).timer, final(self).memory()) == timer_ticked(old(self).timer, old(self).memory(), old(self).cycles),
            final(self).cycles == old(self).cycles,
            same_settings(*old(self), *final(self)),
    {
        self.timer.timer_counter = self.mmu.mem_map[TIMA_ADDRESS];
        self.timer.timer_modulo = self.mmu.mem_map[TMA_ADDRESS];
        self.timer.timer_control = self.mmu.mem_map[TAC_ADDRESS];
        let overflow_flag = self.timer.advance(self.cycles);
        self.mmu.set_to_memory(TIMA_ADDRESS, self.timer.timer_counter, false);
        if overflow_flag {
            let requested = self.mmu.mem_map[INTERRUPT_FLAG_ADDRESS];
            self.mmu.set_to_memory(INTERRUPT_FLAG_ADDRESS, requested | 0x04, false);
        }
    }
}

/// While enabled, the counter goes up by exactly one each time the
/// accumulated cycles reach the period, and wraps to the modulo value with an
/// overflow after 0xFF; while disabled nothing changes.
pub proof fn law_timer_counts_periods(t: Timer, cycles: u8)
    ensures
        !timer_enabled(t.timer_control) ==> timer_step(t, cycles) == (t, false),
        timer_enabled(t.timer_control) ==> {
            let (n, overflow) = timer_step(t, cycles);
            &&& n.timer_control == t.timer_control
            &&& n.timer_modulo == t.timer_modulo
            &&& overflow == (timer_counted(t, cycles) && t.timer_counter == 0xFF)
            &&& timer_counted(t, cycles) ==> n.timer_counter == (if t.timer_counter == 0xFF {
                t.timer_modulo
            } else {
                (t.timer_counter + 1) as u8
            })
            &&& !timer_counted(t, cycles) ==> n.timer_counter == t.timer_counter
        },
{
    lemma_and_at_most_mask(t.timer_control, 0x03);
}

} // verus!
