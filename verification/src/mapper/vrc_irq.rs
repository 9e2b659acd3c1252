//! The IRQ counter shared by Konami's VRC mappers: an up-counter that
//! reloads from a latch and raises the IRQ line when it rolls over.
//! It either counts CPU cycles directly or counts scanlines through a
//! prescaler that divides the CPU clock by 341/3.

use vstd::prelude::*;
use crate::common::Clock;

verus! {

/// Ticks of the one-scanline prescaler: 341 PPU dots at 3 dots per CPU
/// cycle.
pub const VRC_PRESCALER_RELOAD: u16 = 341;

/// The VRC IRQ unit's registers.
#[derive(Debug, Copy, Clone, PartialEq, Eq, Structural)]
pub struct VrcIrq {
    /// Value the counter restarts from after rolling over.
    pub latch: u8,
    /// The up-counter.
    pub counter: u8,
    /// Whether the counter is running.
    pub enabled: bool,
    /// Whether acknowledging re-enables the counter.
    pub enabled_after_ack: bool,
    /// Whether the counter counts CPU cycles instead of scanlines.
    pub cycle_mode: bool,
    /// Whether the IRQ line is being held low.
    pub pending: bool,
    /// The scanline prescaler, counted down by 3 per CPU cycle.
    pub prescaler: u16,
}

impl VrcIrq {
    /// The prescaler never exceeds its reload value.
    pub open spec fn wf(&self) -> bool {
        self.prescaler <= VRC_PRESCALER_RELOAD
    }

    /// One tick of the up-counter: rolling over from 0xFF reloads the
    /// latch and raises the IRQ, anything else counts up.
    pub open spec fn spec_counter_clocked(&self) -> VrcIrq {
        if self.counter == 0xFF {
            VrcIrq { counter: self.latch, pending: true, ..*self }
        } else {
            VrcIrq { counter: (self.counter + 1) as u8, ..*self }
        }
    }

    /// One CPU cycle of the whole unit: disabled it stands still; in
    /// cycle mode every cycle ticks the counter; in scanline mode the
    /// prescaler eats 3 ticks per cycle and the counter ticks each time
    /// it runs dry.
    pub open spec fn spec_clock(&self) -> VrcIrq {
        if !self.enabled {
            *self
        } else if self.cycle_mode {
            self.spec_counter_clocked()
        } else if self.prescaler >= 3 {
            VrcIrq { prescaler: (self.prescaler - 3) as u16, ..*self }
        } else {
            VrcIrq {
                prescaler: (self.prescaler + VRC_PRESCALER_RELOAD - 3) as u16,
                ..self.spec_counter_clocked()
            }
        }
    }

    /// The state a control write leaves: the three mode bits are taken
    /// from the value, the IRQ line rises, and enabling reloads the
    /// counter and restarts the scanline.
    pub open spec fn spec_control_write(&self, val: u8) -> VrcIrq {
        VrcIrq {
            enabled_after_ack: val % 2 == 1,
            enabled: (val as int / 2) % 2 == 1,
            cycle_mode: (val as int / 4) % 2 == 1,
            pending: false,
            counter: (
            if (val as int / 2) % 2 == 1 {
                self.latch
            } else {
                self.counter
            }),
            prescaler: (
            if (val as int / 2) % 2 == 1 {
                VRC_PRESCALER_RELOAD
            } else {
                self.prescaler
            }),
            ..*self
        }
    }

    /// The state an acknowledge leaves: the line rises and the counter
    /// keeps running only if the control write armed it to.
    pub open spec fn spec_acknowledged(&self) -> VrcIrq {
        VrcIrq { pending: false, enabled: self.enabled_after_ack, ..*self }
    }

    /// A fresh, silent unit.
    pub fn new() -> (irq: Self)
        ensures
            irq == (VrcIrq {
                latch: 0u8,
                counter: 0u8,
                enabled: false,
                enabled_after_ack: false,
                cycle_mode: false,
                pending: false,
                prescaler: VRC_PRESCALER_RELOAD,
            }),
            irq.wf(),
    {
        VrcIrq {
            latch: 0,
            counter: 0,
            enabled: false,
            enabled_after_ack: false,
            cycle_mode: false,
            pending: false,
            prescaler: VRC_PRESCALER_RELOAD,
        }
    }

    /// Set the reload latch.
    pub fn write_latch(&mut self, val: u8)
        ensures
            *final(self) == (VrcIrq { latch: val, ..*old(self) }),
    {
        self.latch = val;
    }

    /// Set the control bits: acknowledge mode in bit 0, enable in bit 1,
    /// cycle mode in bit 2. Enabling starts a fresh scanline and reloads
    /// the counter; any control write drops the IRQ line.
    pub fn write_control(&mut self, val: u8)
        ensures
            *final(self) == old(self).spec_control_write(val),
    {
        self.enabled_after_ack = val % 2 == 1;
        self.enabled = (val / 2) % 2 == 1;
        self.cycle_mode = (val / 4) % 2 == 1;
        self.pending = false;
        if self.enabled {
            self.counter = self.latch;
            self.prescaler = VRC_PRESCALER_RELOAD;
        }
    }

    /// Acknowledge the IRQ: the line rises and the counter keeps running
    /// only if the control write armed it to.
    pub fn acknowledge(&mut self)
        ensures
            *final(self) == old(self).spec_acknowledged(),
    {
        self.pending = false;
        self.enabled = self.enabled_after_ack;
    }
}

impl Clock for VrcIrq {
    /// Advance one CPU cycle.
    fn clock(&mut self) -> (cycles: usize)
        ensures
            *final(self) == old(self).spec_clock(),
            cycles == if old(self).enabled {
                1int
            } else {
                0int
            },
    {
        if !self.enabled {
            0
        } else {
            if self.cycle_mode {
                self.clock_counter();
            } else {
                if self.prescaler >= 3 {
                    self.prescaler = self.prescaler - 3;
                } else {
                    self.prescaler = self.prescaler + VRC_PRESCALER_RELOAD - 3;
                    self.clock_counter();
                }
            }
            1
        }
    }
}

impl VrcIrq {
    /// Tick the up-counter once.
    fn clock_counter(&mut self)
        ensures
            *final(self) == old(self).spec_counter_clocked(),
    {
        if self.counter == 0xFF {
            self.counter = self.latch;
            self.pending = true;
        } else {
            self.counter = self.counter + 1;
        }
    }
}

} // verus!
