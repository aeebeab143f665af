use vstd::prelude::*;

verus! {

/// Value of the MODE field that selects timer mode.
pub const MODE_TIMER: u32 = 0;

/// Value of the MODE field that selects low-power counter mode.
pub const MODE_LOW_POWER_COUNTER: u32 = 2;

/// Value of the BITMODE field after reset (16-bit).
pub const BITMODE_RESET: u32 = 0;

/// Value of the PRESCALER field after reset.
pub const PRESCALER_RESET: u32 = 4;

/// Number of distinct counter values for a BITMODE field value.
pub open spec fn counter_modulus(bitmode: u32) -> nat {
    if bitmode == 1 {
        0x100
    } else if bitmode == 2 {
        0x100_0000
    } else if bitmode == 3 {
        0x1_0000_0000
    } else {
        0x1_0000
    }
}

/// The counter's value after `ticks` pulses reach `regs`.
pub open spec fn counter_after(regs: TimerRegisters, ticks: u32) -> u32 {
    if regs.running {
        ((regs.counter + ticks) % (counter_modulus(regs.bitmode) as int)) as u32
    } else {
        regs.counter
    }
}

/// The register block of one timer instance, held as plain values.
///
/// `shorts` holds the COMPARE[n]->CLEAR shortcut at bit `n` and the
/// COMPARE[n]->STOP shortcut at bit `8 + n`; `inten` holds the COMPARE[n]
/// interrupt enable at bit `16 + n`.
pub struct TimerRegisters {
    pub running: bool,
    pub counter: u32,
    pub mode: u32,
    pub bitmode: u32,
    pub prescaler: u32,
    pub cc: [u32; 4],
    pub shorts: u32,
    pub inten: u32,
}

impl TimerRegisters {
    /// The register block as it stands after a reset.
    pub fn new() -> (r: TimerRegisters)
        ensures
            !r.running,
            r.counter == 0,
            r.mode == MODE_TIMER,
            r.bitmode == BITMODE_RESET,
            r.prescaler == PRESCALER_RESET,
            r.cc@ == seq![0u32, 0u32, 0u32, 0u32],
            r.shorts == 0,
            r.inten == 0,
    {
        TimerRegisters {
            running: false,
            counter: 0,
            mode: MODE_TIMER,
            bitmode: BITMODE_RESET,
            prescaler: PRESCALER_RESET,
            cc: [0u32, 0u32, 0u32, 0u32],
            shorts: 0,
            inten: 0,
        }
    }

    /// The same registers with the run state replaced.
    pub open spec fn with_running(self, running: bool) -> TimerRegisters {
        TimerRegisters { running, ..self }
    }

    /// The START task: the counter runs.
    pub fn trigger_start(&mut self)
        ensures
            *final(self) == old(self).with_running(true),
    {
        self.running = true;
    }

    /// The STOP task: the counter halts and keeps its value.
    pub fn trigger_stop(&mut self)
        ensures
            *final(self) == old(self).with_running(false),
    {
        self.running = false;
    }

    /// The SHUTDOWN task: the counter halts.
    pub fn trigger_shutdown(&mut self)
        ensures
            *final(self) == old(self).with_running(false),
    {
        self.running = false;
    }

    /// The CLEAR task: the counter returns to zero.
    pub fn trigger_clear(&mut self)
        ensures
            *final(self) == (TimerRegisters { counter: 0, ..*old(self) }),
    {
        self.counter = 0;
    }

    /// The CAPTURE[n] task: CC[n] takes the counter's value.
    pub fn trigger_capture(&mut self, n: usize)
        requires
            n < 4,
        ensures
            final(self).cc@ == old(self).cc@.update(n as int, old(self).counter),
            *final(self) == (TimerRegisters { cc: final(self).cc, ..*old(self) }),
    {
        self.cc[n] = self.counter;
    }

    /// Writes the MODE field.
    pub fn write_mode(&mut self, mode: u32)
        ensures
            *final(self) == (TimerRegisters { mode, ..*old(self) }),
    {
        self.mode = mode;
    }

    /// Writes the BITMODE field; the counter must be stopped.
    pub fn write_bitmode(&mut self, bitmode: u32)
        requires
            !old(self).running,
        ensures
            *final(self) == (TimerRegisters { bitmode, ..*old(self) }),
    {
        self.bitmode = bitmode;
    }

    /// Writes the PRESCALER field; the counter must be stopped.
    pub fn write_prescaler(&mut self, prescaler: u32)
        requires
            !old(self).running,
        ensures
            *final(self) == (TimerRegisters { prescaler, ..*old(self) }),
    {
        self.prescaler = prescaler;
    }

    /// Writes CC[n].
    pub fn write_cc(&mut self, n: usize, value: u32)
        requires
            n < 4,
        ensures
            final(self).cc@ == old(self).cc@.update(n as int, value),
            *final(self) == (TimerRegisters { cc: final(self).cc, ..*old(self) }),
    {
        self.cc[n] = value;
    }

    /// Writes the SHORTS register.
    pub fn write_shorts(&mut self, shorts: u32)
        ensures
            *final(self) == (TimerRegisters { shorts, ..*old(self) }),
    {
        self.shorts = shorts;
    }

    /// Writes the INTENCLR register: each bit written as one disables that interrupt.
    pub fn write_intenclr(&mut self, mask: u32)
        ensures
            *final(self) == (TimerRegisters { inten: old(self).inten & !mask, ..*old(self) }),
    {
        self.inten = self.inten & !mask;
    }

    /// Writes the INTENSET register: each bit written as one enables that interrupt.
    pub fn write_intenset(&mut self, mask: u32)
        ensures
            *final(self) == (TimerRegisters { inten: old(self).inten | mask, ..*old(self) }),
    {
        self.inten = self.inten | mask;
    }

    /// Lets `ticks` clock (or count) pulses reach the counter. A running counter
    /// advances by that many steps and wraps at its bit width; a stopped one keeps its value.
    pub fn advance(&mut self, ticks: u32)
        ensures
            final(self).counter == counter_after(*old(self), ticks),
            *final(self) == (TimerRegisters { counter: final(self).counter, ..*old(self) }),
    {
        if self.running {
            let modulus: u64 = if self.bitmode == 1 {
                0x100
            } else if self.bitmode == 2 {
                0x100_0000
            } else if self.bitmode == 3 {
                0x1_0000_0000
            } else {
                0x1_0000
            };
            let next: u64 = (self.counter as u64 + ticks as u64) % modulus;
            self.counter = next as u32;
        }
    }
}

} // verus!
