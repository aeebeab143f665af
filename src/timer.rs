use core::marker::PhantomData;
use vstd::prelude::*;

use crate::bits::{bit_set, lemma_clear_bit, lemma_set_bit};
use crate::timer_registers::{
    counter_after, counter_modulus, TimerRegisters, MODE_LOW_POWER_COUNTER, MODE_TIMER,
};

verus! {

/// Offset of the START task register.
pub const TASKS_START_OFFSET: u32 = 0x000;

/// Offset of the STOP task register.
pub const TASKS_STOP_OFFSET: u32 = 0x004;

/// Offset of the COUNT task register.
pub const TASKS_COUNT_OFFSET: u32 = 0x008;

/// Offset of the CLEAR task register.
pub const TASKS_CLEAR_OFFSET: u32 = 0x00C;

/// Offset of the SHUTDOWN task register.
pub const TASKS_SHUTDOWN_OFFSET: u32 = 0x010;

/// Offset of the CAPTURE[0] task register; CAPTURE[n] lies `4 * n` further.
pub const TASKS_CAPTURE_OFFSET: u32 = 0x040;

/// Offset of the COMPARE[0] event register; COMPARE[n] lies `4 * n` further.
pub const EVENTS_COMPARE_OFFSET: u32 = 0x140;

/// Number of capture/compare channels of a timer.
pub const CC_COUNT: usize = 4;

/// The timer frequency, as the prescaler divides the 16 MHz clock.
///
/// The prescaler and the bit mode must only be changed while the timer is
/// stopped: a change while it runs gives unpredictable behavior.
#[derive(Clone, Copy, PartialEq, Eq, Debug)]
pub enum Frequency {
    F16MHz,
    F8MHz,
    F4MHz,
    F2MHz,
    F1MHz,
    F500kHz,
    F250kHz,
    F125kHz,
    F62500Hz,
    F31250Hz,
}

/// The PRESCALER field value that selects a frequency.
pub open spec fn prescaler_of(f: Frequency) -> u32 {
    match f {
        Frequency::F16MHz => 0,
        Frequency::F8MHz => 1,
        Frequency::F4MHz => 2,
        Frequency::F2MHz => 3,
        Frequency::F1MHz => 4,
        Frequency::F500kHz => 5,
        Frequency::F250kHz => 6,
        Frequency::F125kHz => 7,
        Frequency::F62500Hz => 8,
        Frequency::F31250Hz => 9,
    }
}

impl Frequency {
    /// The PRESCALER field value for this frequency, in `0..=9`.
    pub fn prescaler(&self) -> (r: u32)
        ensures
            r == prescaler_of(*self),
            r <= 9,
    {
        match self {
            Frequency::F16MHz => 0,
            Frequency::F8MHz => 1,
            Frequency::F4MHz => 2,
            Frequency::F2MHz => 3,
            Frequency::F1MHz => 4,
            Frequency::F500kHz => 5,
            Frequency::F250kHz => 6,
            Frequency::F125kHz => 7,
            Frequency::F62500Hz => 8,
            Frequency::F31250Hz => 9,
        }
    }
}

/// The number of bits that the counter holds.
#[derive(Clone, Copy, PartialEq, Eq, Debug)]
pub enum Bitmode {
    B8,
    B16,
    B24,
    B32,
}

/// The BITMODE field value that selects a width.
pub open spec fn bitmode_bits_of(b: Bitmode) -> u32 {
    match b {
        Bitmode::B8 => 1,
        Bitmode::B16 => 0,
        Bitmode::B24 => 2,
        Bitmode::B32 => 3,
    }
}

impl Bitmode {
    /// The BITMODE field value for this width.
    pub fn bits(&self) -> (r: u32)
        ensures
            r == bitmode_bits_of(*self),
    {
        match self {
            Bitmode::B8 => 1,
            Bitmode::B16 => 0,
            Bitmode::B24 => 2,
            Bitmode::B32 => 3,
        }
    }
}

/// The physical timers that have four capture/compare channels.
#[allow(non_camel_case_types)]
#[derive(Clone, Copy, PartialEq, Eq, Debug)]
pub enum TimerInstance {
    TIMER0,
    TIMER1,
    TIMER2,
}

/// Base address of a timer instance's register block.
pub open spec fn base_of(instance: TimerInstance) -> u32 {
    match instance {
        TimerInstance::TIMER0 => 0x4000_8000,
        TimerInstance::TIMER1 => 0x4000_9000,
        TimerInstance::TIMER2 => 0x4000_A000,
    }
}

impl TimerInstance {
    /// Base address of this instance's register block.
    pub fn base_address(&self) -> (r: u32)
        ensures
            r == base_of(*self),
    {
        match self {
            TimerInstance::TIMER0 => 0x4000_8000,
            TimerInstance::TIMER1 => 0x4000_9000,
            TimerInstance::TIMER2 => 0x4000_A000,
        }
    }
}

/// A PRESCALER field value, one of the ten that a `Frequency` selects.
#[derive(Clone, Copy, PartialEq, Eq, Debug)]
pub struct Prescaler {
    bits: u32,
}

impl Prescaler {
    /// The field value.
    pub closed spec fn value(&self) -> u32 {
        self.bits
    }

    /// The prescaler that gives `frequency`.
    pub fn from_frequency(frequency: Frequency) -> (r: Prescaler)
        ensures
            r.value() == prescaler_of(frequency),
            r.value() <= 9,
    {
        Prescaler { bits: frequency.prescaler() }
    }

    /// The field value, in `0..=9`.
    pub fn bits(&self) -> (r: u32)
        ensures
            r == self.value(),
    {
        self.bits
    }
}

/// Mode tag of a timer whose mode has not been chosen yet.
pub struct NotConfigured;

/// Mode tag of a timer that counts COUNT task triggers.
pub struct CounterType;

/// Mode tag of a timer that counts clock ticks.
pub struct TimerType;

/// A task register, by address, for the peripheral interconnect to trigger.
#[derive(Clone, Copy, PartialEq, Eq, Debug)]
pub struct Task {
    pub address: u32,
}

/// An event register, by address, for the peripheral interconnect to observe.
#[derive(Clone, Copy, PartialEq, Eq, Debug)]
pub struct Event {
    pub address: u32,
}

/// Whether the COMPARE[n] -> CLEAR shortcut is on.
pub open spec fn short_clear_on(shorts: u32, n: int) -> bool {
    bit_set(shorts, n as u32)
}

/// Whether the COMPARE[n] -> STOP shortcut is on.
pub open spec fn short_stop_on(shorts: u32, n: int) -> bool {
    bit_set(shorts, (8 + n) as u32)
}

/// Whether the COMPARE[n] interrupt is enabled.
pub open spec fn compare_interrupt_on(inten: u32, n: int) -> bool {
    bit_set(inten, (16 + n) as u32)
}

/// A timer/counter bound to one physical instance, in mode `MODE`.
///
/// A timer is bound in `NotConfigured` mode and leaves it, for good, through
/// `into_timer` or `into_counter`. It owns the instance's register block; its
/// operations and those of its channels act on it.
pub struct Timer<MODE> {
    instance: TimerInstance,
    regs: TimerRegisters,
    mode: PhantomData<MODE>,
    bitmode: Bitmode,
}

/// These functions may be used by any timer.
impl<MODE> Timer<MODE> {
    /// The physical instance.
    pub closed spec fn spec_instance(&self) -> TimerInstance {
        self.instance
    }

    /// The instance's register block.
    pub closed spec fn spec_regs(&self) -> TimerRegisters {
        self.regs
    }

    /// The bit width last written through this driver.
    pub closed spec fn spec_bitmode(&self) -> Bitmode {
        self.bitmode
    }

    /// The physical instance.
    pub fn instance(&self) -> (r: TimerInstance)
        ensures
            r == self.spec_instance(),
    {
        self.instance
    }

    /// The instance's register block.
    pub fn registers(&self) -> (r: &TimerRegisters)
        ensures
            *r == self.spec_regs(),
    {
        &self.regs
    }

    /// The bit width last written through this driver.
    pub fn bitmode(&self) -> (r: Bitmode)
        ensures
            r == self.spec_bitmode(),
    {
        self.bitmode
    }

    /// Lets `ticks` clock (or count) pulses reach the counter, as the hardware
    /// does on its own.
    pub fn advance(&mut self, ticks: u32)
        ensures
            final(self).spec_instance() == old(self).spec_instance(),
            final(self).spec_bitmode() == old(self).spec_bitmode(),
            final(self).spec_regs() == (TimerRegisters {
                counter: counter_after(old(self).spec_regs(), ticks),
                ..old(self).spec_regs()
            }),
    {
        self.regs.advance(ticks);
    }

    /// Adjusts the bit width of the counter; the timer is stopped first.
    pub fn with_bitmode(self, bitmode: Bitmode) -> (r: Timer<MODE>)
        ensures
            r.spec_instance() == self.spec_instance(),
            r.spec_bitmode() == bitmode,
            r.spec_regs() == (TimerRegisters {
                running: false,
                bitmode: bitmode_bits_of(bitmode),
                ..self.spec_regs()
            }),
    {
        let mut timer = self;
        timer.set_bitmode(&bitmode);
        Timer { instance: timer.instance, regs: timer.regs, mode: PhantomData, bitmode }
    }

    /// Stops the timer, then writes the BITMODE field, which the register block
    /// accepts only while stopped.
    fn set_bitmode(&mut self, bitmode: &Bitmode)
        ensures
            final(self).instance == old(self).instance,
            final(self).bitmode == *bitmode,
            final(self).regs == (TimerRegisters {
                running: false,
                bitmode: bitmode_bits_of(*bitmode),
                ..old(self).regs
            }),
    {
        self.stop();
        let bits = bitmode.bits();
        self.regs.write_bitmode(bits);
        self.bitmode = *bitmode;
    }

    /// Starts the timer.
    pub fn start(&mut self)
        ensures
            final(self).spec_instance() == old(self).spec_instance(),
            final(self).spec_bitmode() == old(self).spec_bitmode(),
            final(self).spec_regs() == old(self).spec_regs().with_running(true),
    {
        self.regs.trigger_start();
    }

    /// Stops the timer.
    pub fn stop(&mut self)
        ensures
            final(self).spec_instance() == old(self).spec_instance(),
            final(self).spec_bitmode() == old(self).spec_bitmode(),
            final(self).spec_regs() == old(self).spec_regs().with_running(false),
    {
        self.regs.trigger_stop();
    }

    /// Shuts the timer down.
    pub fn shutdown(&mut self)
        ensures
            final(self).spec_instance() == old(self).spec_instance(),
            final(self).spec_bitmode() == old(self).spec_bitmode(),
            final(self).spec_regs() == old(self).spec_regs().with_running(false),
    {
        self.regs.trigger_shutdown();
    }

    /// Resets the timer's counter to 0.
    pub fn clear(&mut self)
        ensures
            final(self).spec_instance() == old(self).spec_instance(),
            final(self).spec_bitmode() == old(self).spec_bitmode(),
            final(self).spec_regs() == (TimerRegisters { counter: 0, ..old(self).spec_regs() }),
    {
        self.regs.trigger_clear();
    }

    /// The START task, for use with the peripheral interconnect.
    pub fn task_start(&self) -> (r: Task)
        ensures
            r.address == base_of(self.spec_instance()) + TASKS_START_OFFSET,
    {
        Task { address: self.instance.base_address() + TASKS_START_OFFSET }
    }

    /// The SHUTDOWN task, for use with the peripheral interconnect.
    pub fn task_shutdown(&self) -> (r: Task)
        ensures
            r.address == base_of(self.spec_instance()) + TASKS_SHUTDOWN_OFFSET,
    {
        Task { address: self.instance.base_address() + TASKS_SHUTDOWN_OFFSET }
    }

    /// The STOP task, for use with the peripheral interconnect.
    pub fn task_stop(&self) -> (r: Task)
        ensures
            r.address == base_of(self.spec_instance()) + TASKS_STOP_OFFSET,
    {
        Task { address: self.instance.base_address() + TASKS_STOP_OFFSET }
    }

    /// The CLEAR task, for use with the peripheral interconnect.
    pub fn task_clear(&self) -> (r: Task)
        ensures
            r.address == base_of(self.spec_instance()) + TASKS_CLEAR_OFFSET,
    {
        Task { address: self.instance.base_address() + TASKS_CLEAR_OFFSET }
    }

    /// This timer's `n`th capture/compare channel.
    pub fn cc(&self, n: usize) -> (r: Cc)
        requires
            n < 4,
        ensures
            r.index() == n,
            r.spec_instance() == self.spec_instance(),
    {
        Cc { instance: self.instance, n }
    }
}

/// These functions may only be used on timers (so not counters).
impl Timer<TimerType> {
    /// Changes the timer's frequency; the timer is stopped first.
    pub fn with_frequency(self, frequency: Frequency) -> (r: Timer<TimerType>)
        ensures
            r.spec_instance() == self.spec_instance(),
            r.spec_bitmode() == self.spec_bitmode(),
            r.spec_regs() == (TimerRegisters {
                running: false,
                prescaler: prescaler_of(frequency),
                ..self.spec_regs()
            }),
    {
        let mut timer = self;
        timer.stop();
        let prescaler = Prescaler::from_frequency(frequency);
        timer.regs.write_prescaler(prescaler.bits());
        timer
    }
}

/// These functions may only be used on counters (so not timers).
impl Timer<CounterType> {
    /// The COUNT task, for use with the peripheral interconnect.
    pub fn task_count(&self) -> (r: Task)
        ensures
            r.address == base_of(self.spec_instance()) + TASKS_COUNT_OFFSET,
    {
        Task { address: self.instance.base_address() + TASKS_COUNT_OFFSET }
    }
}

/// These functions may only be used on timers whose mode is not chosen yet.
impl Timer<NotConfigured> {
    /// Binds a timer to a physical instance and its register block, in
    /// `NotConfigured` mode: the timer is stopped, its counter cleared, its
    /// width set to 24 bits, and each channel set to 0 with both of its
    /// shortcuts off.
    pub fn new(instance: TimerInstance, regs: TimerRegisters) -> (r: Timer<NotConfigured>)
        ensures
            r.spec_instance() == instance,
            r.spec_bitmode() == Bitmode::B24,
            !r.spec_regs().running,
            r.spec_regs().counter == 0,
            r.spec_regs().bitmode == bitmode_bits_of(Bitmode::B24),
            r.spec_regs().cc@ == seq![0u32, 0u32, 0u32, 0u32],
            forall|n: int| 0 <= n < 4 ==> !short_clear_on(r.spec_regs().shorts, n) && !short_stop_on(r.spec_regs().shorts, n),
            forall|k: u32| k < 32 && !(k < 4) && !(8 <= k < 12) ==>
                #[trigger] bit_set(r.spec_regs().shorts, k) == bit_set(regs.shorts, k),
            r.spec_regs().mode == regs.mode,
            r.spec_regs().prescaler == regs.prescaler,
            r.spec_regs().inten == regs.inten,
    {
        let mut timer = Timer { instance, regs, mode: PhantomData, bitmode: Bitmode::B24 };
        timer.stop();
        timer.clear();
        timer.set_bitmode(&Bitmode::B24);
        let mut n: usize = 0;
        while n < CC_COUNT
            invariant
                n <= 4,
                timer.instance == instance,
                timer.bitmode == Bitmode::B24,
                !timer.regs.running,
                timer.regs.counter == 0,
                timer.regs.bitmode == bitmode_bits_of(Bitmode::B24),
                forall|i: int| 0 <= i < n ==> timer.regs.cc@[i] == 0u32,
                forall|i: int| 0 <= i < n ==> !short_clear_on(timer.regs.shorts, i) && !short_stop_on(timer.regs.shorts, i),
                forall|k: u32| k < 32 && !(k < n) && !(8 <= k < 8 + n) ==>
                    #[trigger] bit_set(timer.regs.shorts, k) == bit_set(regs.shorts, k),
                timer.regs.mode == regs.mode,
                timer.regs.prescaler == regs.prescaler,
                timer.regs.inten == regs.inten,
            decreases 4 - n,
        {
            let ghost s0 = timer.regs.shorts;
            let cc = timer.cc(n);
            cc.unshort_compare_clear(&mut timer);
            let ghost s1 = timer.regs.shorts;
            cc.unshort_compare_stop(&mut timer);
            cc.write(&mut timer, 0);
            assert forall|i: int| 0 <= i <= n implies !short_clear_on(timer.regs.shorts, i)
                && !short_stop_on(timer.regs.shorts, i) by {
                let s2 = timer.regs.shorts;
                assert(bit_set(s1, i as u32) == (i != n && bit_set(s0, i as u32)));
                assert(bit_set(s1, (8 + i) as u32) == (8 + i != n && bit_set(s0, (8 + i) as u32)));
                assert(bit_set(s2, i as u32) == (i != 8 + n && bit_set(s1, i as u32)));
                assert(bit_set(s2, (8 + i) as u32) == (8 + i != 8 + n && bit_set(s1, (8 + i) as u32)));
                if i < n {
                    assert(!short_clear_on(s0, i) && !short_stop_on(s0, i));
                }
            }
            n = n + 1;
        }
        assert(timer.regs.cc@ =~= seq![0u32, 0u32, 0u32, 0u32]);
        timer
    }

    /// Puts the timer in low-power counter mode, for good.
    pub fn into_counter(self) -> (r: Timer<CounterType>)
        ensures
            r.spec_instance() == self.spec_instance(),
            r.spec_bitmode() == self.spec_bitmode(),
            r.spec_regs() == (TimerRegisters { mode: MODE_LOW_POWER_COUNTER, ..self.spec_regs() }),
    {
        let mut regs = self.regs;
        regs.write_mode(MODE_LOW_POWER_COUNTER);
        Timer { mode: PhantomData, instance: self.instance, regs, bitmode: self.bitmode }
    }

    /// Puts the timer in timer mode, for good.
    pub fn into_timer(self) -> (r: Timer<TimerType>)
        ensures
            r.spec_instance() == self.spec_instance(),
            r.spec_bitmode() == self.spec_bitmode(),
            r.spec_regs() == (TimerRegisters { mode: MODE_TIMER, ..self.spec_regs() }),
    {
        let mut regs = self.regs;
        regs.write_mode(MODE_TIMER);
        Timer { mode: PhantomData, instance: self.instance, regs, bitmode: self.bitmode }
    }
}

/// A timer's capture/compare (CC) channel.
///
/// The channel holds a 32-bit value: either a capture of the timer's counter, or
/// the value for the timer to compare against. Its COMPARE event fires when the
/// counter reaches that value. The handle names the channel of one timer
/// instance; its operations take that timer, which owns the register block.
///
/// A handle is given up with `release`, which disables its COMPARE interrupt;
/// the caller must call it, since a handle that is simply dropped leaves the
/// interrupt as it was.
pub struct Cc {
    instance: TimerInstance,
    n: usize,
}

impl Cc {
    /// The channel's index.
    pub closed spec fn index(&self) -> usize {
        self.n
    }

    /// The physical timer instance that the channel belongs to.
    pub closed spec fn spec_instance(&self) -> TimerInstance {
        self.instance
    }

    /// The channel's index is one of the four channels.
    pub open spec fn wf(&self) -> bool {
        self.index() < 4
    }

    /// The channel is one of `timer`'s.
    pub open spec fn of<MODE>(&self, timer: Timer<MODE>) -> bool {
        self.wf() && self.spec_instance() == timer.spec_instance()
    }

    /// The value stored in the channel.
    pub fn read<MODE>(&self, timer: &Timer<MODE>) -> (r: u32)
        requires
            self.of(*timer),
        ensures
            r == timer.spec_regs().cc@[self.index() as int],
    {
        timer.regs.cc[self.n]
    }

    /// Stores `value` in the channel; COMPARE fires when the counter reaches it.
    pub fn write<MODE>(&self, timer: &mut Timer<MODE>, value: u32)
        requires
            self.of(*old(timer)),
        ensures
            final(timer).spec_instance() == old(timer).spec_instance(),
            final(timer).spec_bitmode() == old(timer).spec_bitmode(),
            final(timer).spec_regs().cc@ == old(timer).spec_regs().cc@.update(self.index() as int, value),
            final(timer).spec_regs() == (TimerRegisters { cc: final(timer).spec_regs().cc, ..old(timer).spec_regs() }),
    {
        timer.regs.write_cc(self.n, value);
    }

    /// Captures the counter's current value in the channel, and returns it.
    pub fn capture<MODE>(&self, timer: &mut Timer<MODE>) -> (r: u32)
        requires
            self.of(*old(timer)),
        ensures
            r == old(timer).spec_regs().counter,
            final(timer).spec_instance() == old(timer).spec_instance(),
            final(timer).spec_bitmode() == old(timer).spec_bitmode(),
            final(timer).spec_regs().cc@ == old(timer).spec_regs().cc@.update(self.index() as int, r),
            final(timer).spec_regs() == (TimerRegisters { cc: final(timer).spec_regs().cc, ..old(timer).spec_regs() }),
    {
        timer.regs.trigger_capture(self.n);
        self.read(timer)
    }

    /// The CAPTURE task of this channel, for use with the peripheral interconnect.
    pub fn task_capture(&self) -> (r: Task)
        requires
            self.wf(),
        ensures
            r.address == base_of(self.spec_instance()) + TASKS_CAPTURE_OFFSET + 4 * self.index(),
    {
        let offset: u32 = 4 * (self.n as u32);
        Task { address: self.instance.base_address() + TASKS_CAPTURE_OFFSET + offset }
    }

    /// The COMPARE event of this channel, for use with the peripheral interconnect.
    pub fn event_compare(&self) -> (r: Event)
        requires
            self.wf(),
        ensures
            r.address == base_of(self.spec_instance()) + EVENTS_COMPARE_OFFSET + 4 * self.index(),
    {
        let offset: u32 = 4 * (self.n as u32);
        Event { address: self.instance.base_address() + EVENTS_COMPARE_OFFSET + offset }
    }

    /// Turns on the shortcut from this channel's COMPARE event to the CLEAR task.
    pub fn short_compare_clear<MODE>(&self, timer: &mut Timer<MODE>)
        requires
            self.of(*old(timer)),
        ensures
            final(timer).spec_instance() == old(timer).spec_instance(),
            final(timer).spec_bitmode() == old(timer).spec_bitmode(),
            forall|k: u32| k < 32 ==> #[trigger] bit_set(final(timer).spec_regs().shorts, k) ==
                (k == self.index() || bit_set(old(timer).spec_regs().shorts, k)),
            final(timer).spec_regs() == (TimerRegisters { shorts: final(timer).spec_regs().shorts, ..old(timer).spec_regs() }),
    {
        let shorts = timer.regs.shorts | (1u32 << (self.n as u32));
        timer.regs.write_shorts(shorts);
        assert forall|k: u32| k < 32 implies #[trigger] bit_set(timer.regs.shorts, k) ==
            (k == self.index() || bit_set(old(timer).regs.shorts, k)) by {
            lemma_set_bit(old(timer).regs.shorts, self.n as u32, k);
        }
    }

    /// Turns off the shortcut from this channel's COMPARE event to the CLEAR task.
    pub fn unshort_compare_clear<MODE>(&self, timer: &mut Timer<MODE>)
        requires
            self.of(*old(timer)),
        ensures
            final(timer).spec_instance() == old(timer).spec_instance(),
            final(timer).spec_bitmode() == old(timer).spec_bitmode(),
            forall|k: u32| k < 32 ==> #[trigger] bit_set(final(timer).spec_regs().shorts, k) ==
                (k != self.index() && bit_set(old(timer).spec_regs().shorts, k)),
            final(timer).spec_regs() == (TimerRegisters { shorts: final(timer).spec_regs().shorts, ..old(timer).spec_regs() }),
    {
        let shorts = timer.regs.shorts & !(1u32 << (self.n as u32));
        timer.regs.write_shorts(shorts);
        assert forall|k: u32| k < 32 implies #[trigger] bit_set(timer.regs.shorts, k) ==
            (k != self.index() && bit_set(old(timer).regs.shorts, k)) by {
            lemma_clear_bit(old(timer).regs.shorts, self.n as u32, k);
        }
    }

    /// Turns on the shortcut from this channel's COMPARE event to the STOP task.
    pub fn short_compare_stop<MODE>(&self, timer: &mut Timer<MODE>)
        requires
            self.of(*old(timer)),
        ensures
            final(timer).spec_instance() == old(timer).spec_instance(),
            final(timer).spec_bitmode() == old(timer).spec_bitmode(),
            forall|k: u32| k < 32 ==> #[trigger] bit_set(final(timer).spec_regs().shorts, k) ==
                (k == 8 + self.index() || bit_set(old(timer).spec_regs().shorts, k)),
            final(timer).spec_regs() == (TimerRegisters { shorts: final(timer).spec_regs().shorts, ..old(timer).spec_regs() }),
    {
        let shorts = timer.regs.shorts | (1u32 << (8 + self.n as u32));
        timer.regs.write_shorts(shorts);
        assert forall|k: u32| k < 32 implies #[trigger] bit_set(timer.regs.shorts, k) ==
            (k == 8 + self.index() || bit_set(old(timer).regs.shorts, k)) by {
            lemma_set_bit(old(timer).regs.shorts, (8 + self.n) as u32, k);
        }
    }

    /// Turns off the shortcut from this channel's COMPARE event to the STOP task.
    pub fn unshort_compare_stop<MODE>(&self, timer: &mut Timer<MODE>)
        requires
            self.of(*old(timer)),
        ensures
            final(timer).spec_instance() == old(timer).spec_instance(),
            final(timer).spec_bitmode() == old(timer).spec_bitmode(),
            forall|k: u32| k < 32 ==> #[trigger] bit_set(final(timer).spec_regs().shorts, k) ==
                (k != 8 + self.index() && bit_set(old(timer).spec_regs().shorts, k)),
            final(timer).spec_regs() == (TimerRegisters { shorts: final(timer).spec_regs().shorts, ..old(timer).spec_regs() }),
    {
        let shorts = timer.regs.shorts & !(1u32 << (8 + self.n as u32));
        timer.regs.write_shorts(shorts);
        assert forall|k: u32| k < 32 implies #[trigger] bit_set(timer.regs.shorts, k) ==
            (k != 8 + self.index() && bit_set(old(timer).regs.shorts, k)) by {
            lemma_clear_bit(old(timer).regs.shorts, (8 + self.n) as u32, k);
        }
    }

    /// Gives the channel up, consuming the handle: its COMPARE interrupt is
    /// disabled, and no other interrupt enable changes.
    pub fn release<MODE>(self, timer: &mut Timer<MODE>)
        requires
            self.of(*old(timer)),
        ensures
            final(timer).spec_instance() == old(timer).spec_instance(),
            final(timer).spec_bitmode() == old(timer).spec_bitmode(),
            forall|k: u32| k < 32 ==> #[trigger] bit_set(final(timer).spec_regs().inten, k) ==
                (k != 16 + self.index() && bit_set(old(timer).spec_regs().inten, k)),
            final(timer).spec_regs() == (TimerRegisters { inten: final(timer).spec_regs().inten, ..old(timer).spec_regs() }),
    {
        let mask: u32 = 1u32 << (16 + self.n as u32);
        timer.regs.write_intenclr(mask);
        assert forall|k: u32| k < 32 implies #[trigger] bit_set(timer.regs.inten, k) ==
            (k != 16 + self.index() && bit_set(old(timer).regs.inten, k)) by {
            lemma_clear_bit(old(timer).regs.inten, (16 + self.n) as u32, k);
        }
    }
}

/// A value written to a channel is the value that a read of it then returns.
pub proof fn write_then_read(cc: Cc, before: TimerRegisters, after: TimerRegisters, value: u32)
    requires
        cc.wf(),
        after.cc@ == before.cc@.update(cc.index() as int, value),
    ensures
        after.cc@[cc.index() as int] == value,
{
}

/// While a running counter advances without wrapping, a capture taken later is
/// never below the counter's value at an earlier moment.
pub proof fn capture_not_below_earlier(earlier: TimerRegisters, ticks: u32)
    requires
        earlier.running,
        earlier.counter + ticks < counter_modulus(earlier.bitmode),
    ensures
        counter_after(earlier, ticks) >= earlier.counter,
{
}

/// Releasing two different channels of one timer, one after the other, disables
/// the COMPARE interrupts of those two channels and keeps every other enable bit.
pub proof fn releases_keep_other_interrupts(a: Cc, b: Cc, inten0: u32, inten1: u32, inten2: u32)
    requires
        a.wf(),
        b.wf(),
        a.index() != b.index(),
        forall|k: u32| k < 32 ==> #[trigger] bit_set(inten1, k) == (k != 16 + a.index() && bit_set(inten0, k)),
        forall|k: u32| k < 32 ==> #[trigger] bit_set(inten2, k) == (k != 16 + b.index() && bit_set(inten1, k)),
    ensures
        !compare_interrupt_on(inten2, a.index() as int),
        !compare_interrupt_on(inten2, b.index() as int),
        forall|k: u32| k < 32 && k != 16 + a.index() && k != 16 + b.index() ==>
            #[trigger] bit_set(inten2, k) == bit_set(inten0, k),
{
    assert(bit_set(inten1, (16 + a.index()) as u32) == false);
    assert(bit_set(inten2, (16 + a.index()) as u32) == false);
    assert(bit_set(inten2, (16 + b.index()) as u32) == false);
    assert forall|k: u32| k < 32 && k != 16 + a.index() && k != 16 + b.index() implies
        #[trigger] bit_set(inten2, k) == bit_set(inten0, k) by {
        assert(bit_set(inten1, k) == bit_set(inten0, k));
    }
}

} // verus!
