use embassy_periph::timer::{
    Bitmode, CounterType, Frequency, NotConfigured, Prescaler, Timer, TimerInstance, TimerType,
};
use embassy_periph::timer_registers::{TimerRegisters, MODE_LOW_POWER_COUNTER, MODE_TIMER};

fn dirty_registers() -> TimerRegisters {
    let mut regs = TimerRegisters::new();
    regs.running = true;
    regs.counter = 1234;
    regs.cc = [7, 8, 9, 10];
    regs.shorts = 0xFFFF_FFFF;
    regs.inten = 0x000F_0000;
    regs
}

fn bind_timer(instance: TimerInstance) -> Timer<TimerType> {
    Timer::new(instance, TimerRegisters::new()).into_timer()
}

#[test]
fn bind_zeroes_channels_and_disables_shortcuts() {
    let timer: Timer<NotConfigured> = Timer::new(TimerInstance::TIMER0, dirty_registers());
    for n in 0..4 {
        assert_eq!(timer.cc(n).read(&timer), 0);
    }
    let regs = timer.registers();
    assert_eq!(regs.shorts, 0xFFFF_F0F0);
    assert!(!regs.running);
    assert_eq!(regs.counter, 0);
    assert_eq!(regs.inten, 0x000F_0000);
    assert_eq!(regs.bitmode, 2);
    assert_eq!(timer.bitmode(), Bitmode::B24);
    assert_eq!(timer.instance(), TimerInstance::TIMER0);
}

#[test]
fn write_then_read_round_trips_on_every_channel() {
    let mut timer: Timer<NotConfigured> = Timer::new(TimerInstance::TIMER1, TimerRegisters::new());
    for n in 0..4 {
        for v in [0u32, 1, 0xDEAD_BEEF, u32::MAX] {
            let cc = timer.cc(n);
            cc.write(&mut timer, v);
            assert_eq!(cc.read(&timer), v);
        }
    }
}

#[test]
fn write_touches_only_its_channel() {
    let mut timer: Timer<NotConfigured> = Timer::new(TimerInstance::TIMER0, TimerRegisters::new());
    timer.cc(2).write(&mut timer, 42);
    assert_eq!(timer.registers().cc, [0, 0, 42, 0]);
}

#[test]
fn capture_is_not_below_an_earlier_capture() {
    let mut timer = bind_timer(TimerInstance::TIMER0).with_bitmode(Bitmode::B32);
    timer.start();
    timer.advance(100);
    let cc = timer.cc(0);
    let first = cc.capture(&mut timer);
    assert_eq!(first, 100);
    timer.advance(50);
    let second = cc.capture(&mut timer);
    assert_eq!(second, 150);
    assert!(second >= first);
    assert_eq!(cc.read(&timer), 150);
}

#[test]
fn stopped_counter_does_not_advance() {
    let mut timer = bind_timer(TimerInstance::TIMER0);
    timer.advance(10);
    assert_eq!(timer.cc(1).capture(&mut timer), 0);
}

#[test]
fn counter_wraps_at_its_width() {
    let mut timer = Timer::new(TimerInstance::TIMER0, TimerRegisters::new()).with_bitmode(Bitmode::B8);
    timer.start();
    timer.advance(300);
    assert_eq!(timer.registers().counter, 44);
}

#[test]
fn clear_resets_counter() {
    let mut timer = bind_timer(TimerInstance::TIMER2);
    timer.start();
    timer.advance(9);
    timer.clear();
    assert_eq!(timer.registers().counter, 0);
    assert!(timer.registers().running);
    timer.stop();
    assert!(!timer.registers().running);
    timer.start();
    timer.shutdown();
    assert!(!timer.registers().running);
}

#[test]
fn into_counter_selects_low_power_counter_mode() {
    let timer: Timer<CounterType> = Timer::new(TimerInstance::TIMER1, TimerRegisters::new()).into_counter();
    assert_eq!(timer.registers().mode, MODE_LOW_POWER_COUNTER);
    assert_eq!(timer.registers().mode, 2);
    assert_eq!(timer.task_count().address, 0x4000_9008);
}

#[test]
fn into_timer_selects_timer_mode() {
    let mut regs = TimerRegisters::new();
    regs.mode = 2;
    let timer: Timer<TimerType> = Timer::new(TimerInstance::TIMER1, regs).into_timer();
    assert_eq!(timer.registers().mode, MODE_TIMER);
    assert_eq!(timer.registers().mode, 0);
}

#[test]
fn with_frequency_stops_and_sets_prescaler() {
    let mut timer = bind_timer(TimerInstance::TIMER0);
    timer.start();
    let timer = timer.with_frequency(Frequency::F31250Hz);
    assert!(!timer.registers().running);
    assert_eq!(timer.registers().prescaler, 9);
    let timer = timer.with_frequency(Frequency::F16MHz);
    assert_eq!(timer.registers().prescaler, 0);
    let timer = timer.with_frequency(Frequency::F500kHz);
    assert_eq!(timer.registers().prescaler, 5);
}

#[test]
fn prescaler_values() {
    assert_eq!(Prescaler::from_frequency(Frequency::F1MHz).bits(), 4);
    assert_eq!(Prescaler::from_frequency(Frequency::F62500Hz).bits(), 8);
    assert_eq!(Frequency::F8MHz.prescaler(), 1);
}

#[test]
fn with_bitmode_stops_and_is_idempotent() {
    let mut timer: Timer<CounterType> = Timer::new(TimerInstance::TIMER0, TimerRegisters::new()).into_counter();
    timer.start();
    let timer = timer.with_bitmode(Bitmode::B8);
    assert!(!timer.registers().running);
    assert_eq!(timer.registers().bitmode, 1);
    assert_eq!(timer.bitmode(), Bitmode::B8);
    let once = timer.registers().bitmode;
    let timer = timer.with_bitmode(Bitmode::B8);
    assert_eq!(timer.registers().bitmode, once);
    let timer = timer.with_bitmode(Bitmode::B32);
    assert_eq!(timer.registers().bitmode, 3);
    let timer = timer.with_bitmode(Bitmode::B16);
    assert_eq!(timer.registers().bitmode, 0);
    let timer = timer.with_bitmode(Bitmode::B24);
    assert_eq!(timer.registers().bitmode, 2);
}

#[test]
fn task_addresses() {
    let timer: Timer<NotConfigured> = Timer::new(TimerInstance::TIMER2, TimerRegisters::new());
    assert_eq!(timer.task_start().address, 0x4000_A000);
    assert_eq!(timer.task_stop().address, 0x4000_A004);
    assert_eq!(timer.task_clear().address, 0x4000_A00C);
    assert_eq!(timer.task_shutdown().address, 0x4000_A010);
    assert_eq!(timer.cc(3).task_capture().address, 0x4000_A04C);
    assert_eq!(timer.cc(1).event_compare().address, 0x4000_A144);
    assert_eq!(TimerInstance::TIMER0.base_address(), 0x4000_8000);
}

#[test]
fn shortcuts_touch_only_their_bits() {
    let mut timer: Timer<NotConfigured> = Timer::new(TimerInstance::TIMER0, TimerRegisters::new());
    let cc = timer.cc(2);
    cc.short_compare_clear(&mut timer);
    assert_eq!(timer.registers().shorts, 1 << 2);
    cc.short_compare_stop(&mut timer);
    assert_eq!(timer.registers().shorts, (1 << 2) | (1 << 10));
    timer.cc(1).short_compare_stop(&mut timer);
    cc.unshort_compare_clear(&mut timer);
    assert_eq!(timer.registers().shorts, (1 << 9) | (1 << 10));
    cc.unshort_compare_stop(&mut timer);
    assert_eq!(timer.registers().shorts, 1 << 9);
}

#[test]
fn releasing_two_channels_clears_only_their_interrupts() {
    let mut regs = TimerRegisters::new();
    regs.inten = 0xFFFF_FFFF;
    let mut timer: Timer<NotConfigured> = Timer::new(TimerInstance::TIMER0, regs);
    let c0 = timer.cc(0);
    let c1 = timer.cc(1);
    c0.release(&mut timer);
    assert_eq!(timer.registers().inten, 0xFFFE_FFFF);
    c1.release(&mut timer);
    assert_eq!(timer.registers().inten, 0xFFFC_FFFF);
}

#[test]
fn release_leaves_other_channels_enabled() {
    let mut regs = TimerRegisters::new();
    regs.write_intenset(0x000F_0000);
    let mut timer: Timer<NotConfigured> = Timer::new(TimerInstance::TIMER1, regs);
    timer.cc(3).release(&mut timer);
    assert_eq!(timer.registers().inten, 0x0007_0000);
}
