//! Peripheral control for two microcontroller drivers: a hardware timer/counter with
//! four capture/compare channels, and an on-chip flash programming engine.
//!
//! Both drivers act on register models that hold the peripheral's state as plain
//! values, so that every operation carries a contract over that state.
pub mod bits;
pub mod timer_registers;
pub mod timer;
pub mod flash_registers;
pub mod flash;
