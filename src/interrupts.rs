//! Interrupt lines. On this device interrupts are distinct from wake-up sources.
use vstd::prelude::*;
use crate::register::Register;

verus! {

/// The `INT1` pin.
#[derive(Clone, Copy, Debug)]
pub struct Interrupt1;

/// The `INT2` pin.
#[derive(Clone, Copy, Debug)]
pub struct Interrupt2;

/// The registers and bits that serve one interrupt pin.
pub trait Interrupt {
    fn ctrl_reg() -> Register;

    fn ths_reg() -> Register;

    fn src_reg() -> Register;

    fn duration_reg() -> Register;

    fn lir_int_bit() -> u8;

    fn d4d_int_bit() -> u8;
}

/// Configure which events on which axes trigger an interrupt.
#[derive(Clone, Copy, Debug, Default)]
pub struct InterruptConfig {
    pub z_axis_high: bool,
    pub z_axis_low: bool,
    pub y_axis_high: bool,
    pub y_axis_low: bool,
    pub x_axis_high: bool,
    pub x_axis_low: bool,
}

} // verus!
