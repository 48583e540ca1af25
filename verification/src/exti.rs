//! External-interrupt controller driver: line enables and edge
//! triggers.

use vstd::prelude::*;

use crate::volatile_cell::VolatileCell;

verus! {

/// How an external interrupt line is triggered.
#[derive(Clone, Copy, PartialEq, Eq, Structural, Debug)]
pub enum TriggerMode {
    RisingEdge,
    FallingEdge,
    EitherEdge,
}

/// One signal edge.
#[derive(Clone, Copy, PartialEq, Eq, Structural, Debug)]
pub enum EdgeType {
    Rising,
    Falling,
}

/// Image of the external-interrupt register block.
#[derive(Clone, Copy, PartialEq, Eq, Structural, Debug)]
pub struct Registers {
    pub imr: VolatileCell,
    pub emr: VolatileCell,
    pub rtsr: VolatileCell,
    pub ftsr: VolatileCell,
    pub swier: VolatileCell,
    pub pr: VolatileCell,
}

/// The plain values behind a `Registers` image.
pub struct RegistersView {
    pub imr: u32,
    pub emr: u32,
    pub rtsr: u32,
    pub ftsr: u32,
    pub swier: u32,
    pub pr: u32,
}

impl View for Registers {
    type V = RegistersView;

    open spec fn view(&self) -> RegistersView {
        RegistersView {
            imr: self.imr@,
            emr: self.emr@,
            rtsr: self.rtsr@,
            ftsr: self.ftsr@,
            swier: self.swier@,
            pr: self.pr@,
        }
    }
}

/// The external-interrupt controller.
#[derive(Clone, Copy, PartialEq, Eq, Structural, Debug)]
pub struct Exti {
    pub regs: Registers,
}

impl Exti {
    /// A controller image with every register at zero.
    pub fn new() -> (r: Exti)
        ensures
            r.regs@ == (RegistersView { imr: 0, emr: 0, rtsr: 0, ftsr: 0, swier: 0, pr: 0 }),
    {
        Exti {
            regs: Registers {
                imr: VolatileCell::new(0),
                emr: VolatileCell::new(0),
                rtsr: VolatileCell::new(0),
                ftsr: VolatileCell::new(0),
                swier: VolatileCell::new(0),
                pr: VolatileCell::new(0),
            },
        }
    }
}

/// Unmask the lines of `mask` for interrupts and events.
pub fn enable(exti: &mut Exti, mask: u32)
    ensures
        final(exti).regs@ == (RegistersView {
            imr: old(exti).regs@.imr | mask,
            emr: old(exti).regs@.emr | mask,
            ..old(exti).regs@
        }),
{
    exti.regs.imr.check(mask);
    exti.regs.emr.check(mask);
}

/// Mask the lines of `mask` for interrupts and events.
pub fn disable(exti: &mut Exti, mask: u32)
    ensures
        final(exti).regs@ == (RegistersView {
            imr: old(exti).regs@.imr & !mask,
            emr: old(exti).regs@.emr & !mask,
            ..old(exti).regs@
        }),
{
    exti.regs.imr.uncheck(mask);
    exti.regs.emr.uncheck(mask);
}

/// Trigger the lines of `mask` on the rising edge only.
pub fn trigger_on_rising(exti: &mut Exti, mask: u32)
    ensures
        final(exti).regs@ == (RegistersView {
            ftsr: old(exti).regs@.ftsr & !mask,
            rtsr: old(exti).regs@.rtsr | mask,
            ..old(exti).regs@
        }),
{
    exti.regs.ftsr.uncheck(mask);
    exti.regs.rtsr.check(mask);
}

/// Trigger the lines of `mask` on the falling edge only.
pub fn trigger_on_falling(exti: &mut Exti, mask: u32)
    ensures
        final(exti).regs@ == (RegistersView {
            ftsr: old(exti).regs@.ftsr | mask,
            rtsr: old(exti).regs@.rtsr & !mask,
            ..old(exti).regs@
        }),
{
    exti.regs.ftsr.check(mask);
    exti.regs.rtsr.uncheck(mask);
}

/// Trigger the lines of `mask` on both edges.
pub fn trigger_on_both(exti: &mut Exti, mask: u32)
    ensures
        final(exti).regs@ == (RegistersView {
            ftsr: old(exti).regs@.ftsr | mask,
            rtsr: old(exti).regs@.rtsr | mask,
            ..old(exti).regs@
        }),
{
    exti.regs.ftsr.check(mask);
    exti.regs.rtsr.check(mask);
}

/// The trigger registers that `set_trigger` leaves behind.
pub open spec fn spec_set_trigger(v: RegistersView, mask: u32, mode: TriggerMode) -> RegistersView {
    match mode {
        TriggerMode::RisingEdge => RegistersView {
            ftsr: v.ftsr & !mask,
            rtsr: v.rtsr | mask,
            ..v
        },
        TriggerMode::FallingEdge => RegistersView {
            ftsr: v.ftsr | mask,
            rtsr: v.rtsr & !mask,
            ..v
        },
        TriggerMode::EitherEdge => RegistersView { ftsr: v.ftsr | mask, rtsr: v.rtsr | mask, ..v },
    }
}

/// Select the trigger edge for the lines of `mask`.
pub fn set_trigger(exti: &mut Exti, mask: u32, mode: TriggerMode)
    ensures
        final(exti).regs@ == spec_set_trigger(old(exti).regs@, mask, mode),
{
    match mode {
        TriggerMode::RisingEdge => trigger_on_rising(exti, mask),
        TriggerMode::FallingEdge => trigger_on_falling(exti, mask),
        TriggerMode::EitherEdge => trigger_on_both(exti, mask),
    }
}

/// Whether every line of `mask` is unmasked for both interrupts and
/// events (true when `mask` overlaps both mask registers).
pub fn is_enabled(exti: &Exti, mask: u32) -> (r: bool)
    ensures
        r == (exti.regs@.imr & mask != 0 && exti.regs@.emr & mask != 0),
{
    exti.regs.imr.test(mask) && exti.regs.emr.test(mask)
}

/// Whether any line of `mask` has its pending flag set.
pub fn get_flag_status(exti: &Exti, mask: u32) -> (r: bool)
    ensures
        r == (exti.regs@.pr & mask != 0),
{
    exti.regs.pr.test(mask)
}

/// Acknowledge the pending lines of `mask` (the pending register is
/// written with their bits set).
pub fn reset_flag(exti: &mut Exti, mask: u32)
    ensures
        final(exti).regs@ == (RegistersView { pr: old(exti).regs@.pr | mask, ..old(exti).regs@ }),
{
    exti.regs.pr.check(mask);
}

} // verus!
