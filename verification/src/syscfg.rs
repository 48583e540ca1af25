//! System-configuration driver: routing of external-interrupt lines to
//! ports.

use vstd::prelude::*;

use crate::volatile_cell::VolatileCell;

verus! {

/// Image of the system-configuration register block.  The four
/// external-interrupt routing registers are held as separate cells.
#[derive(Clone, Copy, PartialEq, Eq, Structural, Debug)]
pub struct Registers {
    pub memrm: VolatileCell,
    pub pmc: VolatileCell,
    pub exticr0: VolatileCell,
    pub exticr1: VolatileCell,
    pub exticr2: VolatileCell,
    pub exticr3: VolatileCell,
    pub cmpcr: VolatileCell,
}

/// The plain values behind a `Registers` image.
pub struct RegistersView {
    pub memrm: u32,
    pub pmc: u32,
    pub exticr0: u32,
    pub exticr1: u32,
    pub exticr2: u32,
    pub exticr3: u32,
    pub cmpcr: u32,
}

impl View for Registers {
    type V = RegistersView;

    open spec fn view(&self) -> RegistersView {
        RegistersView {
            memrm: self.memrm@,
            pmc: self.pmc@,
            exticr0: self.exticr0@,
            exticr1: self.exticr1@,
            exticr2: self.exticr2@,
            exticr3: self.exticr3@,
            cmpcr: self.cmpcr@,
        }
    }
}

impl Registers {
    /// A register image with every register at zero.
    pub fn new() -> (r: Registers)
        ensures
            r@ == (RegistersView {
                memrm: 0,
                pmc: 0,
                exticr0: 0,
                exticr1: 0,
                exticr2: 0,
                exticr3: 0,
                cmpcr: 0,
            }),
    {
        Registers {
            memrm: VolatileCell::new(0),
            pmc: VolatileCell::new(0),
            exticr0: VolatileCell::new(0),
            exticr1: VolatileCell::new(0),
            exticr2: VolatileCell::new(0),
            exticr3: VolatileCell::new(0),
            cmpcr: VolatileCell::new(0),
        }
    }

    /// The routing register holding external-interrupt line `exti`.
    pub open spec fn spec_exticr(&self, idx: int) -> u32 {
        if idx == 0 {
            self.exticr0@
        } else if idx == 1 {
            self.exticr1@
        } else if idx == 2 {
            self.exticr2@
        } else {
            self.exticr3@
        }
    }
}

/// The routing registers that `select_exti_source` leaves behind: in
/// the register of line `exti`, the line's four-bit field is replaced
/// by `port`.
pub open spec fn spec_select_exti_source(v: RegistersView, exti: u16, port: u16) -> RegistersView {
    let shift = ((exti as u32) % 4) * 4;
    let idx = (exti as int) / 4;
    if idx == 0 {
        RegistersView {
            exticr0: (v.exticr0 & !(0x0Fu32 << shift)) | ((port as u32) << shift),
            ..v
        }
    } else if idx == 1 {
        RegistersView {
            exticr1: (v.exticr1 & !(0x0Fu32 << shift)) | ((port as u32) << shift),
            ..v
        }
    } else if idx == 2 {
        RegistersView {
            exticr2: (v.exticr2 & !(0x0Fu32 << shift)) | ((port as u32) << shift),
            ..v
        }
    } else {
        RegistersView {
            exticr3: (v.exticr3 & !(0x0Fu32 << shift)) | ((port as u32) << shift),
            ..v
        }
    }
}

/// Route external-interrupt line `exti` to the port with index `port`.
pub fn select_exti_source(regs: &mut Registers, exti: u16, port: u16)
    requires
        exti < 16,
    ensures
        final(regs)@ == spec_select_exti_source(old(regs)@, exti, port),
{
    let shift: u32 = ((exti as u32) % 4) * 4;
    let idx: usize = (exti as usize) / 4;
    if idx == 0 {
        let val = regs.exticr0.get();
        regs.exticr0.set((val & !(0x0Fu32 << shift)) | ((port as u32) << shift));
    } else if idx == 1 {
        let val = regs.exticr1.get();
        regs.exticr1.set((val & !(0x0Fu32 << shift)) | ((port as u32) << shift));
    } else if idx == 2 {
        let val = regs.exticr2.get();
        regs.exticr2.set((val & !(0x0Fu32 << shift)) | ((port as u32) << shift));
    } else {
        let val = regs.exticr3.get();
        regs.exticr3.set((val & !(0x0Fu32 << shift)) | ((port as u32) << shift));
    }
}

/// Read back which port external-interrupt line `exti` is routed to.
/// The read clears the field mask rather than isolating it, and shifts
/// by the line index rather than the field offset; the contract states
/// exactly that register access.
pub fn get_exti_source(regs: &Registers, exti: u16) -> (r: u16)
    requires
        exti < 16,
    ensures
        r == (((regs.spec_exticr((exti as int) / 4) & !(0b1111u32 << ((exti as u32) % 4))) >> ((
        exti as u32) % 4)) as u16),
{
    let idx: usize = (exti as usize) / 4;
    let shift: u32 = (exti as u32) % 4;
    let reg = if idx == 0 {
        &regs.exticr0
    } else if idx == 1 {
        &regs.exticr1
    } else if idx == 2 {
        &regs.exticr2
    } else {
        &regs.exticr3
    };
    reg.mask_get(0b1111u32 << shift, shift) as u16
}

} // verus!
