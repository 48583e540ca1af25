//! Power-control driver: voltage regulator output scaling.

use vstd::prelude::*;

use crate::volatile_cell::VolatileCell;

verus! {

pub const CR_VOS: u32 = 1 << 14;
pub const CR_LPRUN: u32 = 1 << 14;
pub const CR_FWU: u32 = 1 << 10;
pub const CR_FPDS: u32 = 1 << 9;
pub const CR_ULP: u32 = 1 << 9;
pub const CR_DBP: u32 = 1 << 8;
pub const CR_PVDE: u32 = 1 << 4;
pub const CR_CSBF: u32 = 1 << 3;
pub const CR_CWUF: u32 = 1 << 2;
pub const CR_PDDS: u32 = 1 << 1;
pub const CR_LPDS: u32 = 1 << 0;
pub const CR_LPSDSR: u32 = 1 << 0;

pub const CR_VOS_LSB: u32 = 11;
pub const CR_VOS_RANGE1: u32 = 0x1 << CR_VOS_LSB;
pub const CR_VOS_RANGE2: u32 = 0x2 << CR_VOS_LSB;
pub const CR_VOS_RANGE3: u32 = 0x3 << CR_VOS_LSB;
pub const CR_VOS_MASK: u32 = 0b11 << CR_VOS_LSB;

pub const CSR_VOSRDY: u32 = 1 << 14;
pub const CSR_BRE: u32 = 1 << 9;
pub const CSR_EWUP2: u32 = 1 << 9;
pub const CSR_EWUP: u32 = 1 << 8;
pub const CSR_EWUP1: u32 = CSR_EWUP;
pub const CSR_REGLPF: u32 = 1 << 5;
pub const CSR_VOSF: u32 = 1 << 4;
pub const CSR_VREFINTRDYF: u32 = 1 << 3;
pub const CSR_BRR: u32 = 1 << 3;
pub const CSR_PVDO: u32 = 1 << 2;
pub const CSR_SBF: u32 = 1 << 1;
pub const CSR_WUF: u32 = 1 << 0;

/// Voltage regulator output range; range 1 supports the highest
/// operating frequencies, range 3 the lowest.
#[derive(Clone, Copy, PartialEq, Eq, Structural, Debug)]
pub enum VOSScale {
    Scale1,
    Scale2,
    Scale3,
}

impl VOSScale {
    /// The value written into the regulator's range field.
    pub open spec fn spec_range_bits(self) -> u32 {
        match self {
            VOSScale::Scale1 => CR_VOS_RANGE1,
            VOSScale::Scale2 => CR_VOS_RANGE2,
            VOSScale::Scale3 => CR_VOS_RANGE3,
        }
    }

    pub fn range_bits(self) -> (r: u32)
        ensures
            r == self.spec_range_bits(),
    {
        match self {
            VOSScale::Scale1 => CR_VOS_RANGE1,
            VOSScale::Scale2 => CR_VOS_RANGE2,
            VOSScale::Scale3 => CR_VOS_RANGE3,
        }
    }
}

/// Image of the power-control register block.
#[derive(Clone, Copy, PartialEq, Eq, Structural, Debug)]
pub struct Registers {
    pub cr: VolatileCell,
    pub csr: VolatileCell,
}

/// The plain values behind a `Registers` image.
pub struct RegistersView {
    pub cr: u32,
    pub csr: u32,
}

impl View for Registers {
    type V = RegistersView;

    open spec fn view(&self) -> RegistersView {
        RegistersView { cr: self.cr@, csr: self.csr@ }
    }
}

impl Registers {
    /// A register image with every register at zero.
    pub fn new() -> (r: Registers)
        ensures
            r@ == (RegistersView { cr: 0, csr: 0 }),
    {
        Registers { cr: VolatileCell::new(0), csr: VolatileCell::new(0) }
    }
}

/// The effect of `set_vos_scale`: the regulator range field is replaced
/// by the encoding of `scale`.
pub open spec fn spec_set_vos_scale(v: RegistersView, scale: VOSScale) -> RegistersView {
    RegistersView { cr: (v.cr & !CR_VOS_MASK) | scale.spec_range_bits(), ..v }
}

/// Select the regulator output range in one read-modify-write of the
/// power control register.
pub fn set_vos_scale(pwr: &mut Registers, scale: VOSScale)
    ensures
        final(pwr)@ == spec_set_vos_scale(old(pwr)@, scale),
{
    let mut cr = pwr.cr.get();
    cr &= !CR_VOS_MASK;
    cr |= scale.range_bits();
    pwr.cr.set(cr);
}

} // verus!
