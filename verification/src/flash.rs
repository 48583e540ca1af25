//! Flash access-control driver: wait-states and cache/prefetch enables.

use vstd::prelude::*;

use crate::volatile_cell::VolatileCell;

verus! {

pub const ACR_DCRST: u32 = 1 << 12;
pub const ACR_ICRST: u32 = 1 << 11;
pub const ACR_DCEN: u32 = 1 << 10;
pub const ACR_ICEN: u32 = 1 << 9;
pub const ACR_PRFTEN: u32 = 1 << 8;
pub const ACR_LATENCY_MASK: u32 = 0x07;
pub const ACR_LATENCY_0WS: u32 = 0x00;
pub const ACR_LATENCY_1WS: u32 = 0x01;
pub const ACR_LATENCY_2WS: u32 = 0x02;
pub const ACR_LATENCY_3WS: u32 = 0x03;
pub const ACR_LATENCY_4WS: u32 = 0x04;
pub const ACR_LATENCY_5WS: u32 = 0x05;
pub const ACR_LATENCY_6WS: u32 = 0x06;
pub const ACR_LATENCY_7WS: u32 = 0x07;

pub const CR_LOCK: u32 = 1 << 31;
pub const CR_ERRIE: u32 = 1 << 25;
pub const CR_EOPIE: u32 = 1 << 24;
pub const CR_STRT: u32 = 1 << 16;
pub const CR_MER: u32 = 1 << 2;
pub const CR_SER: u32 = 1 << 1;
pub const CR_PG: u32 = 1 << 0;
pub const CR_SNB_SHIFT: u32 = 3;
pub const CR_SNB_MASK: u32 = 0x1f;
pub const CR_PROGRAM_MASK: u32 = 0x3;
pub const CR_PROGRAM_SHIFT: u32 = 8;

pub const SR_BSY: u32 = 1 << 16;
pub const SR_PGSERR: u32 = 1 << 7;
pub const SR_PGPERR: u32 = 1 << 6;
pub const SR_PGAERR: u32 = 1 << 5;
pub const SR_WRPERR: u32 = 1 << 4;
pub const SR_OPERR: u32 = 1 << 1;
pub const SR_EOP: u32 = 1 << 0;

/// Parallelism of a flash program operation.
pub enum Program {
    X8,
    X16,
    X32,
    X64,
}

impl Program {
    /// The encoding of the parallelism in the control register's
    /// program-size field.
    pub open spec fn spec_code(self) -> u32 {
        match self {
            Program::X8 => 0,
            Program::X16 => 1,
            Program::X32 => 2,
            Program::X64 => 3,
        }
    }

    pub fn code(self) -> (r: u32)
        ensures
            r == self.spec_code(),
    {
        match self {
            Program::X8 => 0,
            Program::X16 => 1,
            Program::X32 => 2,
            Program::X64 => 3,
        }
    }
}

/// Image of the flash-interface register block.
#[derive(Clone, Copy, PartialEq, Eq, Structural, Debug)]
pub struct Registers {
    pub acr: VolatileCell,
    pub keyr: VolatileCell,
    pub optkeyr: VolatileCell,
    pub sr: VolatileCell,
    pub cr: VolatileCell,
    pub optcr: VolatileCell,
}

/// The plain values behind a `Registers` image.
pub struct RegistersView {
    pub acr: u32,
    pub keyr: u32,
    pub optkeyr: u32,
    pub sr: u32,
    pub cr: u32,
    pub optcr: u32,
}

impl View for Registers {
    type V = RegistersView;

    open spec fn view(&self) -> RegistersView {
        RegistersView {
            acr: self.acr@,
            keyr: self.keyr@,
            optkeyr: self.optkeyr@,
            sr: self.sr@,
            cr: self.cr@,
            optcr: self.optcr@,
        }
    }
}

impl Registers {
    /// A register image with every register at zero.
    pub fn new() -> (r: Registers)
        ensures
            r@ == (RegistersView { acr: 0, keyr: 0, optkeyr: 0, sr: 0, cr: 0, optcr: 0 }),
    {
        Registers {
            acr: VolatileCell::new(0),
            keyr: VolatileCell::new(0),
            optkeyr: VolatileCell::new(0),
            sr: VolatileCell::new(0),
            cr: VolatileCell::new(0),
            optcr: VolatileCell::new(0),
        }
    }
}

/// The effect of `set_ws` on the access-control register: the latency
/// field is cleared and `ws` is or-ed in.
pub open spec fn spec_set_ws(v: RegistersView, ws: u32) -> RegistersView {
    RegistersView { acr: (v.acr & !ACR_LATENCY_MASK) | ws, ..v }
}

/// Write the flash access latency (and any enable bits carried in `ws`)
/// in one read-modify-write of the access-control register.
pub fn set_ws(flash: &mut Registers, ws: u32)
    ensures
        final(flash)@ == spec_set_ws(old(flash)@, ws),
{
    let mut reg32: u32 = flash.acr.get();
    reg32 &= !ACR_LATENCY_MASK;
    reg32 |= ws;
    flash.acr.set(reg32);
}

} // verus!
