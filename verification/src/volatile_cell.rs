//! The register-cell primitive shared by every peripheral driver.
//!
//! On the target, a `VolatileCell` sits at a fixed memory-mapped address
//! and every access is a single volatile load or store.  In this library
//! the cell holds the register image as a plain value, so each operation
//! is an ordinary, fully specified transformation of that value; the
//! embedding application is responsible for performing the volatile
//! accesses that carry an image to and from the hardware.

use vstd::prelude::*;

verus! {

/// A type with a zero, the reset image of a register.
pub trait Zero: Sized {
    /// The zero of the type.
    spec fn spec_zero() -> Self;

    fn zero() -> (r: Self)
        ensures
            r == Self::spec_zero(),
    ;
}

impl Zero for u8 {
    open spec fn spec_zero() -> u8 {
        0
    }

    fn zero() -> (r: u8) {
        0
    }
}

impl Zero for u16 {
    open spec fn spec_zero() -> u16 {
        0
    }

    fn zero() -> (r: u16) {
        0
    }
}

impl Zero for u32 {
    open spec fn spec_zero() -> u32 {
        0
    }

    fn zero() -> (r: u32) {
        0
    }
}

impl Zero for u64 {
    open spec fn spec_zero() -> u64 {
        0
    }

    fn zero() -> (r: u64) {
        0
    }
}

impl Zero for usize {
    open spec fn spec_zero() -> usize {
        0
    }

    fn zero() -> (r: usize) {
        0
    }
}

/// The unsigned widths a hardware register can be accessed at.  The
/// cell below models the full-word access every driver of this family
/// uses; narrower registers are held in the low bits of a word.
pub trait Radix: Copy + PartialEq + Zero {

}

impl Radix for u8 {

}

impl Radix for u16 {

}

impl Radix for u32 {

}

impl Radix for u64 {

}

impl Radix for usize {

}

/// One 32-bit hardware register, held as its current image.
#[derive(Clone, Copy, PartialEq, Eq, Structural, Debug)]
pub struct VolatileCell {
    value: u32,
}

impl View for VolatileCell {
    type V = u32;

    closed spec fn view(&self) -> u32 {
        self.value
    }
}

impl VolatileCell {
    pub fn new(value: u32) -> (cell: VolatileCell)
        ensures
            cell@ == value,
    {
        VolatileCell { value }
    }

    /// A single read of the register.
    pub fn get(&self) -> (r: u32)
        ensures
            r == self@,
    {
        self.value
    }

    /// A single write of the register.
    pub fn set(&mut self, value: u32)
        ensures
            final(self)@ == value,
    {
        self.value = value;
    }

    /// Read-modify-write with an arbitrary update function.
    pub fn update<F: FnOnce(u32) -> u32>(&mut self, f: F)
        requires
            call_requires(f, (old(self)@,)),
        ensures
            call_ensures(f, (old(self)@,), final(self)@),
    {
        let v = self.get();
        let w = f(v);
        self.set(w);
    }

    /// Read-modify-write of one bitfield: the bits of `mask` are
    /// replaced by `val << shift`, truncated to the field, and every
    /// bit outside `mask` is left unchanged.  Callers pass `mask`
    /// already shifted into place; a `val` wider than the field loses
    /// its high bits, it is never an error.
    pub fn mask_set(&mut self, mask: u32, shift: u32, val: u32)
        requires
            shift < 32,
        ensures
            final(self)@ == (old(self)@ & !mask) | ((val << shift) & mask),
    {
        let mut reg = self.get();
        reg = (reg & !mask) | ((val << shift) & mask);
        self.set(reg);
    }

    /// Read the register with the bits of `mask` cleared, shifted down.
    pub fn mask_get(&self, mask: u32, shift: u32) -> (r: u32)
        requires
            shift < 32,
        ensures
            r == (self@ & !mask) >> shift,
    {
        (self.get() & !mask) >> shift
    }

    /// True when the register has any bit of `val` set.
    pub fn test(&self, val: u32) -> (r: bool)
        ensures
            r == (self@ & val != 0),
    {
        self.get() & val != 0
    }

    /// Read-modify-write: set every bit of `val`.
    pub fn check(&mut self, val: u32)
        ensures
            final(self)@ == (old(self)@ | val),
    {
        let mut reg = self.get();
        reg |= val;
        self.set(reg);
    }

    /// Read-modify-write: clear every bit of `val`.
    pub fn uncheck(&mut self, val: u32)
        ensures
            final(self)@ == (old(self)@ & !val),
    {
        let mut reg = self.get();
        reg &= !val;
        self.set(reg);
    }
}

/// A bitfield of width `w` written through `mask_set` and read back
/// masked and shifted comes back truncated to `w` bits: out-of-range
/// values lose their high bits, they are never an error.
///
/// For a field mask of `w` ones at shift `s`, writing `v` into any
/// register image reads the field back as `v` modulo `2^w` and leaves
/// every bit outside the field as it was.
#[verifier::rlimit(100)]
pub proof fn lemma_masked_update_round_trip(reg: u32, w: u32, s: u32, v: u32)
    requires
        1 <= w < 32,
        w + s <= 32,
    ensures
        ({
            let mask = (((1u32 << w) - 1) as u32) << s;
            let written = (reg & !mask) | ((v << s) & mask);
            (written & mask) >> s == v % (1u32 << w) && written & !mask == reg & !mask
        }),
{
    assert(({
        let mask = (((1u32 << w) - 1) as u32) << s;
        let written = (reg & !mask) | ((v << s) & mask);
        (written & mask) >> s == v & (((1u32 << w) - 1) as u32) && written & !mask == reg & !mask
    })) by (bit_vector)
        requires
            1 <= w < 32,
            w + s <= 32,
    ;
    vstd::bits::lemma_u32_pow2_no_overflow(w as nat);
    vstd::bits::lemma_u32_shl_is_mul(1u32, w);
    vstd::bits::lemma_u32_low_bits_mask_is_mod(v, w as nat);
    assert((((1u32 << w) - 1) as u32) == vstd::bits::low_bits_mask(w as nat) as u32);
}

} // verus!
