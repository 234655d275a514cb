//! Fields of bits within registers of 32 bits.

use vstd::prelude::*;

verus! {

/// A field of `numbits` bits that starts at bit `offset`.
#[derive(Clone, Copy, Debug, PartialEq, Eq, Structural)]
pub struct Field {
    pub offset: u32,
    pub numbits: u32,
}

impl Field {
    /// The field lies within the register.
    pub open spec fn wf(self) -> bool {
        1 <= self.numbits <= 32 && self.offset < 32 && self.offset + self.numbits <= 32
    }

    /// The bits of the field, moved down to bit 0.
    pub open spec fn low_mask(self) -> u32 {
        if self.numbits >= 32 {
            0xFFFF_FFFFu32
        } else {
            ((1u32 << self.numbits) - 1) as u32
        }
    }

    /// The bits of the field.
    pub open spec fn mask(self) -> u32 {
        self.low_mask() << self.offset
    }

    /// The value of the field in `reg`.
    pub open spec fn of(self, reg: u32) -> u32 {
        (reg >> self.offset) & self.low_mask()
    }

    /// The bits that stand for `value` in the field; what of `value` does
    /// not fit is cut off.
    pub open spec fn val(self, value: u32) -> u32 {
        (value & self.low_mask()) << self.offset
    }

    /// The register `reg` with the field set to `value`.
    pub open spec fn put(self, reg: u32, value: u32) -> u32 {
        (reg & !self.mask()) | self.val(value)
    }

    /// Some bit of the field is set in `reg`.
    pub open spec fn any(self, reg: u32) -> bool {
        reg & self.mask() != 0
    }

    /// A field of `numbits` bits from bit `offset` on.
    pub fn new(offset: u32, numbits: u32) -> (r: Field)
        ensures
            r.offset == offset,
            r.numbits == numbits,
    {
        Field { offset, numbits }
    }

    /// A field of one bit at `offset`.
    pub fn bit(offset: u32) -> (r: Field)
        ensures
            r.offset == offset,
            r.numbits == 1,
    {
        Field { offset, numbits: 1 }
    }

    /// Computes the bits of the field, moved down to bit 0.
    pub fn get_low_mask(self) -> (r: u32)
        requires
            self.wf(),
        ensures
            r == self.low_mask(),
    {
        if self.numbits >= 32 {
            0xFFFF_FFFF
        } else {
            let n = self.numbits;
            let top = 1u32 << n;
            assert(top >= 1) by (bit_vector)
                requires
                    top == 1u32 << n,
                    n < 32,
            ;
            top - 1
        }
    }

    /// Computes the bits of the field.
    pub fn get_mask(self) -> (r: u32)
        requires
            self.wf(),
        ensures
            r == self.mask(),
    {
        self.get_low_mask() << self.offset
    }

    /// Reads the field from `reg`.
    pub fn read(self, reg: u32) -> (r: u32)
        requires
            self.wf(),
        ensures
            r == self.of(reg),
    {
        (reg >> self.offset) & self.get_low_mask()
    }

    /// Tells whether some bit of the field is set in `reg`.
    pub fn is_set(self, reg: u32) -> (r: bool)
        requires
            self.wf(),
        ensures
            r == self.any(reg),
    {
        reg & self.get_mask() != 0
    }

    /// Computes the bits that stand for `value` in the field.
    pub fn value(self, value: u32) -> (r: u32)
        requires
            self.wf(),
        ensures
            r == self.val(value),
    {
        (value & self.get_low_mask()) << self.offset
    }

    /// Sets the field in `reg` to `value` and leaves the other bits as
    /// they are.
    pub fn modify(self, reg: u32, value: u32) -> (r: u32)
        requires
            self.wf(),
        ensures
            r == self.put(reg, value),
    {
        (reg & !self.get_mask()) | self.value(value)
    }

    /// Sets all bits of the field in `reg`.
    pub fn set(self, reg: u32) -> (r: u32)
        requires
            self.wf(),
        ensures
            r == self.put(reg, 0xFFFF_FFFF),
    {
        self.modify(reg, 0xFFFF_FFFF)
    }

    /// Clears all bits of the field in `reg`.
    pub fn clear(self, reg: u32) -> (r: u32)
        requires
            self.wf(),
        ensures
            r == self.put(reg, 0),
    {
        self.modify(reg, 0)
    }
}

} // verus!
