//! The processor's register file.

use vstd::prelude::*;

use crate::flags::Flags;

verus! {

/// The register file: eight 8-bit fields, the flags, and two plain
/// 16-bit fields.
///
/// Every field is stored directly.  The 16-bit views `af`, `bc`, `de`
/// and `hl` are computed from their two halves on every read and split
/// into two field stores on every write; no composite value is cached.
#[derive(Clone, PartialEq, Eq)]
pub struct Registers {
    /// The 8-bit flags register.
    pub f: Flags,
    /// The 8-bit accumulator.
    pub a: u8,
    /// The 8-bit C register.
    pub c: u8,
    /// The 8-bit B register.
    pub b: u8,
    /// The 8-bit E register.
    pub e: u8,
    /// The 8-bit D register.
    pub d: u8,
    /// The 8-bit L register.
    pub l: u8,
    /// The 8-bit H register.
    pub h: u8,
    /// The 16-bit program counter.
    pub pc: u16,
    /// The 16-bit stack pointer.
    pub sp: u16,
}

impl Registers {
    /// The 16-bit AF view: the accumulator over the canonical flags byte.
    pub open spec fn spec_af(self) -> u16 {
        (((self.a as u16) << 8) | (self.f.export() as u16)) as u16
    }

    /// The 16-bit BC view: B over C.
    pub open spec fn spec_bc(self) -> u16 {
        (((self.b as u16) << 8) | (self.c as u16)) as u16
    }

    /// The 16-bit DE view: D over E.
    pub open spec fn spec_de(self) -> u16 {
        (((self.d as u16) << 8) | (self.e as u16)) as u16
    }

    /// The 16-bit HL view: H over L.
    pub open spec fn spec_hl(self) -> u16 {
        (((self.h as u16) << 8) | (self.l as u16)) as u16
    }

    /// Set the value of the 16-bit AF register.
    ///
    /// The high byte goes to the accumulator.  The low byte, low nibble
    /// included, goes raw into the flags register: the low nibble is
    /// retained internally and stripped only when AF is next read, so
    /// `af` afterwards returns `value & 0xFFF0`.  No other field moves.
    pub fn set_af(&mut self, value: u16)
        ensures
            final(self).a == (value >> 8) as u8,
            final(self).f.bits() == (value & 0xFF) as u8,
            final(self).spec_af() == (value & 0xFFF0),
            final(self).b == old(self).b,
            final(self).c == old(self).c,
            final(self).d == old(self).d,
            final(self).e == old(self).e,
            final(self).h == old(self).h,
            final(self).l == old(self).l,
            final(self).pc == old(self).pc,
            final(self).sp == old(self).sp,
    {
        self.f = Flags::from_bits((value & 0xFF) as u8);
        self.a = (value >> 8) as u8;
        proof {
            assert((((((value >> 8) as u8) as u16) << 8) | (((((value & 0xFF) as u8) & 0xF0)) as u16)) as u16
                == (value & 0xFFF0)) by (bit_vector);
        }
    }

    /// Set the value of the 16-bit BC register: the high byte to B, the
    /// low byte to C.  No other field moves.
    pub fn set_bc(&mut self, value: u16)
        ensures
            final(self).b == (value >> 8) as u8,
            final(self).c == (value & 0xFF) as u8,
            final(self).spec_bc() == value,
            final(self).f == old(self).f,
            final(self).a == old(self).a,
            final(self).d == old(self).d,
            final(self).e == old(self).e,
            final(self).h == old(self).h,
            final(self).l == old(self).l,
            final(self).pc == old(self).pc,
            final(self).sp == old(self).sp,
    {
        self.c = (value & 0xFF) as u8;
        self.b = (value >> 8) as u8;
        proof {
            lemma_split_join(value);
        }
    }

    /// Set the value of the 16-bit DE register: the high byte to D, the
    /// low byte to E.  No other field moves.
    pub fn set_de(&mut self, value: u16)
        ensures
            final(self).d == (value >> 8) as u8,
            final(self).e == (value & 0xFF) as u8,
            final(self).spec_de() == value,
            final(self).f == old(self).f,
            final(self).a == old(self).a,
            final(self).b == old(self).b,
            final(self).c == old(self).c,
            final(self).h == old(self).h,
            final(self).l == old(self).l,
            final(self).pc == old(self).pc,
            final(self).sp == old(self).sp,
    {
        self.e = (value & 0xFF) as u8;
        self.d = (value >> 8) as u8;
        proof {
            lemma_split_join(value);
        }
    }

    /// Set the value of the 16-bit HL register: the high byte to H, the
    /// low byte to L.  No other field moves.
    pub fn set_hl(&mut self, value: u16)
        ensures
            final(self).h == (value >> 8) as u8,
            final(self).l == (value & 0xFF) as u8,
            final(self).spec_hl() == value,
            final(self).f == old(self).f,
            final(self).a == old(self).a,
            final(self).b == old(self).b,
            final(self).c == old(self).c,
            final(self).d == old(self).d,
            final(self).e == old(self).e,
            final(self).pc == old(self).pc,
            final(self).sp == old(self).sp,
    {
        self.l = (value & 0xFF) as u8;
        self.h = (value >> 8) as u8;
        proof {
            lemma_split_join(value);
        }
    }

    /// Return the value of the 16-bit AF register.
    pub fn af(&self) -> (r: u16)
        ensures
            r == self.spec_af(),
    {
        ((self.a as u16) << 8) | (self.f.into_bits() as u16)
    }

    /// Return the value of the 16-bit BC register.
    pub fn bc(&self) -> (r: u16)
        ensures
            r == self.spec_bc(),
    {
        ((self.b as u16) << 8) | (self.c as u16)
    }

    /// Return the value of the 16-bit DE register.
    pub fn de(&self) -> (r: u16)
        ensures
            r == self.spec_de(),
    {
        ((self.d as u16) << 8) | (self.e as u16)
    }

    /// Return the value of the 16-bit HL register.
    pub fn hl(&self) -> (r: u16)
        ensures
            r == self.spec_hl(),
    {
        ((self.h as u16) << 8) | (self.l as u16)
    }
}

/// Splitting a 16-bit value into its two bytes and joining them again
/// gives the value back.
pub proof fn lemma_split_join(value: u16)
    ensures
        ((((((value >> 8) as u8) as u16) << 8) | (((value & 0xFF) as u8) as u16)) as u16) == value,
{
    assert(((((((value >> 8) as u8) as u16) << 8) | (((value & 0xFF) as u8) as u16)) as u16)
        == value) by (bit_vector);
}

} // verus!
