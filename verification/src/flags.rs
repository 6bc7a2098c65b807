//! The processor's status flags.

use vstd::prelude::*;

verus! {

/// The status flags: a set over {carry, half-carry, subtraction, zero}.
///
/// Each flag is bound to one bit of the high nibble of a byte: carry is
/// bit 4, half-carry bit 5, subtraction bit 6 and zero bit 7.  The low
/// nibble carries no flag.  Construction keeps the given byte as it is,
/// low nibble included; only export masks the low nibble to zero, so an
/// intermediate value produced by set algebra may hold garbage there
/// without harm.
#[derive(Clone, Copy, PartialEq, Eq)]
pub struct Flags {
    raw: u8,
}

impl Flags {
    /// The bit of the carry flag.
    pub const C: u8 = 0x10;

    /// The bit of the half-carry flag.
    pub const H: u8 = 0x20;

    /// The bit of the subtraction flag.
    pub const N: u8 = 0x40;

    /// The bit of the zero flag.
    pub const Z: u8 = 0x80;

    /// The byte of the empty set of flags.
    pub const EMPTY: u8 = 0x00;

    /// The byte stored internally, low nibble included.
    pub closed spec fn bits(self) -> u8 {
        self.raw
    }

    /// The canonical byte: the stored byte with the low nibble forced to
    /// zero.
    pub open spec fn export(self) -> u8 {
        self.bits() & 0xF0
    }

    /// Create a new set of flags from their bit representation.
    ///
    /// Every byte is accepted; the low nibble is kept as given and only
    /// masked away on export.
    pub fn from_bits(bits: u8) -> (r: Self)
        ensures
            r.bits() == bits,
    {
        Self { raw: bits }
    }

    /// Return the bit representation of this set of flags, with the low
    /// nibble forced to zero.
    pub fn into_bits(self) -> (r: u8)
        ensures
            r == self.export(),
    {
        self.raw & 0xF0
    }

    /// The intersection of two flag sets: bitwise AND over the full
    /// stored bytes.
    pub fn bitand(self, rhs: Self) -> (r: Self)
        ensures
            r.bits() == (self.bits() & rhs.bits()),
    {
        Self { raw: self.raw & rhs.raw }
    }

    /// Intersect in place.
    pub fn bitand_assign(&mut self, rhs: Self)
        ensures
            final(self).bits() == (old(self).bits() & rhs.bits()),
    {
        self.raw = self.raw & rhs.raw;
    }

    /// The union of two flag sets: bitwise OR over the full stored
    /// bytes.
    pub fn bitor(self, rhs: Self) -> (r: Self)
        ensures
            r.bits() == (self.bits() | rhs.bits()),
    {
        Self { raw: self.raw | rhs.raw }
    }

    /// Unite in place.
    pub fn bitor_assign(&mut self, rhs: Self)
        ensures
            final(self).bits() == (old(self).bits() | rhs.bits()),
    {
        self.raw = self.raw | rhs.raw;
    }

    /// The symmetric difference of two flag sets: bitwise XOR over the
    /// full stored bytes.
    pub fn bitxor(self, rhs: Self) -> (r: Self)
        ensures
            r.bits() == (self.bits() ^ rhs.bits()),
    {
        Self { raw: self.raw ^ rhs.raw }
    }

    /// Take the symmetric difference in place.
    pub fn bitxor_assign(&mut self, rhs: Self)
        ensures
            final(self).bits() == (old(self).bits() ^ rhs.bits()),
    {
        self.raw = self.raw ^ rhs.raw;
    }

    /// The complement of a flag set: bitwise NOT over the full stored
    /// byte.  The flipped low nibble is corrected back to zero only on
    /// the next export, not immediately.
    pub fn not(self) -> (r: Self)
        ensures
            r.bits() == !self.bits(),
    {
        Self { raw: !self.raw }
    }

    /// A human-readable listing of the set flags, for logging and
    /// tracing: the names of the set flags in the order zero,
    /// subtraction, half-carry, carry, joined by " | ", or "<empty>"
    /// for the empty set.  The low nibble plays no part.
    pub fn debug_text(self) -> (r: &'static str)
        ensures
            r@ == flag_text(self.export() >> 4),
    {
        proof {
            let raw = self.raw;
            assert((raw >> 4) == ((raw & 0xF0) >> 4)) by (bit_vector);
        }
        match self.raw >> 4 {
            0b0000 => "<empty>",
            0b0001 => "C",
            0b0010 => "H",
            0b0011 => "H | C",
            0b0100 => "N",
            0b0101 => "N | C",
            0b0110 => "N | H",
            0b0111 => "N | H | C",
            0b1000 => "Z",
            0b1001 => "Z | C",
            0b1010 => "Z | H",
            0b1011 => "Z | H | C",
            0b1100 => "Z | N",
            0b1101 => "Z | N | C",
            0b1110 => "Z | N | H",
            _ => "Z | N | H | C",
        }
    }
}

/// The listing that [`Flags::debug_text`] returns, as a function of the
/// high nibble of the canonical byte.  A nibble of sixteen or more never
/// arises from a canonical byte and falls to the all-flags listing.
pub open spec fn flag_text(nibble: u8) -> Seq<char> {
    if nibble == 0b0000 {
        "<empty>"@
    } else if nibble == 0b0001 {
        "C"@
    } else if nibble == 0b0010 {
        "H"@
    } else if nibble == 0b0011 {
        "H | C"@
    } else if nibble == 0b0100 {
        "N"@
    } else if nibble == 0b0101 {
        "N | C"@
    } else if nibble == 0b0110 {
        "N | H"@
    } else if nibble == 0b0111 {
        "N | H | C"@
    } else if nibble == 0b1000 {
        "Z"@
    } else if nibble == 0b1001 {
        "Z | C"@
    } else if nibble == 0b1010 {
        "Z | H"@
    } else if nibble == 0b1011 {
        "Z | H | C"@
    } else if nibble == 0b1100 {
        "Z | N"@
    } else if nibble == 0b1101 {
        "Z | N | C"@
    } else if nibble == 0b1110 {
        "Z | N | H"@
    } else {
        "Z | N | H | C"@
    }
}

/// Round-trip: a flags value built from any byte `b` exports `b & 0xF0`.
pub proof fn lemma_round_trip(x: Flags, b: u8)
    requires
        x.bits() == b,
    ensures
        x.export() == (b & 0xF0),
{
}

/// Exporting the intersection of two flag sets equals the intersection
/// of their exported bytes.
pub proof fn lemma_export_and(x: Flags, y: Flags, r: Flags)
    requires
        r.bits() == (x.bits() & y.bits()),
    ensures
        r.export() == (x.export() & y.export()),
{
    let a = x.bits();
    let b = y.bits();
    assert(((a & b) & 0xF0) == ((a & 0xF0) & (b & 0xF0))) by (bit_vector);
}

/// Exporting the union of two flag sets equals the union of their
/// exported bytes.
pub proof fn lemma_export_or(x: Flags, y: Flags, r: Flags)
    requires
        r.bits() == (x.bits() | y.bits()),
    ensures
        r.export() == (x.export() | y.export()),
{
    let a = x.bits();
    let b = y.bits();
    assert(((a | b) & 0xF0) == ((a & 0xF0) | (b & 0xF0))) by (bit_vector);
}

/// Exporting the symmetric difference of two flag sets equals the
/// symmetric difference of their exported bytes.
pub proof fn lemma_export_xor(x: Flags, y: Flags, r: Flags)
    requires
        r.bits() == (x.bits() ^ y.bits()),
    ensures
        r.export() == (x.export() ^ y.export()),
{
    let a = x.bits();
    let b = y.bits();
    assert(((a ^ b) & 0xF0) == ((a & 0xF0) ^ (b & 0xF0))) by (bit_vector);
}

/// Complementing a flag set twice exports the same byte as the set
/// itself.
pub proof fn lemma_export_not_not(x: Flags, r: Flags)
    requires
        r.bits() == !(!x.bits()),
    ensures
        r.export() == x.export(),
{
    let a = x.bits();
    assert(!(!a) == a) by (bit_vector);
}

/// The four flag constants are pairwise disjoint singleton bits of the
/// high nibble, and their union is the all-flags byte 0xF0.
pub proof fn lemma_flag_constants()
    ensures
        Flags::C & Flags::H == 0,
        Flags::C & Flags::N == 0,
        Flags::C & Flags::Z == 0,
        Flags::H & Flags::N == 0,
        Flags::H & Flags::Z == 0,
        Flags::N & Flags::Z == 0,
        (Flags::Z | Flags::N | Flags::H | Flags::C) == 0xF0,
        Flags::EMPTY == 0,
{
    assert((0x10u8 & 0x20u8) == 0) by (bit_vector);
    assert((0x10u8 & 0x40u8) == 0) by (bit_vector);
    assert((0x10u8 & 0x80u8) == 0) by (bit_vector);
    assert((0x20u8 & 0x40u8) == 0) by (bit_vector);
    assert((0x20u8 & 0x80u8) == 0) by (bit_vector);
    assert((0x40u8 & 0x80u8) == 0) by (bit_vector);
    assert((0x80u8 | 0x40u8 | 0x20u8 | 0x10u8) == 0xF0) by (bit_vector);
}

} // verus!
