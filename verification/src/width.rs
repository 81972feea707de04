use vstd::prelude::*;

verus! {

/// The word width of one hardware random draw: the instruction exists in
/// 16-, 32- and 64-bit variants, and the width fixes how many hex digits
/// (nibbles) a drawn value occupies when displayed.
#[derive(Clone, Copy, Debug, PartialEq, Eq, Structural)]
pub enum WordWidth {
    W16,
    W32,
    W64,
}

impl WordWidth {
    /// The number of bits in one value of this width.
    pub open spec fn bits(self) -> nat {
        match self {
            WordWidth::W16 => 16,
            WordWidth::W32 => 32,
            WordWidth::W64 => 64,
        }
    }

    pub fn size_bits(self) -> (r: usize)
        ensures
            r == self.bits(),
    {
        match self {
            WordWidth::W16 => 16,
            WordWidth::W32 => 32,
            WordWidth::W64 => 64,
        }
    }

    /// The number of hexadecimal digits needed to render a value of this
    /// width: one nibble per four bits.
    pub fn size_nibbles(self) -> (r: usize)
        ensures
            r == self.bits() / 4,
    {
        match self {
            WordWidth::W16 => 4,
            WordWidth::W32 => 8,
            WordWidth::W64 => 16,
        }
    }
}

} // verus!
