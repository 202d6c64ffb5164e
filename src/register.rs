//! Values of the sensor's configuration and status registers.
use vstd::prelude::*;

verus! {

/// One of the two readout passes that together make up a frame.
#[derive(Clone, Copy, Debug, PartialEq, Eq, Structural)]
pub enum Subpage {
    Zero,
    One,
}

/// How pixels are assigned to the two subpages.
#[derive(Clone, Copy, Debug, PartialEq, Eq, Structural)]
pub enum AccessPattern {
    /// Pixels alternate between subpages like the squares of a chess board.
    Chess,
    /// Whole rows alternate between subpages.
    Interleave,
}

/// ADC resolution.
#[derive(Clone, Copy, Debug, PartialEq, Eq, Structural)]
pub enum Resolution {
    Sixteen,
    Seventeen,
    Eighteen,
    Nineteen,
}

impl Subpage {
    /// The subpage's number.
    pub open spec fn spec_index(self) -> int {
        match self {
            Subpage::Zero => 0,
            Subpage::One => 1,
        }
    }
}

impl Resolution {
    /// The two register bits that select this resolution.
    pub open spec fn spec_bits(self) -> int {
        match self {
            Resolution::Sixteen => 0,
            Resolution::Seventeen => 1,
            Resolution::Eighteen => 2,
            Resolution::Nineteen => 3,
        }
    }

    /// The resolution that two register bits select.
    pub fn from_bits(bits: u8) -> (r: Resolution)
        requires
            bits <= 3,
        ensures
            r.spec_bits() == bits,
    {
        if bits == 0 {
            Resolution::Sixteen
        } else if bits == 1 {
            Resolution::Seventeen
        } else if bits == 2 {
            Resolution::Eighteen
        } else {
            Resolution::Nineteen
        }
    }

    /// The two register bits that select this resolution.
    pub fn bits(self) -> (r: u8)
        ensures
            r == self.spec_bits(),
    {
        match self {
            Resolution::Sixteen => 0,
            Resolution::Seventeen => 1,
            Resolution::Eighteen => 2,
            Resolution::Nineteen => 3,
        }
    }
}

} // verus!
