//! The three colours of the panel, and how each is stored in the two bit planes.
use vstd::prelude::*;

verus! {

/// A colour the panel can show.
#[derive(Clone, Copy, PartialEq, Eq, Debug, Structural)]
pub enum ThreeColor {
    Black,
    White,
    Chromatic,
}

impl ThreeColor {
    /// The bit that this colour has in the black/white plane: set for white only.
    pub open spec fn spec_bw_bit(self) -> bool {
        match self {
            ThreeColor::White => true,
            ThreeColor::Black => false,
            ThreeColor::Chromatic => false,
        }
    }

    /// The bit that this colour has in the chromatic plane: set for the chromatic ink only.
    pub open spec fn spec_chromatic_bit(self) -> bool {
        match self {
            ThreeColor::White => false,
            ThreeColor::Black => false,
            ThreeColor::Chromatic => true,
        }
    }

    /// The colour that a pair of plane bits shows; a pixel with both bits set shows none.
    pub open spec fn of_bits(bw: bool, chromatic: bool) -> Option<ThreeColor> {
        match (bw, chromatic) {
            (true, false) => Some(ThreeColor::White),
            (false, false) => Some(ThreeColor::Black),
            (false, true) => Some(ThreeColor::Chromatic),
            (true, true) => None,
        }
    }

    /// The bit that this colour has in the black/white plane.
    #[verifier::when_used_as_spec(spec_bw_bit)]
    pub fn bw_bit(self) -> (bit: bool)
        ensures
            bit == self.spec_bw_bit(),
    {
        match self {
            ThreeColor::White => true,
            ThreeColor::Black => false,
            ThreeColor::Chromatic => false,
        }
    }

    /// The bit that this colour has in the chromatic plane.
    #[verifier::when_used_as_spec(spec_chromatic_bit)]
    pub fn chromatic_bit(self) -> (bit: bool)
        ensures
            bit == self.spec_chromatic_bit(),
    {
        match self {
            ThreeColor::White => false,
            ThreeColor::Black => false,
            ThreeColor::Chromatic => true,
        }
    }
}

/// The two plane bits of a colour show that colour again, so no two colours share their bits.
pub proof fn lemma_bits_tell_colors_apart(color: ThreeColor)
    ensures
        ThreeColor::of_bits(color.bw_bit(), color.chromatic_bit()) == Some(color),
{
}

} // verus!
