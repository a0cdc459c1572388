//! Colors, as four single-precision channels.

use crate::scalar::Scalar;
use vstd::prelude::*;

verus! {

/// A color with red, green, blue and alpha channels.
///
/// The channels are carried as they are given: none is clamped or checked.
#[derive(Clone, Copy, Debug, PartialEq, Eq, Structural)]
pub struct Color {
    pub red: Scalar,
    pub green: Scalar,
    pub blue: Scalar,
    pub alpha: Scalar,
}

impl Color {
    /// Opaque white: every channel is one.
    pub open spec fn spec_white() -> Color {
        Color {
            red: Scalar::spec_one(),
            green: Scalar::spec_one(),
            blue: Scalar::spec_one(),
            alpha: Scalar::spec_one(),
        }
    }

    /// Opaque white: every channel is one.
    #[verifier::when_used_as_spec(spec_white)]
    pub fn white() -> (color: Color)
        ensures
            color == Color::spec_white(),
            color.red.denotes(1),
            color.green.denotes(1),
            color.blue.denotes(1),
            color.alpha.denotes(1),
    {
        proof {
            Color::lemma_white();
        }
        Color { red: Scalar::one(), green: Scalar::one(), blue: Scalar::one(), alpha: Scalar::one() }
    }

    /// Every channel of white stands for one.
    pub proof fn lemma_white()
        ensures
            Color::spec_white().red.denotes(1),
            Color::spec_white().green.denotes(1),
            Color::spec_white().blue.denotes(1),
            Color::spec_white().alpha.denotes(1),
    {
        Scalar::lemma_zero_and_one();
    }
}

} // verus!
