//! The ambient light's state and its two presets.

use crate::color::Color;
use crate::scalar::Scalar;
use vstd::arithmetic::power2::lemma2_to64;
use vstd::prelude::*;

verus! {

/// An ambient light, which lights every surface of the scene equally.
///
/// `brightness` scales `color` before the product is handed on for drawing;
/// the product is meant in candela per square metre. Neither field is checked
/// here: a negative, infinite or NaN brightness is carried like any other.
#[derive(Debug, PartialEq, Eq, Structural)]
pub struct AmbientLight {
    pub color: Color,
    pub brightness: Scalar,
}

impl AmbientLight {
    /// The light that a scene has when none is configured: white, at a
    /// brightness of 80.
    pub open spec fn spec_default() -> AmbientLight {
        AmbientLight { color: Color::spec_white(), brightness: Scalar { bits: 0x42a0_0000 } }
    }

    /// No ambient light: white, at a brightness of zero.
    pub open spec fn spec_none() -> AmbientLight {
        AmbientLight { color: Color::spec_white(), brightness: Scalar::spec_zero() }
    }

    /// No ambient light: white, at a brightness of zero.
    #[verifier::when_used_as_spec(spec_none)]
    pub fn none() -> (light: AmbientLight)
        ensures
            light == AmbientLight::spec_none(),
            light.color == Color::white(),
            light.brightness.denotes(0),
    {
        proof {
            AmbientLight::lemma_presets();
        }
        AmbientLight { color: Color::white(), brightness: Scalar::zero() }
    }

    /// The render stage's copy of a simulation-stage light: a duplicate of
    /// `source`.
    pub fn extract_resource(source: &AmbientLight) -> (mirror: AmbientLight)
        ensures
            mirror == *source,
    {
        source.clone()
    }

    /// Both presets are white; the default's brightness stands for 80, and
    /// that of no light for zero.
    pub proof fn lemma_presets()
        ensures
            AmbientLight::spec_default().color == Color::spec_white(),
            AmbientLight::spec_default().brightness.denotes(80),
            AmbientLight::spec_none().color == Color::spec_white(),
            AmbientLight::spec_none().brightness.denotes(0),
    {
        lemma2_to64();
    }

    /// This light with another color, as after an assignment to the field.
    pub open spec fn with_color(self, color: Color) -> AmbientLight {
        AmbientLight { color, brightness: self.brightness }
    }

    /// This light with another brightness, as after an assignment to the field.
    pub open spec fn with_brightness(self, brightness: Scalar) -> AmbientLight {
        AmbientLight { color: self.color, brightness }
    }
}

impl Default for AmbientLight {
    /// White, at a brightness of 80.
    fn default() -> (light: AmbientLight)
        ensures
            light == AmbientLight::spec_default(),
            light.color == Color::white(),
            light.brightness.denotes(80),
    {
        proof {
            AmbientLight::lemma_presets();
        }
        AmbientLight { color: Color::white(), brightness: Scalar::from_bits(0x42a0_0000) }
    }
}

impl Clone for AmbientLight {
    /// A duplicate with the same color and brightness.
    fn clone(&self) -> (copy: AmbientLight)
        ensures
            copy == *self,
    {
        AmbientLight { color: self.color, brightness: self.brightness }
    }
}

/// A duplicate has the color and brightness of the light it was made from,
/// and is a value of its own: when one of the two is given another color or
/// brightness, it keeps its other field, and it is the one that differs from
/// what both were.
pub proof fn lemma_duplicate_independent(
    light: AmbientLight,
    copy: AmbientLight,
    color: Color,
    brightness: Scalar,
)
    requires
        cloned::<AmbientLight>(light, copy),
    ensures
        copy.color == light.color,
        copy.brightness == light.brightness,
        copy.with_color(color).brightness == light.brightness,
        copy.with_brightness(brightness).color == light.color,
        light.with_color(color).brightness == copy.brightness,
        light.with_brightness(brightness).color == copy.color,
        color != light.color ==> copy.with_color(color) != light,
        brightness != light.brightness ==> copy.with_brightness(brightness) != light,
        color != copy.color ==> light.with_color(color) != copy,
        brightness != copy.brightness ==> light.with_brightness(brightness) != copy,
{
}

} // verus!
