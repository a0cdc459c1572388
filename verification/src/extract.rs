//! The extraction step: once per frame, before anything is drawn, the render
//! stage's copy of the ambient light is replaced by a duplicate of the
//! simulation stage's.

use crate::light::AmbientLight;
use vstd::prelude::*;

verus! {

/// What the render stage holds after an extraction, given what it held before
/// and the simulation stage's light: the simulation stage's light where there
/// is one, and what it held before where there is none.
pub open spec fn extracted(previous: AmbientLight, source: Option<&AmbientLight>) -> AmbientLight {
    match source {
        Some(light) => *light,
        None => previous,
    }
}

/// The render stage's copy of the ambient light.
///
/// It starts as the default light. After that only [`RenderAmbientLight::extract`]
/// writes it; whoever draws reads it through [`RenderAmbientLight::get`].
#[derive(Debug)]
pub struct RenderAmbientLight {
    light: AmbientLight,
}

impl View for RenderAmbientLight {
    type V = AmbientLight;

    /// The light that the render stage holds.
    closed spec fn view(&self) -> AmbientLight {
        self.light
    }
}

impl RenderAmbientLight {
    /// The render stage's copy as it is before the first extraction: the
    /// default light.
    pub fn new() -> (slot: RenderAmbientLight)
        ensures
            slot@ == AmbientLight::spec_default(),
    {
        RenderAmbientLight { light: AmbientLight::default() }
    }

    /// The light that the render stage holds.
    pub fn get(&self) -> (light: &AmbientLight)
        ensures
            *light == self@,
    {
        &self.light
    }

    /// Runs the extraction for one frame. With a simulation-stage light, the
    /// render stage's copy becomes a duplicate of it, whether or not it differs
    /// from what was held; without one, the copy stays as it is.
    pub fn extract(&mut self, source: Option<&AmbientLight>)
        ensures
            final(self)@ == extracted(old(self)@, source),
    {
        match source {
            Some(light) => {
                self.light = AmbientLight::extract_resource(light);
            },
            None => {},
        }
    }
}

impl Default for RenderAmbientLight {
    /// The render stage's copy as it is before the first extraction.
    fn default() -> (slot: RenderAmbientLight)
        ensures
            slot@ == AmbientLight::spec_default(),
    {
        RenderAmbientLight::new()
    }
}

/// Extraction mirrors the simulation stage: whatever changes its light has
/// gone through and whatever the render stage held, after an extraction the
/// render stage holds the light as the simulation stage has it at that moment.
pub proof fn lemma_extraction_mirrors_source(previous: AmbientLight, source: AmbientLight)
    ensures
        extracted(previous, Some(&source)) == source,
{
}

/// Extraction is idempotent: a second extraction from the same simulation-stage
/// light leaves the render stage as the first one left it.
pub proof fn lemma_extraction_idempotent(previous: AmbientLight, source: Option<&AmbientLight>)
    ensures
        extracted(extracted(previous, source), source) == extracted(previous, source),
{
}

/// Extraction is unconditional: nothing that the render stage holds makes it
/// skip the copy. With a simulation-stage light it ends up the same from any
/// two earlier contents, also from one that already equals that light.
pub proof fn lemma_extraction_unconditional(
    previous: AmbientLight,
    other: AmbientLight,
    source: AmbientLight,
)
    ensures
        extracted(previous, Some(&source)) == extracted(other, Some(&source)),
        extracted(source, Some(&source)) == source,
{
}

} // verus!
