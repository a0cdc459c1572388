//! Scene-wide ambient light: the light's state, its presets, and the step that
//! mirrors the simulation stage's copy into the render stage once per frame.

pub mod color;
pub mod extract;
pub mod light;
pub mod scalar;

pub use crate::color::Color;
pub use crate::extract::RenderAmbientLight;
pub use crate::light::AmbientLight;
pub use crate::scalar::Scalar;
