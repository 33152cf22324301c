//! Kinds of light.
use vstd::prelude::*;

verus! {

/// Type of a light.
#[derive(Clone, Copy, Debug, PartialEq, Eq, Structural)]
pub enum LightType {
    /// Directional light that casts shadows.
    Main,
    /// Directional light, like the sun's.
    Directional,
    /// Point light, like a bulb's.
    Point,
}

impl LightType {
    /// The code shaders read for this type of light.
    pub fn shader_code(&self) -> (r: i32)
        ensures
            r == match *self {
                LightType::Main => 0i32,
                LightType::Directional => 1i32,
                LightType::Point => 2i32,
            },
    {
        match self {
            LightType::Main => 0,
            LightType::Directional => 1,
            LightType::Point => 2,
        }
    }
}

} // verus!
