use vstd::prelude::*;
use crate::bits::{Mat4Bits, Vec3Bits};
use crate::texture::Texture;

verus! {

// The light kinds the light pass can accumulate. Every numeric field holds
// the bit pattern of one single-precision number; the pipeline routes these
// values into uniform uploads unchanged.

/// Colour and intensity, shared by every light kind.
#[derive(Clone, Copy, Debug, PartialEq, Eq, Structural)]
pub struct BaseLight {
    pub color: Vec3Bits,
    pub intensity: u32,
}

/// Distance attenuation of a point or spot light: constant, linear and
/// quadratic ("exp") coefficients.
#[derive(Clone, Copy, Debug, PartialEq, Eq, Structural)]
pub struct Attenuation {
    pub constant: u32,
    pub linear: u32,
    pub exp: u32,
}

/// What a shadow-casting light hands the light pass: the combined shadow
/// matrix (the bias matrix of this crate times the shadow camera's
/// projection and view, multiplied by the embedder in its floating-point
/// type) and the shadow depth map rendered from that camera.
#[derive(Clone, Copy, Debug, PartialEq, Eq)]
pub struct Shadow {
    pub mvp: Mat4Bits,
    pub map: Texture,
}

/// A light shining evenly from every direction.
#[derive(Clone, Copy, Debug, PartialEq, Eq, Structural)]
pub struct AmbientLight {
    pub base: BaseLight,
}

/// A light shining along one direction; `shadow` is present exactly when
/// the light has a valid shadow camera, and its absence is a deliberate
/// soft skip, not an error.
#[derive(Clone, Copy, Debug, PartialEq, Eq)]
pub struct DirectionalLight {
    pub direction: Vec3Bits,
    pub base: BaseLight,
    pub shadow: Option<Shadow>,
}

/// A light shining from one position, attenuated with distance; casts no
/// shadow.
#[derive(Clone, Copy, Debug, PartialEq, Eq, Structural)]
pub struct PointLight {
    pub position: Vec3Bits,
    pub base: BaseLight,
    pub attenuation: Attenuation,
}

/// A light shining from one position inside a cone. `cutoff_cosine` holds
/// the cosine of the cone's cutoff angle, computed once by the embedder
/// when the light is set up, so the upload never recomputes it per call or
/// per fragment.
#[derive(Clone, Copy, Debug, PartialEq, Eq)]
pub struct SpotLight {
    pub position: Vec3Bits,
    pub direction: Vec3Bits,
    pub base: BaseLight,
    pub attenuation: Attenuation,
    pub cutoff_cosine: u32,
    pub shadow: Option<Shadow>,
}

/// Marker for everything that emits light into the light pass.
pub trait Emitting {

}

impl Emitting for AmbientLight {

}

impl Emitting for DirectionalLight {

}

impl Emitting for PointLight {

}

impl Emitting for SpotLight {

}

} // verus!
