use vstd::prelude::*;
use crate::bits::Vec3Bits;

verus! {

/// What the light pass reads from the scene camera: the eye position. The
/// camera's matrices belong to the geometry pass's draw calls, which an
/// external scene renderer issues, so they are not modelled here.
#[derive(Clone, Copy, Debug, PartialEq, Eq, Structural)]
pub struct Camera {
    pub position: Vec3Bits,
}

impl Camera {
    /// The eye position.
    pub fn position(&self) -> (r: Vec3Bits)
        ensures
            r == self.position,
    {
        self.position
    }
}

} // verus!
