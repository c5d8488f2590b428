use vstd::prelude::*;
use crate::context::{GpuCommand, RenderContext};

verus! {

/// A two-dimensional texture: its model-side identifier and its extent.
/// The texture owns its GPU memory independently of any render target that
/// references it; a resized target therefore hands out new textures rather
/// than mutating these.
#[derive(Clone, Copy, Debug, PartialEq, Eq, Structural)]
pub struct Texture {
    pub id: u64,
    pub width: usize,
    pub height: usize,
}

impl Texture {
    /// Bind this texture to the numbered texture unit.
    pub fn bind(&self, ctx: &mut RenderContext, unit: usize)
        ensures
            final(ctx).commands@ == old(ctx).commands@.push(
                GpuCommand::BindTexture { texture: self.id, unit },
            ),
            final(ctx).state == old(ctx).state,
            final(ctx).next_id == old(ctx).next_id,
    {
        ctx.emit(GpuCommand::BindTexture { texture: self.id, unit });
    }
}

} // verus!
