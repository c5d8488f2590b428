use vstd::prelude::*;
use crate::bits::Vec4Bits;
use crate::context::{GpuCommand, RenderContext};
use crate::texture::Texture;

verus! {

// Render targets: a uniform capability (bind, clear) over two kinds of draw
// destination. The screen target is the display surface, always framebuffer
// zero with the window's extent; a colour target owns a framebuffer object
// with a fixed number of colour attachments and one depth attachment, all
// allocated eagerly at construction. A colour target is never resized in
// place: its owner builds a replacement and releases the old framebuffer.

/// Reasons a render target cannot be built.
#[derive(Clone, Debug, PartialEq)]
pub enum Error {
    FailedToCreateFramebuffer { message: String },
}

/// The commands that clear the bound target: depth writes are always
/// re-enabled first, so a depth-write-disabled prior pass cannot suppress
/// the depth clear.
pub open spec fn clear_cmds(color: Vec4Bits) -> Seq<GpuCommand> {
    seq![
        GpuCommand::DepthWrite { enabled: true },
        GpuCommand::SetClearColor { color },
        GpuCommand::Clear,
    ]
}

// SCREEN RENDER TARGET

/// The display surface: framebuffer zero, with the window's logical extent
/// and the colour used when it is cleared.
#[derive(Clone, Copy, Debug, PartialEq, Eq, Structural)]
pub struct ScreenRendertarget {
    pub width: usize,
    pub height: usize,
    pub clear_color: Vec4Bits,
}

impl ScreenRendertarget {
    /// The framebuffer identifier of the display surface.
    pub open spec fn spec_handle(self) -> u64 {
        0
    }

    /// Build the screen target. Nothing is allocated: the display surface
    /// already exists, so this cannot fail.
    pub fn create(width: usize, height: usize, clear_color: Vec4Bits) -> (r: Result<
        ScreenRendertarget,
        Error,
    >)
        ensures
            r == Ok::<ScreenRendertarget, Error>(
                ScreenRendertarget { width, height, clear_color },
            ),
    {
        Ok(ScreenRendertarget { width, height, clear_color })
    }

    /// Make the display surface the draw destination, with its extent as
    /// the viewport; skipped when it is already bound.
    pub fn bind(&self, ctx: &mut RenderContext)
        ensures
            final(ctx).commands@ == old(ctx).commands@ + old(ctx).bind_cmds(
                0,
                self.width,
                self.height,
            ),
            final(ctx).state.bound == Some(0u64),
            final(ctx).state.depth_write == old(ctx).state.depth_write,
            final(ctx).state.depth_test == old(ctx).state.depth_test,
            final(ctx).state.cull == old(ctx).state.cull,
            final(ctx).state.blend == old(ctx).state.blend,
            final(ctx).next_id == old(ctx).next_id,
    {
        ctx.bind_framebuffer(0, self.width, self.height);
    }

    /// Clear the colour and depth of the bound target with this target's
    /// clear colour.
    pub fn clear(&self, ctx: &mut RenderContext)
        ensures
            final(ctx).commands@ == old(ctx).commands@ + clear_cmds(self.clear_color),
            final(ctx).state.bound == old(ctx).state.bound,
            final(ctx).state.depth_write == true,
            final(ctx).state.depth_test == old(ctx).state.depth_test,
            final(ctx).state.cull == old(ctx).state.cull,
            final(ctx).state.blend == old(ctx).state.blend,
            final(ctx).next_id == old(ctx).next_id,
    {
        ctx.set_depth_write(true);
        ctx.emit(GpuCommand::SetClearColor { color: self.clear_color });
        ctx.emit(GpuCommand::Clear);
        proof {
            assert(final(ctx).commands@ =~= old(ctx).commands@ + clear_cmds(self.clear_color));
        }
    }
}

// COLOR RENDER TARGET

/// An off-screen draw destination: a framebuffer object with an ordered
/// sequence of colour attachments and one depth attachment. The attachment
/// count and order are fixed at construction; the index of a colour
/// attachment is the binding contract other components rely on.
#[derive(Clone, Debug, PartialEq)]
pub struct ColorRendertarget {
    pub handle: u64,
    pub width: usize,
    pub height: usize,
    pub clear_color: Vec4Bits,
    pub targets: Vec<Texture>,
    pub depth_target: Texture,
}

/// The two commands that allocate and attach colour channel `i` of a new
/// target whose framebuffer identifier is `base`.
pub open spec fn channel_cmds(base: int, width: usize, height: usize, i: int) -> Seq<GpuCommand> {
    seq![
        GpuCommand::CreateColorTexture { texture: (base + 1 + i) as u64, width, height },
        GpuCommand::AttachColorTexture {
            framebuffer: base as u64,
            texture: (base + 1 + i) as u64,
            slot: i as usize,
        },
    ]
}

/// The commands for colour channels `0 .. n` of a new target.
pub open spec fn channels_cmds(base: int, width: usize, height: usize, n: int) -> Seq<GpuCommand>
    decreases n,
{
    if n <= 0 {
        Seq::empty()
    } else {
        channels_cmds(base, width, height, n - 1) + channel_cmds(base, width, height, n - 1)
    }
}

/// The full command sequence that builds a colour target with `n` colour
/// channels: the framebuffer, each colour texture attached to its slot in
/// order, then the depth texture.
pub open spec fn create_cmds(base: int, width: usize, height: usize, n: int) -> Seq<GpuCommand> {
    seq![GpuCommand::CreateFramebuffer { framebuffer: base as u64 }] + channels_cmds(
        base,
        width,
        height,
        n,
    ) + seq![
        GpuCommand::CreateDepthTexture { texture: (base + 1 + n) as u64, width, height },
        GpuCommand::AttachDepthTexture {
            framebuffer: base as u64,
            texture: (base + 1 + n) as u64,
        },
    ]
}

impl ColorRendertarget {
    /// A colour target is well formed when every attachment has the
    /// target's extent, its framebuffer is not the display surface, and
    /// the attachments are pairwise distinct objects.
    pub open spec fn wf(self) -> bool {
        &&& self.handle != 0
        &&& self.targets@.len() >= 1
        &&& forall|i: int|
            0 <= i < self.targets@.len() ==> (#[trigger] self.targets@[i]).width == self.width
                && self.targets@[i].height == self.height
        &&& self.depth_target.width == self.width
        &&& self.depth_target.height == self.height
        &&& forall|i: int, j: int|
            0 <= i < j < self.targets@.len() ==> (#[trigger] self.targets@[i]).id
                != (#[trigger] self.targets@[j]).id
        &&& forall|i: int|
            0 <= i < self.targets@.len() ==> (#[trigger] self.targets@[i]).id
                != self.depth_target.id
    }

    /// Build a colour target with `no_color_channels` colour attachments
    /// plus one depth attachment, all at the given extent, allocated
    /// eagerly. Fails exactly when the context's identifier pool is
    /// exhausted, and then changes nothing; a failure to complete the
    /// framebuffer on the real context is reported by the embedder.
    pub fn create(
        ctx: &mut RenderContext,
        width: usize,
        height: usize,
        no_color_channels: usize,
        clear_color: Vec4Bits,
    ) -> (r: Result<ColorRendertarget, Error>)
        requires
            old(ctx).wf(),
            1 <= no_color_channels <= 8,
        ensures
            r is Err <==> old(ctx).ids_exhausted(),
            r is Err ==> *final(ctx) == *old(ctx),
            r matches Ok(t) ==> {
                &&& t.wf()
                &&& t.handle == old(ctx).next_id
                &&& t.width == width
                &&& t.height == height
                &&& t.clear_color == clear_color
                &&& t.targets@.len() == no_color_channels
                &&& forall|i: int|
                    0 <= i < no_color_channels ==> #[trigger] t.targets@[i] == (Texture {
                        id: (old(ctx).next_id + 1 + i) as u64,
                        width,
                        height,
                    })
                &&& t.depth_target == (Texture {
                    id: (old(ctx).next_id + 1 + no_color_channels) as u64,
                    width,
                    height,
                })
                &&& final(ctx).next_id == old(ctx).next_id + 2 + no_color_channels
                &&& final(ctx).state == old(ctx).state
                &&& final(ctx).commands@ == old(ctx).commands@ + create_cmds(
                    old(ctx).next_id as int,
                    width,
                    height,
                    no_color_channels as int,
                )
            },
    {
        if ctx.next_id > u64::MAX - 10 {
            return Err(
                Error::FailedToCreateFramebuffer {
                    message: String::from_str("graphics object identifiers exhausted"),
                },
            );
        }
        let ghost base = ctx.next_id as int;
        let handle = ctx.fresh_id();
        ctx.emit(GpuCommand::CreateFramebuffer { framebuffer: handle });
        let mut targets: Vec<Texture> = Vec::new();
        let mut i: usize = 0;
        while i < no_color_channels
            invariant
                1 <= no_color_channels <= 8,
                0 <= i <= no_color_channels,
                base <= u64::MAX - 10,
                handle == base,
                ctx.next_id == base + 1 + i,
                ctx.state == old(ctx).state,
                targets@.len() == i,
                forall|j: int|
                    0 <= j < i ==> #[trigger] targets@[j] == (Texture {
                        id: (base + 1 + j) as u64,
                        width,
                        height,
                    }),
                ctx.commands@ == old(ctx).commands@ + seq![
                    GpuCommand::CreateFramebuffer { framebuffer: base as u64 },
                ] + channels_cmds(base, width, height, i as int),
            decreases no_color_channels - i,
        {
            let id = ctx.fresh_id();
            ctx.emit(GpuCommand::CreateColorTexture { texture: id, width, height });
            ctx.emit(GpuCommand::AttachColorTexture { framebuffer: handle, texture: id, slot: i });
            targets.push(Texture { id, width, height });
            proof {
                assert(channels_cmds(base, width, height, i + 1) == channels_cmds(
                    base,
                    width,
                    height,
                    i as int,
                ) + channel_cmds(base, width, height, i as int));
                assert(ctx.commands@ =~= old(ctx).commands@ + seq![
                    GpuCommand::CreateFramebuffer { framebuffer: base as u64 },
                ] + channels_cmds(base, width, height, i + 1));
            }
            i = i + 1;
        }
        let depth_id = ctx.fresh_id();
        ctx.emit(GpuCommand::CreateDepthTexture { texture: depth_id, width, height });
        ctx.emit(GpuCommand::AttachDepthTexture { framebuffer: handle, texture: depth_id });
        let t = ColorRendertarget {
            handle,
            width,
            height,
            clear_color,
            targets,
            depth_target: Texture { id: depth_id, width, height },
        };
        proof {
            assert(final(ctx).commands@ =~= old(ctx).commands@ + create_cmds(
                base,
                width,
                height,
                no_color_channels as int,
            ));
        }
        Ok(t)
    }

    /// Make this target the draw destination, with its extent as the
    /// viewport; skipped when it is already bound.
    pub fn bind(&self, ctx: &mut RenderContext)
        ensures
            final(ctx).commands@ == old(ctx).commands@ + old(ctx).bind_cmds(
                self.handle,
                self.width,
                self.height,
            ),
            final(ctx).state.bound == Some(self.handle),
            final(ctx).state.depth_write == old(ctx).state.depth_write,
            final(ctx).state.depth_test == old(ctx).state.depth_test,
            final(ctx).state.cull == old(ctx).state.cull,
            final(ctx).state.blend == old(ctx).state.blend,
            final(ctx).next_id == old(ctx).next_id,
    {
        ctx.bind_framebuffer(self.handle, self.width, self.height);
    }

    /// Clear the colour and depth of the bound target with this target's
    /// clear colour.
    pub fn clear(&self, ctx: &mut RenderContext)
        ensures
            final(ctx).commands@ == old(ctx).commands@ + clear_cmds(self.clear_color),
            final(ctx).state.bound == old(ctx).state.bound,
            final(ctx).state.depth_write == true,
            final(ctx).state.depth_test == old(ctx).state.depth_test,
            final(ctx).state.cull == old(ctx).state.cull,
            final(ctx).state.blend == old(ctx).state.blend,
            final(ctx).next_id == old(ctx).next_id,
    {
        ctx.set_depth_write(true);
        ctx.emit(GpuCommand::SetClearColor { color: self.clear_color });
        ctx.emit(GpuCommand::Clear);
        proof {
            assert(final(ctx).commands@ =~= old(ctx).commands@ + clear_cmds(self.clear_color));
        }
    }

    /// Release the framebuffer object. Consumes the target, so the release
    /// is recorded exactly once, on every path that gives the target up;
    /// the attachments are owned by their own texture lifecycle and are not
    /// touched here.
    pub fn destroy(self, ctx: &mut RenderContext)
        ensures
            final(ctx).commands@ == old(ctx).commands@.push(
                GpuCommand::DeleteFramebuffer { framebuffer: self.handle },
            ),
            final(ctx).state == old(ctx).state,
            final(ctx).next_id == old(ctx).next_id,
    {
        ctx.emit(GpuCommand::DeleteFramebuffer { framebuffer: self.handle });
    }
}

/// The uniform capability over the two target kinds: a closed set of two
/// cases, with the shared bind and clear operations dispatching on the tag.
#[derive(Clone, Debug, PartialEq)]
pub enum Rendertarget {
    Screen(ScreenRendertarget),
    Color(ColorRendertarget),
}

impl Rendertarget {
    /// The framebuffer identifier this target draws into.
    pub open spec fn spec_handle(self) -> u64 {
        match self {
            Rendertarget::Screen(t) => 0,
            Rendertarget::Color(t) => t.handle,
        }
    }

    /// The extent of this target.
    pub open spec fn spec_extent(self) -> (usize, usize) {
        match self {
            Rendertarget::Screen(t) => (t.width, t.height),
            Rendertarget::Color(t) => (t.width, t.height),
        }
    }

    /// The colour this target is cleared with.
    pub open spec fn spec_clear_color(self) -> Vec4Bits {
        match self {
            Rendertarget::Screen(t) => t.clear_color,
            Rendertarget::Color(t) => t.clear_color,
        }
    }

    /// Make this target the draw destination; skipped when already bound.
    pub fn bind(&self, ctx: &mut RenderContext)
        ensures
            final(ctx).commands@ == old(ctx).commands@ + old(ctx).bind_cmds(
                self.spec_handle(),
                self.spec_extent().0,
                self.spec_extent().1,
            ),
            final(ctx).state.bound == Some(self.spec_handle()),
            final(ctx).state.depth_write == old(ctx).state.depth_write,
            final(ctx).state.depth_test == old(ctx).state.depth_test,
            final(ctx).state.cull == old(ctx).state.cull,
            final(ctx).state.blend == old(ctx).state.blend,
            final(ctx).next_id == old(ctx).next_id,
    {
        match self {
            Rendertarget::Screen(t) => t.bind(ctx),
            Rendertarget::Color(t) => t.bind(ctx),
        }
    }

    /// Clear the colour and depth of the bound target with this target's
    /// clear colour.
    pub fn clear(&self, ctx: &mut RenderContext)
        ensures
            final(ctx).commands@ == old(ctx).commands@ + clear_cmds(self.spec_clear_color()),
            final(ctx).state.bound == old(ctx).state.bound,
            final(ctx).state.depth_write == true,
            final(ctx).state.depth_test == old(ctx).state.depth_test,
            final(ctx).state.cull == old(ctx).state.cull,
            final(ctx).state.blend == old(ctx).state.blend,
            final(ctx).next_id == old(ctx).next_id,
    {
        match self {
            Rendertarget::Screen(t) => t.clear(ctx),
            Rendertarget::Color(t) => t.clear(ctx),
        }
    }
}

} // verus!
