use vstd::prelude::*;
use crate::bits::{Mat4Bits, Vec3Bits, Vec4Bits};

verus! {

// The render context: the marker for the currently bound framebuffer
// (read before every bind so redundant rebinds of the same target are
// skipped), the tracked raster state, and the model-side allocator for GPU
// object identifiers. Keeping all of this in one owned value, rather than
// in process-wide state, lets independent contexts and tests coexist.
// The pipeline records the GPU work it decides on as a sequence of
// `GpuCommand` values; an embedder drains that sequence and performs each
// command, in order, against one real graphics context on one thread.

/// Depth-test configuration of a pass.
#[derive(Clone, Copy, Debug, PartialEq, Eq, Structural)]
pub enum DepthTestType {
    Off,
    LessOrEqual,
}

/// Face-culling configuration of a pass.
#[derive(Clone, Copy, Debug, PartialEq, Eq, Structural)]
pub enum CullType {
    Off,
    Back,
}

/// Blending configuration of a pass. `OneOne` is additive blending with
/// factor one on both source and destination.
#[derive(Clone, Copy, Debug, PartialEq, Eq, Structural)]
pub enum BlendType {
    Off,
    OneOne,
}

/// The kinds of full-screen shading programs the pipeline owns.
#[derive(Clone, Copy, Debug, PartialEq, Eq, Structural)]
pub enum ProgramKind {
    LightPass,
    Copy,
}

/// The closed set of uniform names the two shading programs declare.
#[derive(Clone, Copy, Debug, PartialEq, Eq, Structural)]
pub enum UniformName {
    LightType,
    ColorMap,
    PositionMap,
    NormalMap,
    SurfaceParametersMap,
    DepthMap,
    EyePosition,
    ShadowMvp,
    ShadowMap,
    AmbientColor,
    AmbientIntensity,
    DirectionalDirection,
    DirectionalColor,
    DirectionalIntensity,
    PointPosition,
    PointColor,
    PointIntensity,
    PointAttenuationConstant,
    PointAttenuationLinear,
    PointAttenuationExp,
    SpotPosition,
    SpotDirection,
    SpotColor,
    SpotIntensity,
    SpotAttenuationConstant,
    SpotAttenuationLinear,
    SpotAttenuationExp,
    SpotCutoff,
}

impl UniformName {
    /// The spelling of this uniform in the shader source.
    pub open spec fn spec_text(self) -> Seq<char> {
        match self {
            UniformName::LightType => "lightType"@,
            UniformName::ColorMap => "colorMap"@,
            UniformName::PositionMap => "positionMap"@,
            UniformName::NormalMap => "normalMap"@,
            UniformName::SurfaceParametersMap => "surfaceParametersMap"@,
            UniformName::DepthMap => "depthMap"@,
            UniformName::EyePosition => "eyePosition"@,
            UniformName::ShadowMvp => "shadowMVP"@,
            UniformName::ShadowMap => "shadowMap"@,
            UniformName::AmbientColor => "ambientLight.base.color"@,
            UniformName::AmbientIntensity => "ambientLight.base.intensity"@,
            UniformName::DirectionalDirection => "directionalLight.direction"@,
            UniformName::DirectionalColor => "directionalLight.base.color"@,
            UniformName::DirectionalIntensity => "directionalLight.base.intensity"@,
            UniformName::PointPosition => "pointLight.position"@,
            UniformName::PointColor => "pointLight.base.color"@,
            UniformName::PointIntensity => "pointLight.base.intensity"@,
            UniformName::PointAttenuationConstant => "pointLight.attenuation.constant"@,
            UniformName::PointAttenuationLinear => "pointLight.attenuation.linear"@,
            UniformName::PointAttenuationExp => "pointLight.attenuation.exp"@,
            UniformName::SpotPosition => "spotLight.position"@,
            UniformName::SpotDirection => "spotLight.direction"@,
            UniformName::SpotColor => "spotLight.base.color"@,
            UniformName::SpotIntensity => "spotLight.base.intensity"@,
            UniformName::SpotAttenuationConstant => "spotLight.attenuation.constant"@,
            UniformName::SpotAttenuationLinear => "spotLight.attenuation.linear"@,
            UniformName::SpotAttenuationExp => "spotLight.attenuation.exp"@,
            UniformName::SpotCutoff => "spotLight.cutoff"@,
        }
    }

    /// The spelling of this uniform in the shader source.
    pub fn text(self) -> (r: &'static str)
        ensures
            r@ == self.spec_text(),
    {
        match self {
            UniformName::LightType => "lightType",
            UniformName::ColorMap => "colorMap",
            UniformName::PositionMap => "positionMap",
            UniformName::NormalMap => "normalMap",
            UniformName::SurfaceParametersMap => "surfaceParametersMap",
            UniformName::DepthMap => "depthMap",
            UniformName::EyePosition => "eyePosition",
            UniformName::ShadowMvp => "shadowMVP",
            UniformName::ShadowMap => "shadowMap",
            UniformName::AmbientColor => "ambientLight.base.color",
            UniformName::AmbientIntensity => "ambientLight.base.intensity",
            UniformName::DirectionalDirection => "directionalLight.direction",
            UniformName::DirectionalColor => "directionalLight.base.color",
            UniformName::DirectionalIntensity => "directionalLight.base.intensity",
            UniformName::PointPosition => "pointLight.position",
            UniformName::PointColor => "pointLight.base.color",
            UniformName::PointIntensity => "pointLight.base.intensity",
            UniformName::PointAttenuationConstant => "pointLight.attenuation.constant",
            UniformName::PointAttenuationLinear => "pointLight.attenuation.linear",
            UniformName::PointAttenuationExp => "pointLight.attenuation.exp",
            UniformName::SpotPosition => "spotLight.position",
            UniformName::SpotDirection => "spotLight.direction",
            UniformName::SpotColor => "spotLight.base.color",
            UniformName::SpotIntensity => "spotLight.base.intensity",
            UniformName::SpotAttenuationConstant => "spotLight.attenuation.constant",
            UniformName::SpotAttenuationLinear => "spotLight.attenuation.linear",
            UniformName::SpotAttenuationExp => "spotLight.attenuation.exp",
            UniformName::SpotCutoff => "spotLight.cutoff",
        }
    }
}

/// A value uploaded to a program uniform.
#[derive(Clone, Copy, Debug, PartialEq)]
pub enum UniformValue {
    Int(i32),
    Float(u32),
    Vec3(Vec3Bits),
    Mat4(Mat4Bits),
}

/// One primitive operation against the graphics context. The pipeline
/// decides on these; an embedder performs them in order.
#[derive(Clone, Debug, PartialEq)]
pub enum GpuCommand {
    /// Allocate a framebuffer object under the given model identifier.
    CreateFramebuffer { framebuffer: u64 },
    /// Release a framebuffer object.
    DeleteFramebuffer { framebuffer: u64 },
    /// Allocate a two-dimensional colour texture.
    CreateColorTexture { texture: u64, width: usize, height: usize },
    /// Allocate a two-dimensional depth texture.
    CreateDepthTexture { texture: u64, width: usize, height: usize },
    /// Attach a colour texture to a framebuffer's numbered colour slot.
    AttachColorTexture { framebuffer: u64, texture: u64, slot: usize },
    /// Attach a depth texture to a framebuffer.
    AttachDepthTexture { framebuffer: u64, texture: u64 },
    /// Compile and link one of the pipeline's shading programs.
    CompileProgram { program: u64, kind: ProgramKind },
    /// Make a framebuffer the draw destination; identifier zero is the
    /// display surface.
    BindFramebuffer { framebuffer: u64 },
    /// Set the viewport to cover the given extent.
    SetViewport { width: usize, height: usize },
    /// Set the colour used by the next clear.
    SetClearColor { color: Vec4Bits },
    /// Clear the colour and depth of the bound framebuffer.
    Clear,
    /// Enable or disable depth writes.
    DepthWrite { enabled: bool },
    /// Set the depth test.
    DepthTest { test: DepthTestType },
    /// Set face culling.
    Cull { cull: CullType },
    /// Set blending.
    Blend { blend: BlendType },
    /// Bind a texture to a numbered texture unit.
    BindTexture { texture: u64, unit: usize },
    /// Upload a value to a named uniform of a program.
    Uniform { program: u64, name: UniformName, value: UniformValue },
    /// Draw a full-screen quad with the given program.
    DrawFullScreenQuad { program: u64 },
}

/// The raster state the context tracks: which framebuffer is bound (`None`
/// before the first bind) and the depth, culling and blending configuration.
/// A fresh context starts from the graphics defaults: depth writes on, depth
/// test off, culling off, blending off.
#[derive(Clone, Copy, Debug, PartialEq, Eq, Structural)]
pub struct GpuState {
    pub bound: Option<u64>,
    pub depth_write: bool,
    pub depth_test: DepthTestType,
    pub cull: CullType,
    pub blend: BlendType,
}

/// One rendering context. Owns the currently-bound marker and tracked
/// raster state, the pool of model-side object identifiers (the display
/// surface is identifier zero, so fresh identifiers start at one), and the
/// recorded command sequence.
#[derive(Debug)]
pub struct RenderContext {
    pub state: GpuState,
    pub next_id: u64,
    pub commands: Vec<GpuCommand>,
}

impl RenderContext {
    /// A context is well formed when its identifier pool never hands out
    /// identifier zero, which names the display surface.
    pub open spec fn wf(self) -> bool {
        self.next_id >= 1
    }

    /// The identifier pool is close to exhaustion: no further GPU object
    /// may be allocated from this context.
    pub open spec fn ids_exhausted(self) -> bool {
        self.next_id > u64::MAX - 10
    }

    /// The command sequence a bind of `framebuffer` appends: nothing when
    /// that framebuffer is already bound, else the bind and a viewport set.
    pub open spec fn bind_cmds(self, framebuffer: u64, width: usize, height: usize) -> Seq<
        GpuCommand,
    > {
        if self.state.bound == Some(framebuffer) {
            Seq::empty()
        } else {
            seq![
                GpuCommand::BindFramebuffer { framebuffer },
                GpuCommand::SetViewport { width, height },
            ]
        }
    }

    pub fn new() -> (r: RenderContext)
        ensures
            r.state == (GpuState {
                bound: None::<u64>,
                depth_write: true,
                depth_test: DepthTestType::Off,
                cull: CullType::Off,
                blend: BlendType::Off,
            }),
            r.next_id == 1,
            r.commands@ == Seq::<GpuCommand>::empty(),
    {
        RenderContext {
            state: GpuState {
                bound: None,
                depth_write: true,
                depth_test: DepthTestType::Off,
                cull: CullType::Off,
                blend: BlendType::Off,
            },
            next_id: 1,
            commands: Vec::new(),
        }
    }

    /// Hand out a fresh model-side object identifier.
    pub fn fresh_id(&mut self) -> (r: u64)
        requires
            old(self).next_id < u64::MAX,
        ensures
            r == old(self).next_id,
            final(self).next_id == old(self).next_id + 1,
            final(self).state == old(self).state,
            final(self).commands@ == old(self).commands@,
    {
        let r = self.next_id;
        self.next_id = self.next_id + 1;
        r
    }

    /// Record one command.
    pub fn emit(&mut self, cmd: GpuCommand)
        ensures
            final(self).commands@ == old(self).commands@.push(cmd),
            final(self).state == old(self).state,
            final(self).next_id == old(self).next_id,
    {
        self.commands.push(cmd);
    }

    /// Make `framebuffer` the draw destination with a viewport of the given
    /// extent, skipping the work when it is already bound. The viewport is
    /// part of the skipped work: a rebind of the bound framebuffer leaves
    /// the viewport untouched too.
    pub fn bind_framebuffer(&mut self, framebuffer: u64, width: usize, height: usize)
        ensures
            final(self).commands@ == old(self).commands@ + old(self).bind_cmds(
                framebuffer,
                width,
                height,
            ),
            final(self).state == (GpuState { bound: Some(framebuffer), ..old(self).state }),
            final(self).next_id == old(self).next_id,
    {
        let already = match self.state.bound {
            Some(b) => b == framebuffer,
            None => false,
        };
        if !already {
            self.emit(GpuCommand::BindFramebuffer { framebuffer });
            self.emit(GpuCommand::SetViewport { width, height });
            self.state.bound = Some(framebuffer);
        } else {
            self.state.bound = Some(framebuffer);
        }
        proof {
            assert(final(self).commands@ =~= old(self).commands@ + old(self).bind_cmds(
                framebuffer,
                width,
                height,
            ));
        }
    }

    /// Enable or disable depth writes.
    pub fn set_depth_write(&mut self, enabled: bool)
        ensures
            final(self).commands@ == old(self).commands@.push(
                GpuCommand::DepthWrite { enabled },
            ),
            final(self).state == (GpuState { depth_write: enabled, ..old(self).state }),
            final(self).next_id == old(self).next_id,
    {
        self.emit(GpuCommand::DepthWrite { enabled });
        self.state.depth_write = enabled;
    }

    /// Set the depth test.
    pub fn set_depth_test(&mut self, test: DepthTestType)
        ensures
            final(self).commands@ == old(self).commands@.push(GpuCommand::DepthTest { test }),
            final(self).state == (GpuState { depth_test: test, ..old(self).state }),
            final(self).next_id == old(self).next_id,
    {
        self.emit(GpuCommand::DepthTest { test });
        self.state.depth_test = test;
    }

    /// Set face culling.
    pub fn set_cull(&mut self, cull: CullType)
        ensures
            final(self).commands@ == old(self).commands@.push(GpuCommand::Cull { cull }),
            final(self).state == (GpuState { cull, ..old(self).state }),
            final(self).next_id == old(self).next_id,
    {
        self.emit(GpuCommand::Cull { cull });
        self.state.cull = cull;
    }

    /// Set blending.
    pub fn set_blend(&mut self, blend: BlendType)
        ensures
            final(self).commands@ == old(self).commands@.push(GpuCommand::Blend { blend }),
            final(self).state == (GpuState { blend, ..old(self).state }),
            final(self).next_id == old(self).next_id,
    {
        self.emit(GpuCommand::Blend { blend });
        self.state.blend = blend;
    }
}

} // verus!
