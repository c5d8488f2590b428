use vstd::prelude::*;
use crate::bits::Vec4Bits;
use crate::camera::Camera;
use crate::context::{
    BlendType, CullType, DepthTestType, GpuCommand, GpuState, ProgramKind, RenderContext,
    UniformName, UniformValue,
};
use crate::light::{AmbientLight, DirectionalLight, PointLight, Shadow, SpotLight};
use crate::program;
use crate::program::Program;
use crate::rendertarget;
use crate::rendertarget::{clear_cmds, create_cmds, ColorRendertarget, ScreenRendertarget};
use crate::texture::Texture;

verus! {

// The deferred pipeline: one geometry target with four colour channels
// (colour, position, normal, surface parameters) plus depth, and a light
// pass that accumulates lights either straight into the display surface
// ("direct") or into a dedicated single-channel target that a copy pass
// later resolves to the screen ("buffered"). The choice is fixed at
// construction; the copy program exists exactly when the light target
// does, so neither half of the buffered pair can be reached without the
// other.
//
// The pipeline's decisions are total: once a pipeline exists, recording a
// pass or a light cannot fail, and the `Result` of those calls carries the
// error kinds — a failed compile or link, a failed uniform upload, a
// framebuffer left incomplete — that the embedder performing the recorded
// commands on the real context maps into `Error` for its callers.
// Construction and resize fail here exactly when the context's identifier
// pool is exhausted, and atomically: nothing partial is returned or left
// in place.

/// Everything that can go wrong in the pipeline.
#[derive(Clone, Debug, PartialEq)]
pub enum Error {
    IO { message: String },
    Program(program::Error),
    Rendertarget(rendertarget::Error),
    Texture { message: String },
    LightPassRendertargetNotAvailable { message: String },
}

/// The light-pass configuration, chosen once at construction: write lights
/// straight into the display surface, or own a single-channel target and
/// the program that later copies it to the screen.
#[derive(Clone, Debug, PartialEq)]
pub enum LightPassMode {
    Direct,
    Buffered { rendertarget: ColorRendertarget, copy_program: Program },
}

/// The fully transparent black every freshly built screen and light target
/// clears to; every component is the bit pattern of zero.
pub open spec fn spec_transparent_black() -> Vec4Bits {
    Vec4Bits { x: 0, y: 0, z: 0, w: 0 }
}

/// The raster state the geometry pass draws under: depth writes on,
/// less-or-equal depth test, no culling, no blending.
pub open spec fn geometry_pass_state_cmds() -> Seq<GpuCommand> {
    seq![
        GpuCommand::DepthWrite { enabled: true },
        GpuCommand::DepthTest { test: DepthTestType::LessOrEqual },
        GpuCommand::Cull { cull: CullType::Off },
        GpuCommand::Blend { blend: BlendType::Off },
    ]
}

/// The raster state the light pass draws under: depth writes and depth
/// test off, back-face culling on, additive blending so each light adds
/// its contribution to the ones already accumulated.
pub open spec fn light_pass_state_cmds() -> Seq<GpuCommand> {
    seq![
        GpuCommand::DepthWrite { enabled: false },
        GpuCommand::DepthTest { test: DepthTestType::Off },
        GpuCommand::Cull { cull: CullType::Back },
        GpuCommand::Blend { blend: BlendType::OneOne },
    ]
}

/// The raster state the copy pass draws under: depth writes on,
/// less-or-equal depth test, back-face culling on, no blending.
pub open spec fn copy_pass_state_cmds() -> Seq<GpuCommand> {
    seq![
        GpuCommand::DepthWrite { enabled: true },
        GpuCommand::DepthTest { test: DepthTestType::LessOrEqual },
        GpuCommand::Cull { cull: CullType::Back },
        GpuCommand::Blend { blend: BlendType::Off },
    ]
}

pub struct DeferredPipeline {
    pub light_pass_program: Program,
    pub rendertarget: ScreenRendertarget,
    pub geometry_pass_rendertarget: ColorRendertarget,
    pub light_pass: LightPassMode,
}

impl DeferredPipeline {
    /// A pipeline is well formed when the geometry target carries exactly
    /// four colour channels plus depth at the screen's extent, the light
    /// target (when present) carries one channel at the same extent, and
    /// each program is of its place's kind.
    pub open spec fn wf(self) -> bool {
        &&& self.light_pass_program.kind == ProgramKind::LightPass
        &&& self.geometry_pass_rendertarget.wf()
        &&& self.geometry_pass_rendertarget.targets@.len() == 4
        &&& self.geometry_pass_rendertarget.width == self.rendertarget.width
        &&& self.geometry_pass_rendertarget.height == self.rendertarget.height
        &&& (self.light_pass matches LightPassMode::Buffered { rendertarget, copy_program } ==> {
            &&& rendertarget.wf()
            &&& rendertarget.targets@.len() == 1
            &&& rendertarget.width == self.rendertarget.width
            &&& rendertarget.height == self.rendertarget.height
            &&& copy_program.kind == ProgramKind::Copy
        })
    }

    /// The framebuffer the light pass writes into: the buffered light
    /// target when present, else the display surface.
    pub open spec fn light_target_handle(self) -> u64 {
        match self.light_pass {
            LightPassMode::Buffered { rendertarget, .. } => rendertarget.handle,
            LightPassMode::Direct => 0,
        }
    }

    /// The clear colour of the target the light pass writes into.
    pub open spec fn light_target_clear_color(self) -> Vec4Bits {
        match self.light_pass {
            LightPassMode::Buffered { rendertarget, .. } => rendertarget.clear_color,
            LightPassMode::Direct => self.rendertarget.clear_color,
        }
    }

    /// The buffered light target, when the pipeline owns one.
    pub open spec fn spec_light_target(self) -> Option<ColorRendertarget> {
        match self.light_pass {
            LightPassMode::Buffered { rendertarget, .. } => Some(rendertarget),
            LightPassMode::Direct => None,
        }
    }

    /// The copy program, when the pipeline owns one.
    pub open spec fn spec_copy_program(self) -> Option<Program> {
        match self.light_pass {
            LightPassMode::Buffered { copy_program, .. } => Some(copy_program),
            LightPassMode::Direct => None,
        }
    }

    /// The commands that bind the four geometry colour channels and the
    /// geometry depth channel to texture units zero to four and wire each
    /// unit into the light-pass program's sampler uniforms.
    pub open spec fn gbuffer_binding_cmds(self) -> Seq<GpuCommand> {
        let g = self.geometry_pass_rendertarget;
        let p = self.light_pass_program;
        seq![
            GpuCommand::BindTexture { texture: g.targets@[0].id, unit: 0 },
            p.uniform_cmd(UniformName::ColorMap, UniformValue::Int(0)),
            GpuCommand::BindTexture { texture: g.targets@[1].id, unit: 1 },
            p.uniform_cmd(UniformName::PositionMap, UniformValue::Int(1)),
            GpuCommand::BindTexture { texture: g.targets@[2].id, unit: 2 },
            p.uniform_cmd(UniformName::NormalMap, UniformValue::Int(2)),
            GpuCommand::BindTexture { texture: g.targets@[3].id, unit: 3 },
            p.uniform_cmd(UniformName::SurfaceParametersMap, UniformValue::Int(3)),
            GpuCommand::BindTexture { texture: g.depth_target.id, unit: 4 },
            p.uniform_cmd(UniformName::DepthMap, UniformValue::Int(4)),
        ]
    }

    /// The commands a shadow-capable light contributes: when it has a
    /// valid shadow camera, the combined shadow matrix and the shadow map
    /// on texture unit five; when it has none, nothing at all — a silent
    /// skip, not an error.
    pub open spec fn shadow_cmds(self, shadow: Option<Shadow>) -> Seq<GpuCommand> {
        let p = self.light_pass_program;
        match shadow {
            Some(s) => seq![
                p.uniform_cmd(UniformName::ShadowMvp, UniformValue::Mat4(s.mvp)),
                GpuCommand::BindTexture { texture: s.map.id, unit: 5 },
                p.uniform_cmd(UniformName::ShadowMap, UniformValue::Int(5)),
            ],
            None => Seq::empty(),
        }
    }

    /// Build the pipeline: the light-pass program, the screen target, the
    /// four-channel geometry target, and — only when
    /// `use_light_pass_rendertarget` is set — the light target and the
    /// copy program. Fails exactly when the context cannot allocate the
    /// identifiers, and then changes nothing: no partial pipeline is
    /// returned.
    pub fn new(
        ctx: &mut RenderContext,
        screen_width: usize,
        screen_height: usize,
        use_light_pass_rendertarget: bool,
        background_color: Vec4Bits,
    ) -> (r: Result<DeferredPipeline, Error>)
        requires
            old(ctx).wf(),
        ensures
            r is Err <==> old(ctx).next_id > u64::MAX - 32,
            r is Err ==> *final(ctx) == *old(ctx),
            r matches Ok(p) ==> {
                &&& p.wf()
                &&& p.rendertarget == (ScreenRendertarget {
                    width: screen_width,
                    height: screen_height,
                    clear_color: spec_transparent_black(),
                })
                &&& p.light_pass_program.handle == old(ctx).next_id
                &&& p.geometry_pass_rendertarget.handle == old(ctx).next_id + 1
                &&& p.geometry_pass_rendertarget.width == screen_width
                &&& p.geometry_pass_rendertarget.height == screen_height
                &&& p.geometry_pass_rendertarget.clear_color == background_color
                &&& p.geometry_pass_rendertarget.targets@.len() == 4
                &&& (p.light_pass is Buffered <==> use_light_pass_rendertarget)
                &&& (p.light_pass matches LightPassMode::Buffered { rendertarget, copy_program }
                    ==> {
                    &&& rendertarget.handle == old(ctx).next_id + 7
                    &&& rendertarget.width == screen_width
                    &&& rendertarget.height == screen_height
                    &&& rendertarget.clear_color == spec_transparent_black()
                    &&& rendertarget.targets@.len() == 1
                    &&& copy_program.handle == old(ctx).next_id + 10
                })
                &&& final(ctx).state == old(ctx).state
                &&& final(ctx).next_id == old(ctx).next_id + (
                if use_light_pass_rendertarget {
                    11int
                } else {
                    7int
                })
                &&& final(ctx).commands@ == old(ctx).commands@ + seq![
                    GpuCommand::CompileProgram {
                        program: old(ctx).next_id,
                        kind: ProgramKind::LightPass,
                    },
                ] + create_cmds(
                    old(ctx).next_id + 1,
                    screen_width,
                    screen_height,
                    4,
                ) + (if use_light_pass_rendertarget {
                    create_cmds(old(ctx).next_id + 7, screen_width, screen_height, 1) + seq![
                        GpuCommand::CompileProgram {
                            program: (old(ctx).next_id + 10) as u64,
                            kind: ProgramKind::Copy,
                        },
                    ]
                } else {
                    Seq::empty()
                })
            },
    {
        if ctx.next_id > u64::MAX - 32 {
            return Err(
                Error::Program(
                    program::Error::FailedToCompile {
                        message: String::from_str("graphics object identifiers exhausted"),
                    },
                ),
            );
        }
        let light_pass_program = match Program::from_source(ctx, ProgramKind::LightPass) {
            Ok(p) => p,
            Err(e) => { return Err(Error::Program(e)) },
        };
        let transparent = Vec4Bits { x: 0, y: 0, z: 0, w: 0 };
        let screen = match ScreenRendertarget::create(screen_width, screen_height, transparent) {
            Ok(t) => t,
            Err(e) => { return Err(Error::Rendertarget(e)) },
        };
        let geometry = match ColorRendertarget::create(
            ctx,
            screen_width,
            screen_height,
            4,
            background_color,
        ) {
            Ok(t) => t,
            Err(e) => { return Err(Error::Rendertarget(e)) },
        };
        let light_pass = if use_light_pass_rendertarget {
            let light_target = match ColorRendertarget::create(
                ctx,
                screen_width,
                screen_height,
                1,
                transparent,
            ) {
                Ok(t) => t,
                Err(e) => { return Err(Error::Rendertarget(e)) },
            };
            let copy_program = match Program::from_source(ctx, ProgramKind::Copy) {
                Ok(p) => p,
                Err(e) => { return Err(Error::Program(e)) },
            };
            LightPassMode::Buffered { rendertarget: light_target, copy_program }
        } else {
            LightPassMode::Direct
        };
        Ok(
            DeferredPipeline {
                light_pass_program,
                rendertarget: screen,
                geometry_pass_rendertarget: geometry,
                light_pass,
            },
        )
    }

    /// Begin the geometry pass: bind and clear the geometry target and set
    /// its raster state. The caller then issues the scene's draw calls;
    /// there is no matching end, the next pass's begin performs the switch.
    pub fn geometry_pass_begin(&self, ctx: &mut RenderContext) -> (r: Result<(), Error>)
        ensures
            r is Ok,
            final(ctx).commands@ == old(ctx).commands@ + old(ctx).bind_cmds(
                self.geometry_pass_rendertarget.handle,
                self.geometry_pass_rendertarget.width,
                self.geometry_pass_rendertarget.height,
            ) + clear_cmds(self.geometry_pass_rendertarget.clear_color)
                + geometry_pass_state_cmds(),
            final(ctx).state == (GpuState {
                bound: Some(self.geometry_pass_rendertarget.handle),
                depth_write: true,
                depth_test: DepthTestType::LessOrEqual,
                cull: CullType::Off,
                blend: BlendType::Off,
            }),
            final(ctx).next_id == old(ctx).next_id,
    {
        self.geometry_pass_rendertarget.bind(ctx);
        self.geometry_pass_rendertarget.clear(ctx);
        ctx.set_depth_write(true);
        ctx.set_depth_test(DepthTestType::LessOrEqual);
        ctx.set_cull(CullType::Off);
        ctx.set_blend(BlendType::Off);
        proof {
            assert(final(ctx).commands@ =~= old(ctx).commands@ + old(ctx).bind_cmds(
                self.geometry_pass_rendertarget.handle,
                self.geometry_pass_rendertarget.width,
                self.geometry_pass_rendertarget.height,
            ) + clear_cmds(self.geometry_pass_rendertarget.clear_color)
                + geometry_pass_state_cmds());
        }
        Ok(())
    }

    /// Begin the light pass: bind and clear the light target (buffered) or
    /// the display surface (direct), set additive-blending raster state,
    /// wire the geometry channels into texture units zero to four, and
    /// upload the camera's eye position. Runs once per frame, before any
    /// light is shone.
    pub fn light_pass_begin(&self, ctx: &mut RenderContext, camera: &Camera) -> (r: Result<
        (),
        Error,
    >)
        requires
            self.wf(),
        ensures
            r is Ok,
            final(ctx).commands@ == old(ctx).commands@ + old(ctx).bind_cmds(
                self.light_target_handle(),
                self.rendertarget.width,
                self.rendertarget.height,
            ) + clear_cmds(self.light_target_clear_color()) + light_pass_state_cmds()
                + self.gbuffer_binding_cmds() + seq![
                self.light_pass_program.uniform_cmd(
                    UniformName::EyePosition,
                    UniformValue::Vec3(camera.position),
                ),
            ],
            final(ctx).state == (GpuState {
                bound: Some(self.light_target_handle()),
                depth_write: false,
                depth_test: DepthTestType::Off,
                cull: CullType::Back,
                blend: BlendType::OneOne,
            }),
            final(ctx).next_id == old(ctx).next_id,
    {
        match &self.light_pass {
            LightPassMode::Buffered { rendertarget, .. } => {
                rendertarget.bind(ctx);
                rendertarget.clear(ctx);
            },
            LightPassMode::Direct => {
                self.rendertarget.bind(ctx);
                self.rendertarget.clear(ctx);
            },
        }
        ctx.set_depth_write(false);
        ctx.set_depth_test(DepthTestType::Off);
        ctx.set_cull(CullType::Back);
        ctx.set_blend(BlendType::OneOne);

        self.geometry_pass_color_texture().bind(ctx, 0);
        self.light_pass_program.add_uniform_int(ctx, UniformName::ColorMap, 0);
        self.geometry_pass_position_texture().bind(ctx, 1);
        self.light_pass_program.add_uniform_int(ctx, UniformName::PositionMap, 1);
        self.geometry_pass_normal_texture().bind(ctx, 2);
        self.light_pass_program.add_uniform_int(ctx, UniformName::NormalMap, 2);
        self.geometry_pass_surface_parameters_texture().bind(ctx, 3);
        self.light_pass_program.add_uniform_int(ctx, UniformName::SurfaceParametersMap, 3);
        self.geometry_pass_depth_texture().bind(ctx, 4);
        self.light_pass_program.add_uniform_int(ctx, UniformName::DepthMap, 4);

        self.light_pass_program.add_uniform_vec3(
            ctx,
            UniformName::EyePosition,
            camera.position(),
        );
        proof {
            assert(final(ctx).commands@ =~= old(ctx).commands@ + old(ctx).bind_cmds(
                self.light_target_handle(),
                self.rendertarget.width,
                self.rendertarget.height,
            ) + clear_cmds(self.light_target_clear_color()) + light_pass_state_cmds()
                + self.gbuffer_binding_cmds() + seq![
                self.light_pass_program.uniform_cmd(
                    UniformName::EyePosition,
                    UniformValue::Vec3(camera.position),
                ),
            ]);
        }
        Ok(())
    }

    /// Accumulate an ambient light: upload its kind and its colour and
    /// intensity, then draw one full-screen quad.
    pub fn shine_ambient_light(&self, ctx: &mut RenderContext, light: &AmbientLight) -> (r: Result<
        (),
        Error,
    >)
        ensures
            r is Ok,
            final(ctx).commands@ == old(ctx).commands@ + seq![
                self.light_pass_program.uniform_cmd(
                    UniformName::LightType,
                    UniformValue::Int(0),
                ),
                self.light_pass_program.uniform_cmd(
                    UniformName::AmbientColor,
                    UniformValue::Vec3(light.base.color),
                ),
                self.light_pass_program.uniform_cmd(
                    UniformName::AmbientIntensity,
                    UniformValue::Float(light.base.intensity),
                ),
                GpuCommand::DrawFullScreenQuad { program: self.light_pass_program.handle },
            ],
            final(ctx).state == old(ctx).state,
            final(ctx).next_id == old(ctx).next_id,
    {
        self.light_pass_program.add_uniform_int(ctx, UniformName::LightType, 0);
        self.light_pass_program.add_uniform_vec3(
            ctx,
            UniformName::AmbientColor,
            light.base.color,
        );
        self.light_pass_program.add_uniform_float(
            ctx,
            UniformName::AmbientIntensity,
            light.base.intensity,
        );
        ctx.emit(GpuCommand::DrawFullScreenQuad { program: self.light_pass_program.handle });
        proof {
            assert(final(ctx).commands@ =~= old(ctx).commands@ + seq![
                self.light_pass_program.uniform_cmd(
                    UniformName::LightType,
                    UniformValue::Int(0),
                ),
                self.light_pass_program.uniform_cmd(
                    UniformName::AmbientColor,
                    UniformValue::Vec3(light.base.color),
                ),
                self.light_pass_program.uniform_cmd(
                    UniformName::AmbientIntensity,
                    UniformValue::Float(light.base.intensity),
                ),
                GpuCommand::DrawFullScreenQuad { program: self.light_pass_program.handle },
            ]);
        }
        Ok(())
    }

    /// Accumulate a directional light: when it has a valid shadow camera,
    /// upload the combined shadow matrix and bind its shadow map to unit
    /// five; then upload its kind, direction, colour and intensity, and
    /// draw one full-screen quad.
    pub fn shine_directional_light(
        &self,
        ctx: &mut RenderContext,
        light: &DirectionalLight,
    ) -> (r: Result<(), Error>)
        ensures
            r is Ok,
            final(ctx).commands@ == old(ctx).commands@ + self.shadow_cmds(light.shadow) + seq![
                self.light_pass_program.uniform_cmd(
                    UniformName::LightType,
                    UniformValue::Int(1),
                ),
                self.light_pass_program.uniform_cmd(
                    UniformName::DirectionalDirection,
                    UniformValue::Vec3(light.direction),
                ),
                self.light_pass_program.uniform_cmd(
                    UniformName::DirectionalColor,
                    UniformValue::Vec3(light.base.color),
                ),
                self.light_pass_program.uniform_cmd(
                    UniformName::DirectionalIntensity,
                    UniformValue::Float(light.base.intensity),
                ),
                GpuCommand::DrawFullScreenQuad { program: self.light_pass_program.handle },
            ],
            final(ctx).state == old(ctx).state,
            final(ctx).next_id == old(ctx).next_id,
    {
        if let Some(shadow) = &light.shadow {
            self.light_pass_program.add_uniform_mat4(ctx, UniformName::ShadowMvp, shadow.mvp);
            shadow.map.bind(ctx, 5);
            self.light_pass_program.add_uniform_int(ctx, UniformName::ShadowMap, 5);
        }
        self.light_pass_program.add_uniform_int(ctx, UniformName::LightType, 1);
        self.light_pass_program.add_uniform_vec3(
            ctx,
            UniformName::DirectionalDirection,
            light.direction,
        );
        self.light_pass_program.add_uniform_vec3(
            ctx,
            UniformName::DirectionalColor,
            light.base.color,
        );
        self.light_pass_program.add_uniform_float(
            ctx,
            UniformName::DirectionalIntensity,
            light.base.intensity,
        );
        ctx.emit(GpuCommand::DrawFullScreenQuad { program: self.light_pass_program.handle });
        proof {
            assert(final(ctx).commands@ =~= old(ctx).commands@ + self.shadow_cmds(light.shadow)
                + seq![
                self.light_pass_program.uniform_cmd(
                    UniformName::LightType,
                    UniformValue::Int(1),
                ),
                self.light_pass_program.uniform_cmd(
                    UniformName::DirectionalDirection,
                    UniformValue::Vec3(light.direction),
                ),
                self.light_pass_program.uniform_cmd(
                    UniformName::DirectionalColor,
                    UniformValue::Vec3(light.base.color),
                ),
                self.light_pass_program.uniform_cmd(
                    UniformName::DirectionalIntensity,
                    UniformValue::Float(light.base.intensity),
                ),
                GpuCommand::DrawFullScreenQuad { program: self.light_pass_program.handle },
            ]);
        }
        Ok(())
    }

    /// Accumulate a point light: upload its kind, position, colour,
    /// intensity and attenuation, then draw one full-screen quad. Point
    /// lights cast no shadow.
    pub fn shine_point_light(&self, ctx: &mut RenderContext, light: &PointLight) -> (r: Result<
        (),
        Error,
    >)
        ensures
            r is Ok,
            final(ctx).commands@ == old(ctx).commands@ + seq![
                self.light_pass_program.uniform_cmd(
                    UniformName::LightType,
                    UniformValue::Int(2),
                ),
                self.light_pass_program.uniform_cmd(
                    UniformName::PointPosition,
                    UniformValue::Vec3(light.position),
                ),
                self.light_pass_program.uniform_cmd(
                    UniformName::PointColor,
                    UniformValue::Vec3(light.base.color),
                ),
                self.light_pass_program.uniform_cmd(
                    UniformName::PointIntensity,
                    UniformValue::Float(light.base.intensity),
                ),
                self.light_pass_program.uniform_cmd(
                    UniformName::PointAttenuationConstant,
                    UniformValue::Float(light.attenuation.constant),
                ),
                self.light_pass_program.uniform_cmd(
                    UniformName::PointAttenuationLinear,
                    UniformValue::Float(light.attenuation.linear),
                ),
                self.light_pass_program.uniform_cmd(
                    UniformName::PointAttenuationExp,
                    UniformValue::Float(light.attenuation.exp),
                ),
                GpuCommand::DrawFullScreenQuad { program: self.light_pass_program.handle },
            ],
            final(ctx).state == old(ctx).state,
            final(ctx).next_id == old(ctx).next_id,
    {
        self.light_pass_program.add_uniform_int(ctx, UniformName::LightType, 2);
        self.light_pass_program.add_uniform_vec3(ctx, UniformName::PointPosition, light.position);
        self.light_pass_program.add_uniform_vec3(ctx, UniformName::PointColor, light.base.color);
        self.light_pass_program.add_uniform_float(
            ctx,
            UniformName::PointIntensity,
            light.base.intensity,
        );
        self.light_pass_program.add_uniform_float(
            ctx,
            UniformName::PointAttenuationConstant,
            light.attenuation.constant,
        );
        self.light_pass_program.add_uniform_float(
            ctx,
            UniformName::PointAttenuationLinear,
            light.attenuation.linear,
        );
        self.light_pass_program.add_uniform_float(
            ctx,
            UniformName::PointAttenuationExp,
            light.attenuation.exp,
        );
        ctx.emit(GpuCommand::DrawFullScreenQuad { program: self.light_pass_program.handle });
        proof {
            assert(final(ctx).commands@ =~= old(ctx).commands@ + seq![
                self.light_pass_program.uniform_cmd(
                    UniformName::LightType,
                    UniformValue::Int(2),
                ),
                self.light_pass_program.uniform_cmd(
                    UniformName::PointPosition,
                    UniformValue::Vec3(light.position),
                ),
                self.light_pass_program.uniform_cmd(
                    UniformName::PointColor,
                    UniformValue::Vec3(light.base.color),
                ),
                self.light_pass_program.uniform_cmd(
                    UniformName::PointIntensity,
                    UniformValue::Float(light.base.intensity),
                ),
                self.light_pass_program.uniform_cmd(
                    UniformName::PointAttenuationConstant,
                    UniformValue::Float(light.attenuation.constant),
                ),
                self.light_pass_program.uniform_cmd(
                    UniformName::PointAttenuationLinear,
                    UniformValue::Float(light.attenuation.linear),
                ),
                self.light_pass_program.uniform_cmd(
                    UniformName::PointAttenuationExp,
                    UniformValue::Float(light.attenuation.exp),
                ),
                GpuCommand::DrawFullScreenQuad { program: self.light_pass_program.handle },
            ]);
        }
        Ok(())
    }

    /// Accumulate a spot light: the shadow matrix and map as for a
    /// directional light when a shadow camera is present; then its kind,
    /// position, direction, colour, intensity, attenuation and the cosine
    /// of its cutoff angle — the precomputed cosine is uploaded as it
    /// stands — and one full-screen quad draw.
    pub fn shine_spot_light(&self, ctx: &mut RenderContext, light: &SpotLight) -> (r: Result<
        (),
        Error,
    >)
        ensures
            r is Ok,
            final(ctx).commands@ == old(ctx).commands@ + self.shadow_cmds(light.shadow) + seq![
                self.light_pass_program.uniform_cmd(
                    UniformName::LightType,
                    UniformValue::Int(3),
                ),
                self.light_pass_program.uniform_cmd(
                    UniformName::SpotPosition,
                    UniformValue::Vec3(light.position),
                ),
                self.light_pass_program.uniform_cmd(
                    UniformName::SpotDirection,
                    UniformValue::Vec3(light.direction),
                ),
                self.light_pass_program.uniform_cmd(
                    UniformName::SpotColor,
                    UniformValue::Vec3(light.base.color),
                ),
                self.light_pass_program.uniform_cmd(
                    UniformName::SpotIntensity,
                    UniformValue::Float(light.base.intensity),
                ),
                self.light_pass_program.uniform_cmd(
                    UniformName::SpotAttenuationConstant,
                    UniformValue::Float(light.attenuation.constant),
                ),
                self.light_pass_program.uniform_cmd(
                    UniformName::SpotAttenuationLinear,
                    UniformValue::Float(light.attenuation.linear),
                ),
                self.light_pass_program.uniform_cmd(
                    UniformName::SpotAttenuationExp,
                    UniformValue::Float(light.attenuation.exp),
                ),
                self.light_pass_program.uniform_cmd(
                    UniformName::SpotCutoff,
                    UniformValue::Float(light.cutoff_cosine),
                ),
                GpuCommand::DrawFullScreenQuad { program: self.light_pass_program.handle },
            ],
            final(ctx).state == old(ctx).state,
            final(ctx).next_id == old(ctx).next_id,
    {
        if let Some(shadow) = &light.shadow {
            self.light_pass_program.add_uniform_mat4(ctx, UniformName::ShadowMvp, shadow.mvp);
            shadow.map.bind(ctx, 5);
            self.light_pass_program.add_uniform_int(ctx, UniformName::ShadowMap, 5);
        }
        self.light_pass_program.add_uniform_int(ctx, UniformName::LightType, 3);
        self.light_pass_program.add_uniform_vec3(ctx, UniformName::SpotPosition, light.position);
        self.light_pass_program.add_uniform_vec3(ctx, UniformName::SpotDirection, light.direction);
        self.light_pass_program.add_uniform_vec3(ctx, UniformName::SpotColor, light.base.color);
        self.light_pass_program.add_uniform_float(
            ctx,
            UniformName::SpotIntensity,
            light.base.intensity,
        );
        self.light_pass_program.add_uniform_float(
            ctx,
            UniformName::SpotAttenuationConstant,
            light.attenuation.constant,
        );
        self.light_pass_program.add_uniform_float(
            ctx,
            UniformName::SpotAttenuationLinear,
            light.attenuation.linear,
        );
        self.light_pass_program.add_uniform_float(
            ctx,
            UniformName::SpotAttenuationExp,
            light.attenuation.exp,
        );
        self.light_pass_program.add_uniform_float(
            ctx,
            UniformName::SpotCutoff,
            light.cutoff_cosine,
        );
        ctx.emit(GpuCommand::DrawFullScreenQuad { program: self.light_pass_program.handle });
        proof {
            assert(final(ctx).commands@ =~= old(ctx).commands@ + self.shadow_cmds(light.shadow)
                + seq![
                self.light_pass_program.uniform_cmd(
                    UniformName::LightType,
                    UniformValue::Int(3),
                ),
                self.light_pass_program.uniform_cmd(
                    UniformName::SpotPosition,
                    UniformValue::Vec3(light.position),
                ),
                self.light_pass_program.uniform_cmd(
                    UniformName::SpotDirection,
                    UniformValue::Vec3(light.direction),
                ),
                self.light_pass_program.uniform_cmd(
                    UniformName::SpotColor,
                    UniformValue::Vec3(light.base.color),
                ),
                self.light_pass_program.uniform_cmd(
                    UniformName::SpotIntensity,
                    UniformValue::Float(light.base.intensity),
                ),
                self.light_pass_program.uniform_cmd(
                    UniformName::SpotAttenuationConstant,
                    UniformValue::Float(light.attenuation.constant),
                ),
                self.light_pass_program.uniform_cmd(
                    UniformName::SpotAttenuationLinear,
                    UniformValue::Float(light.attenuation.linear),
                ),
                self.light_pass_program.uniform_cmd(
                    UniformName::SpotAttenuationExp,
                    UniformValue::Float(light.attenuation.exp),
                ),
                self.light_pass_program.uniform_cmd(
                    UniformName::SpotCutoff,
                    UniformValue::Float(light.cutoff_cosine),
                ),
                GpuCommand::DrawFullScreenQuad { program: self.light_pass_program.handle },
            ]);
        }
        Ok(())
    }

    /// Resolve the buffered light target to the display surface: bind and
    /// clear the screen, set the copy pass's raster state, sample the light
    /// target's colour and the geometry depth through the copy program, and
    /// draw one full-screen quad. Only a buffered pipeline has anything to
    /// copy, so only one may call this.
    pub fn copy_to_screen(&self, ctx: &mut RenderContext) -> (r: Result<(), Error>)
        requires
            self.wf(),
            self.light_pass is Buffered,
        ensures
            r is Ok,
            final(ctx).commands@ == old(ctx).commands@ + old(ctx).bind_cmds(
                0,
                self.rendertarget.width,
                self.rendertarget.height,
            ) + clear_cmds(self.rendertarget.clear_color) + copy_pass_state_cmds() + seq![
                GpuCommand::BindTexture {
                    texture: self.spec_light_target().unwrap().targets@[0].id,
                    unit: 0,
                },
                self.spec_copy_program().unwrap().uniform_cmd(
                    UniformName::ColorMap,
                    UniformValue::Int(0),
                ),
                GpuCommand::BindTexture {
                    texture: self.geometry_pass_rendertarget.depth_target.id,
                    unit: 1,
                },
                self.spec_copy_program().unwrap().uniform_cmd(
                    UniformName::DepthMap,
                    UniformValue::Int(1),
                ),
                GpuCommand::DrawFullScreenQuad {
                    program: self.spec_copy_program().unwrap().handle,
                },
            ],
            final(ctx).state == (GpuState {
                bound: Some(0u64),
                depth_write: true,
                depth_test: DepthTestType::LessOrEqual,
                cull: CullType::Back,
                blend: BlendType::Off,
            }),
            final(ctx).next_id == old(ctx).next_id,
    {
        self.rendertarget.bind(ctx);
        self.rendertarget.clear(ctx);
        ctx.set_depth_write(true);
        ctx.set_depth_test(DepthTestType::LessOrEqual);
        ctx.set_cull(CullType::Back);
        ctx.set_blend(BlendType::Off);
        match &self.light_pass {
            LightPassMode::Buffered { rendertarget, copy_program } => {
                rendertarget.targets[0].bind(ctx, 0);
                copy_program.add_uniform_int(ctx, UniformName::ColorMap, 0);
                self.geometry_pass_depth_texture().bind(ctx, 1);
                copy_program.add_uniform_int(ctx, UniformName::DepthMap, 1);
                ctx.emit(GpuCommand::DrawFullScreenQuad { program: copy_program.handle });
            },
            LightPassMode::Direct => {
                return Err(
                    Error::LightPassRendertargetNotAvailable {
                        message: String::from_str(
                            "Light pass render target is not available, consider creating the pipeline with 'use_light_pass_rendertarget' set to true",
                        ),
                    },
                );
            },
        }
        proof {
            assert(final(ctx).commands@ =~= old(ctx).commands@ + old(ctx).bind_cmds(
                0,
                self.rendertarget.width,
                self.rendertarget.height,
            ) + clear_cmds(self.rendertarget.clear_color) + copy_pass_state_cmds() + seq![
                GpuCommand::BindTexture {
                    texture: self.spec_light_target().unwrap().targets@[0].id,
                    unit: 0,
                },
                self.spec_copy_program().unwrap().uniform_cmd(
                    UniformName::ColorMap,
                    UniformValue::Int(0),
                ),
                GpuCommand::BindTexture {
                    texture: self.geometry_pass_rendertarget.depth_target.id,
                    unit: 1,
                },
                self.spec_copy_program().unwrap().uniform_cmd(
                    UniformName::DepthMap,
                    UniformValue::Int(1),
                ),
                GpuCommand::DrawFullScreenQuad {
                    program: self.spec_copy_program().unwrap().handle,
                },
            ]);
        }
        Ok(())
    }

    /// Recreate the geometry target and, when present, the buffered light
    /// target at the new size, preserving each target's clear colour, and
    /// update the screen target's logical size. Programs are not touched.
    /// Each replaced framebuffer's release is recorded after its
    /// replacement is built. Fails exactly when the context cannot
    /// allocate the identifiers, and then changes nothing.
    pub fn resize(
        &mut self,
        ctx: &mut RenderContext,
        screen_width: usize,
        screen_height: usize,
    ) -> (r: Result<(), Error>)
        requires
            old(self).wf(),
            old(ctx).wf(),
        ensures
            r is Err <==> old(ctx).next_id > u64::MAX - 32,
            r is Err ==> *final(self) == *old(self) && *final(ctx) == *old(ctx),
            r is Ok ==> {
                &&& final(self).wf()
                &&& final(self).light_pass_program == old(self).light_pass_program
                &&& final(self).rendertarget == (ScreenRendertarget {
                    width: screen_width,
                    height: screen_height,
                    clear_color: old(self).rendertarget.clear_color,
                })
                &&& final(self).geometry_pass_rendertarget.width == screen_width
                &&& final(self).geometry_pass_rendertarget.height == screen_height
                &&& final(self).geometry_pass_rendertarget.clear_color == old(
                    self,
                ).geometry_pass_rendertarget.clear_color
                &&& final(self).geometry_pass_rendertarget.targets@.len() == 4
                &&& final(self).geometry_pass_rendertarget.handle == old(ctx).next_id
                &&& (final(self).light_pass is Buffered <==> old(self).light_pass is Buffered)
                &&& final(self).spec_copy_program() == old(self).spec_copy_program()
                &&& (final(self).spec_light_target() matches Some(t) ==> {
                    &&& t.width == screen_width
                    &&& t.height == screen_height
                    &&& t.clear_color == old(self).spec_light_target().unwrap().clear_color
                    &&& t.targets@.len() == 1
                    &&& t.handle == old(ctx).next_id + 6
                })
                &&& final(ctx).state == old(ctx).state
                &&& final(ctx).next_id == old(ctx).next_id + (
                if old(self).light_pass is Buffered {
                    9int
                } else {
                    6int
                })
                &&& final(ctx).commands@ == old(ctx).commands@ + create_cmds(
                    old(ctx).next_id as int,
                    screen_width,
                    screen_height,
                    4,
                ) + seq![
                    GpuCommand::DeleteFramebuffer {
                        framebuffer: old(self).geometry_pass_rendertarget.handle,
                    },
                ] + (if old(self).light_pass is Buffered {
                    create_cmds(old(ctx).next_id + 6, screen_width, screen_height, 1) + seq![
                        GpuCommand::DeleteFramebuffer {
                            framebuffer: old(self).spec_light_target().unwrap().handle,
                        },
                    ]
                } else {
                    Seq::empty()
                })
            },
    {
        if ctx.next_id > u64::MAX - 32 {
            return Err(
                Error::Rendertarget(
                    rendertarget::Error::FailedToCreateFramebuffer {
                        message: String::from_str("graphics object identifiers exhausted"),
                    },
                ),
            );
        }
        self.rendertarget.width = screen_width;
        self.rendertarget.height = screen_height;
        let clear_color = self.geometry_pass_rendertarget.clear_color;
        let mut fresh_geometry = match ColorRendertarget::create(
            ctx,
            screen_width,
            screen_height,
            4,
            clear_color,
        ) {
            Ok(t) => t,
            Err(e) => { return Err(Error::Rendertarget(e)) },
        };
        core::mem::swap(&mut self.geometry_pass_rendertarget, &mut fresh_geometry);
        fresh_geometry.destroy(ctx);
        match &mut self.light_pass {
            LightPassMode::Buffered { rendertarget, .. } => {
                let clear_color = rendertarget.clear_color;
                let mut fresh_light = match ColorRendertarget::create(
                    ctx,
                    screen_width,
                    screen_height,
                    1,
                    clear_color,
                ) {
                    Ok(t) => t,
                    Err(e) => { return Err(Error::Rendertarget(e)) },
                };
                core::mem::swap(rendertarget, &mut fresh_light);
                fresh_light.destroy(ctx);
            },
            LightPassMode::Direct => {},
        }
        Ok(())
    }

    /// Which framebuffer holds the finished image, and at what extent: the
    /// buffered light target when present, else the display surface. An
    /// embedder saving a screenshot reads its pixels from here.
    pub fn screenshot_source(&self) -> (r: (u64, usize, usize))
        ensures
            r.0 == (match self.light_pass {
                LightPassMode::Buffered { rendertarget, .. } => rendertarget.handle,
                LightPassMode::Direct => 0u64,
            }),
            r.1 == self.rendertarget.width,
            r.2 == self.rendertarget.height,
    {
        match &self.light_pass {
            LightPassMode::Buffered { rendertarget, .. } => (
                rendertarget.handle,
                self.rendertarget.width,
                self.rendertarget.height,
            ),
            LightPassMode::Direct => (0, self.rendertarget.width, self.rendertarget.height),
        }
    }

    /// How many bytes an eight-bit RGB readback of the finished image
    /// needs: three bytes per pixel.
    pub fn screenshot_buffer_len(&self) -> (r: usize)
        requires
            self.rendertarget.width * self.rendertarget.height * 3 <= usize::MAX,
        ensures
            r == self.rendertarget.width * self.rendertarget.height * 3,
    {
        self.rendertarget.width * self.rendertarget.height * 3
    }

    /// The geometry channel holding diffuse colour: semantic index zero.
    pub fn geometry_pass_color_texture(&self) -> (r: &Texture)
        requires
            self.wf(),
        ensures
            *r == self.geometry_pass_rendertarget.targets@[0],
    {
        &self.geometry_pass_rendertarget.targets[0]
    }

    /// The geometry channel holding world position: semantic index one.
    pub fn geometry_pass_position_texture(&self) -> (r: &Texture)
        requires
            self.wf(),
        ensures
            *r == self.geometry_pass_rendertarget.targets@[1],
    {
        &self.geometry_pass_rendertarget.targets[1]
    }

    /// The geometry channel holding surface normals: semantic index two.
    pub fn geometry_pass_normal_texture(&self) -> (r: &Texture)
        requires
            self.wf(),
        ensures
            *r == self.geometry_pass_rendertarget.targets@[2],
    {
        &self.geometry_pass_rendertarget.targets[2]
    }

    /// The geometry channel holding surface parameters: semantic index
    /// three.
    pub fn geometry_pass_surface_parameters_texture(&self) -> (r: &Texture)
        requires
            self.wf(),
        ensures
            *r == self.geometry_pass_rendertarget.targets@[3],
    {
        &self.geometry_pass_rendertarget.targets[3]
    }

    /// The geometry target's depth attachment.
    pub fn geometry_pass_depth_texture(&self) -> (r: &Texture)
        ensures
            *r == self.geometry_pass_rendertarget.depth_target,
    {
        &self.geometry_pass_rendertarget.depth_target
    }

    /// The buffered light target's colour texture. A pipeline built in
    /// direct mode owns no such texture, so there the call always fails;
    /// a buffered pipeline always succeeds, and the texture has the
    /// pipeline's current extent.
    pub fn light_pass_color_texture(&self) -> (r: Result<&Texture, Error>)
        requires
            self.wf(),
        ensures
            r is Err <==> self.light_pass is Direct,
            r matches Err(e) ==> e is LightPassRendertargetNotAvailable,
            r matches Ok(t) ==> {
                &&& *t == self.spec_light_target().unwrap().targets@[0]
                &&& t.width == self.rendertarget.width
                &&& t.height == self.rendertarget.height
            },
    {
        match &self.light_pass {
            LightPassMode::Buffered { rendertarget, .. } => Ok(&rendertarget.targets[0]),
            LightPassMode::Direct => Err(
                Error::LightPassRendertargetNotAvailable {
                    message: String::from_str(
                        "Light pass render target is not available, consider creating the pipeline with 'use_light_pass_rendertarget' set to true",
                    ),
                },
            ),
        }
    }
}

/// The geometry target of a well-formed pipeline always exposes exactly
/// four colour channels plus one depth attachment, and the five are
/// pairwise distinct textures, whatever the pipeline's extent.
pub proof fn lemma_geometry_pass_channels_distinct(p: DeferredPipeline)
    requires
        p.wf(),
    ensures
        p.geometry_pass_rendertarget.targets@.len() == 4,
        forall|i: int, j: int|
            0 <= i < j < 4 ==> (#[trigger] p.geometry_pass_rendertarget.targets@[i]).id
                != (#[trigger] p.geometry_pass_rendertarget.targets@[j]).id,
        forall|i: int|
            0 <= i < 4 ==> (#[trigger] p.geometry_pass_rendertarget.targets@[i]).id
                != p.geometry_pass_rendertarget.depth_target.id,
{
}

} // verus!
