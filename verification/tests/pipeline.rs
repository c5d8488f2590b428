use dust::bits::{Vec3Bits, Vec4Bits};
use dust::camera::Camera;
use dust::context::{
    BlendType, CullType, DepthTestType, GpuCommand, ProgramKind, RenderContext, UniformName,
    UniformValue,
};
use dust::deferred::{DeferredPipeline, Error};
use dust::light::{AmbientLight, Attenuation, BaseLight, DirectionalLight, PointLight, SpotLight};

fn vec3(x: f32, y: f32, z: f32) -> Vec3Bits {
    Vec3Bits { x: x.to_bits(), y: y.to_bits(), z: z.to_bits() }
}

fn vec4(x: f32, y: f32, z: f32, w: f32) -> Vec4Bits {
    Vec4Bits { x: x.to_bits(), y: y.to_bits(), z: z.to_bits(), w: w.to_bits() }
}

fn buffered_pipeline(w: usize, h: usize, bg: Vec4Bits) -> (RenderContext, DeferredPipeline) {
    let mut ctx = RenderContext::new();
    let p = DeferredPipeline::new(&mut ctx, w, h, true, bg).unwrap();
    (ctx, p)
}

#[test]
fn scenario_a_direct_mode_light_pass_color_texture_fails() {
    let mut ctx = RenderContext::new();
    let p = DeferredPipeline::new(&mut ctx, 800, 600, false, vec4(0.1, 0.2, 0.3, 1.0)).unwrap();
    match p.light_pass_color_texture() {
        Err(Error::LightPassRendertargetNotAvailable { .. }) => {}
        other => panic!("expected the light-pass-unavailable error, got {:?}", other),
    }
}

#[test]
fn buffered_mode_light_pass_color_texture_has_current_extent() {
    let (_ctx, p) = buffered_pipeline(800, 600, vec4(0.0, 0.0, 0.0, 1.0));
    let t = p.light_pass_color_texture().unwrap();
    assert_eq!((t.width, t.height), (800, 600));
}

#[test]
fn scenario_b_buffered_frame_ends_on_screen_with_depth_test() {
    let bg = vec4(0.0, 0.0, 0.0, 1.0);
    let (mut ctx, p) = buffered_pipeline(800, 600, bg);
    p.geometry_pass_begin(&mut ctx).unwrap();
    let camera = Camera { position: vec3(0.0, 1.0, 5.0) };
    p.light_pass_begin(&mut ctx, &camera).unwrap();
    let light = AmbientLight { base: BaseLight { color: vec3(1.0, 1.0, 1.0), intensity: 1.0f32.to_bits() } };
    p.shine_ambient_light(&mut ctx, &light).unwrap();
    p.copy_to_screen(&mut ctx).unwrap();
    assert_eq!(ctx.state.bound, Some(0));
    assert_eq!(ctx.state.depth_test, DepthTestType::LessOrEqual);
    assert!(ctx.state.depth_write);
}

#[test]
fn scenario_c_resize_reports_new_extent_and_keeps_clear_colors() {
    let bg = vec4(0.25, 0.5, 0.75, 1.0);
    let (mut ctx, mut p) = buffered_pipeline(800, 600, bg);
    let light_clear_before = match &p.light_pass {
        dust::deferred::LightPassMode::Buffered { rendertarget, .. } => rendertarget.clear_color,
        dust::deferred::LightPassMode::Direct => unreachable!(),
    };
    p.resize(&mut ctx, 1024, 768).unwrap();
    let color = p.geometry_pass_color_texture();
    assert_eq!((color.width, color.height), (1024, 768));
    assert_eq!(p.geometry_pass_rendertarget.clear_color, bg);
    match &p.light_pass {
        dust::deferred::LightPassMode::Buffered { rendertarget, .. } => {
            assert_eq!(rendertarget.clear_color, light_clear_before);
            assert_eq!((rendertarget.width, rendertarget.height), (1024, 768));
        }
        dust::deferred::LightPassMode::Direct => unreachable!(),
    }
    assert_eq!((p.rendertarget.width, p.rendertarget.height), (1024, 768));
}

#[test]
fn resize_records_release_of_replaced_framebuffers() {
    let (mut ctx, mut p) = buffered_pipeline(640, 480, vec4(0.0, 0.0, 0.0, 0.0));
    let old_geometry = p.geometry_pass_rendertarget.handle;
    let old_light = match &p.light_pass {
        dust::deferred::LightPassMode::Buffered { rendertarget, .. } => rendertarget.handle,
        dust::deferred::LightPassMode::Direct => unreachable!(),
    };
    ctx.commands.clear();
    p.resize(&mut ctx, 320, 240).unwrap();
    let deletes: Vec<u64> = ctx
        .commands
        .iter()
        .filter_map(|c| match c {
            GpuCommand::DeleteFramebuffer { framebuffer } => Some(*framebuffer),
            _ => None,
        })
        .collect();
    assert_eq!(deletes, vec![old_geometry, old_light]);
}

#[test]
fn geometry_target_exposes_four_distinct_channels_plus_depth() {
    let (_ctx, p) = buffered_pipeline(800, 600, vec4(0.0, 0.0, 0.0, 1.0));
    let ids = [
        p.geometry_pass_color_texture().id,
        p.geometry_pass_position_texture().id,
        p.geometry_pass_normal_texture().id,
        p.geometry_pass_surface_parameters_texture().id,
        p.geometry_pass_depth_texture().id,
    ];
    for i in 0..ids.len() {
        for j in 0..i {
            assert_ne!(ids[i], ids[j], "channel accessors must hand out distinct textures");
        }
    }
    assert_eq!(p.geometry_pass_rendertarget.targets.len(), 4);
}

#[test]
fn scenario_d_spot_cutoff_angle_zero_uploads_cosine_one() {
    let (mut ctx, p) = buffered_pipeline(800, 600, vec4(0.0, 0.0, 0.0, 1.0));
    let cutoff_angle = 0.0f32;
    let light = SpotLight {
        position: vec3(1.0, 2.0, 3.0),
        direction: vec3(0.0, -1.0, 0.0),
        base: BaseLight { color: vec3(1.0, 1.0, 0.5), intensity: 2.0f32.to_bits() },
        attenuation: Attenuation {
            constant: 1.0f32.to_bits(),
            linear: 0.1f32.to_bits(),
            exp: 0.01f32.to_bits(),
        },
        cutoff_cosine: cutoff_angle.cos().to_bits(),
        shadow: None,
    };
    ctx.commands.clear();
    p.shine_spot_light(&mut ctx, &light).unwrap();
    let uploaded = ctx
        .commands
        .iter()
        .find_map(|c| match c {
            GpuCommand::Uniform { name: UniformName::SpotCutoff, value, .. } => Some(*value),
            _ => None,
        })
        .expect("the cutoff uniform must be uploaded");
    assert_eq!(uploaded, UniformValue::Float(1.0f32.to_bits()));
}

#[test]
fn geometry_pass_begin_sets_state_and_clears_with_background() {
    let bg = vec4(0.3, 0.3, 0.3, 1.0);
    let (mut ctx, p) = buffered_pipeline(800, 600, bg);
    ctx.commands.clear();
    p.geometry_pass_begin(&mut ctx).unwrap();
    let g = p.geometry_pass_rendertarget.handle;
    assert_eq!(
        ctx.commands,
        vec![
            GpuCommand::BindFramebuffer { framebuffer: g },
            GpuCommand::SetViewport { width: 800, height: 600 },
            GpuCommand::DepthWrite { enabled: true },
            GpuCommand::SetClearColor { color: bg },
            GpuCommand::Clear,
            GpuCommand::DepthWrite { enabled: true },
            GpuCommand::DepthTest { test: DepthTestType::LessOrEqual },
            GpuCommand::Cull { cull: CullType::Off },
            GpuCommand::Blend { blend: BlendType::Off },
        ]
    );
}

#[test]
fn light_pass_begin_wires_gbuffer_and_eye_position() {
    let (mut ctx, p) = buffered_pipeline(800, 600, vec4(0.0, 0.0, 0.0, 1.0));
    let camera = Camera { position: vec3(1.0, 2.0, 3.0) };
    ctx.commands.clear();
    p.light_pass_begin(&mut ctx, &camera).unwrap();
    assert_eq!(ctx.state.blend, BlendType::OneOne);
    assert_eq!(ctx.state.cull, CullType::Back);
    assert_eq!(ctx.state.depth_test, DepthTestType::Off);
    assert!(!ctx.state.depth_write);
    let lp = p.light_pass_program.handle;
    let g = &p.geometry_pass_rendertarget;
    let tail = &ctx.commands[ctx.commands.len() - 11..];
    assert_eq!(
        tail,
        &[
            GpuCommand::BindTexture { texture: g.targets[0].id, unit: 0 },
            GpuCommand::Uniform { program: lp, name: UniformName::ColorMap, value: UniformValue::Int(0) },
            GpuCommand::BindTexture { texture: g.targets[1].id, unit: 1 },
            GpuCommand::Uniform { program: lp, name: UniformName::PositionMap, value: UniformValue::Int(1) },
            GpuCommand::BindTexture { texture: g.targets[2].id, unit: 2 },
            GpuCommand::Uniform { program: lp, name: UniformName::NormalMap, value: UniformValue::Int(2) },
            GpuCommand::BindTexture { texture: g.targets[3].id, unit: 3 },
            GpuCommand::Uniform { program: lp, name: UniformName::SurfaceParametersMap, value: UniformValue::Int(3) },
            GpuCommand::BindTexture { texture: g.depth_target.id, unit: 4 },
            GpuCommand::Uniform { program: lp, name: UniformName::DepthMap, value: UniformValue::Int(4) },
            GpuCommand::Uniform {
                program: lp,
                name: UniformName::EyePosition,
                value: UniformValue::Vec3(vec3(1.0, 2.0, 3.0)),
            },
        ]
    );
}

#[test]
fn shine_ambient_light_uploads_kind_color_intensity_and_draws() {
    let (mut ctx, p) = buffered_pipeline(800, 600, vec4(0.0, 0.0, 0.0, 1.0));
    let light = AmbientLight {
        base: BaseLight { color: vec3(1.0, 0.5, 0.25), intensity: 0.8f32.to_bits() },
    };
    ctx.commands.clear();
    p.shine_ambient_light(&mut ctx, &light).unwrap();
    let lp = p.light_pass_program.handle;
    assert_eq!(
        ctx.commands,
        vec![
            GpuCommand::Uniform { program: lp, name: UniformName::LightType, value: UniformValue::Int(0) },
            GpuCommand::Uniform {
                program: lp,
                name: UniformName::AmbientColor,
                value: UniformValue::Vec3(vec3(1.0, 0.5, 0.25)),
            },
            GpuCommand::Uniform {
                program: lp,
                name: UniformName::AmbientIntensity,
                value: UniformValue::Float(0.8f32.to_bits()),
            },
            GpuCommand::DrawFullScreenQuad { program: lp },
        ]
    );
}

#[test]
fn shine_directional_light_without_shadow_camera_skips_shadow_uniforms() {
    let (mut ctx, p) = buffered_pipeline(800, 600, vec4(0.0, 0.0, 0.0, 1.0));
    let light = DirectionalLight {
        direction: vec3(0.0, -1.0, 0.0),
        base: BaseLight { color: vec3(1.0, 1.0, 1.0), intensity: 1.0f32.to_bits() },
        shadow: None,
    };
    ctx.commands.clear();
    p.shine_directional_light(&mut ctx, &light).unwrap();
    assert!(ctx.commands.iter().all(|c| !matches!(
        c,
        GpuCommand::Uniform { name: UniformName::ShadowMvp, .. }
            | GpuCommand::Uniform { name: UniformName::ShadowMap, .. }
            | GpuCommand::BindTexture { unit: 5, .. }
    )));
    assert!(matches!(
        ctx.commands.first(),
        Some(GpuCommand::Uniform { name: UniformName::LightType, value: UniformValue::Int(1), .. })
    ));
}

#[test]
fn shine_directional_light_with_shadow_camera_uploads_shadow_matrix_first() {
    let (mut ctx, p) = buffered_pipeline(800, 600, vec4(0.0, 0.0, 0.0, 1.0));
    let mvp = dust::bits::Mat4Bits { entries: [7u32; 16] };
    let map = dust::texture::Texture { id: 99, width: 1024, height: 1024 };
    let light = DirectionalLight {
        direction: vec3(0.0, -1.0, 0.0),
        base: BaseLight { color: vec3(1.0, 1.0, 1.0), intensity: 1.0f32.to_bits() },
        shadow: Some(dust::light::Shadow { mvp, map }),
    };
    ctx.commands.clear();
    p.shine_directional_light(&mut ctx, &light).unwrap();
    let lp = p.light_pass_program.handle;
    assert_eq!(
        &ctx.commands[..3],
        &[
            GpuCommand::Uniform { program: lp, name: UniformName::ShadowMvp, value: UniformValue::Mat4(mvp) },
            GpuCommand::BindTexture { texture: 99, unit: 5 },
            GpuCommand::Uniform { program: lp, name: UniformName::ShadowMap, value: UniformValue::Int(5) },
        ]
    );
}

#[test]
fn shine_point_light_uploads_attenuation() {
    let (mut ctx, p) = buffered_pipeline(800, 600, vec4(0.0, 0.0, 0.0, 1.0));
    let light = PointLight {
        position: vec3(5.0, 6.0, 7.0),
        base: BaseLight { color: vec3(0.0, 1.0, 0.0), intensity: 3.0f32.to_bits() },
        attenuation: Attenuation {
            constant: 0.5f32.to_bits(),
            linear: 0.05f32.to_bits(),
            exp: 0.005f32.to_bits(),
        },
    };
    ctx.commands.clear();
    p.shine_point_light(&mut ctx, &light).unwrap();
    let values: Vec<(UniformName, UniformValue)> = ctx
        .commands
        .iter()
        .filter_map(|c| match c {
            GpuCommand::Uniform { name, value, .. } => Some((*name, *value)),
            _ => None,
        })
        .collect();
    assert_eq!(
        values,
        vec![
            (UniformName::LightType, UniformValue::Int(2)),
            (UniformName::PointPosition, UniformValue::Vec3(vec3(5.0, 6.0, 7.0))),
            (UniformName::PointColor, UniformValue::Vec3(vec3(0.0, 1.0, 0.0))),
            (UniformName::PointIntensity, UniformValue::Float(3.0f32.to_bits())),
            (UniformName::PointAttenuationConstant, UniformValue::Float(0.5f32.to_bits())),
            (UniformName::PointAttenuationLinear, UniformValue::Float(0.05f32.to_bits())),
            (UniformName::PointAttenuationExp, UniformValue::Float(0.005f32.to_bits())),
        ]
    );
}

#[test]
fn construction_in_direct_mode_builds_no_copy_program() {
    let mut ctx = RenderContext::new();
    let p = DeferredPipeline::new(&mut ctx, 800, 600, false, vec4(0.0, 0.0, 0.0, 0.0)).unwrap();
    assert!(matches!(p.light_pass, dust::deferred::LightPassMode::Direct));
    let compiled: Vec<ProgramKind> = ctx
        .commands
        .iter()
        .filter_map(|c| match c {
            GpuCommand::CompileProgram { kind, .. } => Some(*kind),
            _ => None,
        })
        .collect();
    assert_eq!(compiled, vec![ProgramKind::LightPass]);
}

#[test]
fn construction_in_buffered_mode_builds_copy_program_and_light_target() {
    let (ctx, p) = buffered_pipeline(800, 600, vec4(0.0, 0.0, 0.0, 0.0));
    let compiled: Vec<ProgramKind> = ctx
        .commands
        .iter()
        .filter_map(|c| match c {
            GpuCommand::CompileProgram { kind, .. } => Some(*kind),
            _ => None,
        })
        .collect();
    assert_eq!(compiled, vec![ProgramKind::LightPass, ProgramKind::Copy]);
    match &p.light_pass {
        dust::deferred::LightPassMode::Buffered { rendertarget, copy_program } => {
            assert_eq!(rendertarget.targets.len(), 1);
            assert_eq!(copy_program.kind, ProgramKind::Copy);
        }
        dust::deferred::LightPassMode::Direct => unreachable!(),
    }
}

#[test]
fn construction_fails_when_identifiers_exhausted() {
    let mut ctx = RenderContext::new();
    ctx.next_id = u64::MAX - 2;
    match DeferredPipeline::new(&mut ctx, 800, 600, true, vec4(0.0, 0.0, 0.0, 0.0)) {
        Err(Error::Program(_)) => {}
        other => panic!("expected a program error, got {:?}", other.map(|_| ())),
    }
}

#[test]
fn resize_fails_when_identifiers_exhausted() {
    let (_ctx, mut p) = buffered_pipeline(800, 600, vec4(0.0, 0.0, 0.0, 0.0));
    let mut exhausted = RenderContext::new();
    exhausted.next_id = u64::MAX - 2;
    match p.resize(&mut exhausted, 1024, 768) {
        Err(Error::Rendertarget(_)) => {}
        other => panic!("expected a render-target error, got {:?}", other.map(|_| ())),
    }
    assert_eq!((p.rendertarget.width, p.rendertarget.height), (800, 600));
}

#[test]
fn screenshot_source_selects_light_target_when_buffered() {
    let (_ctx, p) = buffered_pipeline(800, 600, vec4(0.0, 0.0, 0.0, 0.0));
    let light_handle = match &p.light_pass {
        dust::deferred::LightPassMode::Buffered { rendertarget, .. } => rendertarget.handle,
        dust::deferred::LightPassMode::Direct => unreachable!(),
    };
    assert_eq!(p.screenshot_source(), (light_handle, 800, 600));
    assert_eq!(p.screenshot_buffer_len(), 800 * 600 * 3);

    let mut ctx = RenderContext::new();
    let direct = DeferredPipeline::new(&mut ctx, 320, 200, false, vec4(0.0, 0.0, 0.0, 0.0)).unwrap();
    assert_eq!(direct.screenshot_source(), (0, 320, 200));
}

#[test]
fn uniform_names_spell_their_shader_identifiers() {
    assert_eq!(UniformName::LightType.text(), "lightType");
    assert_eq!(UniformName::EyePosition.text(), "eyePosition");
    assert_eq!(UniformName::ShadowMvp.text(), "shadowMVP");
    assert_eq!(UniformName::AmbientColor.text(), "ambientLight.base.color");
    assert_eq!(UniformName::SpotCutoff.text(), "spotLight.cutoff");
    assert_eq!(UniformName::PointAttenuationExp.text(), "pointLight.attenuation.exp");
    assert_eq!(UniformName::SurfaceParametersMap.text(), "surfaceParametersMap");
}

#[test]
fn resize_in_direct_mode_keeps_clear_color_and_stays_direct() {
    let mut ctx = RenderContext::new();
    let bg = vec4(0.6, 0.1, 0.9, 1.0);
    let mut p = DeferredPipeline::new(&mut ctx, 800, 600, false, bg).unwrap();
    p.resize(&mut ctx, 200, 100).unwrap();
    assert!(matches!(p.light_pass, dust::deferred::LightPassMode::Direct));
    assert_eq!(p.geometry_pass_rendertarget.clear_color, bg);
    assert_eq!((p.rendertarget.width, p.rendertarget.height), (200, 100));
    assert!(ctx.commands.iter().all(|c| !matches!(c, GpuCommand::CompileProgram { kind: ProgramKind::Copy, .. })));
}
