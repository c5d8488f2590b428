use dust::bits::Vec4Bits;
use dust::context::{GpuCommand, RenderContext};
use dust::rendertarget::{ColorRendertarget, Rendertarget, ScreenRendertarget};
use dust::shadow::{apply_shadow_bias, shadow_bias_matrix_halves};

fn color(x: f32, y: f32, z: f32, w: f32) -> Vec4Bits {
    Vec4Bits { x: x.to_bits(), y: y.to_bits(), z: z.to_bits(), w: w.to_bits() }
}

#[test]
fn redundant_rebind_of_same_target_is_skipped() {
    let mut ctx = RenderContext::new();
    let screen = ScreenRendertarget::create(800, 600, color(0.0, 0.0, 0.0, 0.0)).unwrap();
    screen.bind(&mut ctx);
    let after_first = ctx.commands.len();
    assert_eq!(
        ctx.commands,
        vec![
            GpuCommand::BindFramebuffer { framebuffer: 0 },
            GpuCommand::SetViewport { width: 800, height: 600 },
        ]
    );
    screen.bind(&mut ctx);
    assert_eq!(ctx.commands.len(), after_first, "a rebind of the bound target must be skipped");

    let target = ColorRendertarget::create(&mut ctx, 800, 600, 4, color(0.0, 0.0, 0.0, 0.0)).unwrap();
    let before = ctx.commands.len();
    target.bind(&mut ctx);
    assert_eq!(ctx.commands.len(), before + 2, "a bind of another target must not be skipped");
    assert_eq!(ctx.state.bound, Some(target.handle));
}

#[test]
fn clear_reenables_depth_writes_and_uses_own_clear_color() {
    let mut ctx = RenderContext::new();
    let clear_color = color(0.9, 0.8, 0.7, 1.0);
    let screen = ScreenRendertarget::create(640, 480, clear_color).unwrap();
    ctx.set_depth_write(false);
    ctx.commands.clear();
    screen.clear(&mut ctx);
    assert_eq!(
        ctx.commands,
        vec![
            GpuCommand::DepthWrite { enabled: true },
            GpuCommand::SetClearColor { color: clear_color },
            GpuCommand::Clear,
        ]
    );
    assert!(ctx.state.depth_write);
}

#[test]
fn color_target_allocates_all_attachments_eagerly() {
    let mut ctx = RenderContext::new();
    let t = ColorRendertarget::create(&mut ctx, 512, 256, 4, color(0.0, 0.0, 0.0, 0.0)).unwrap();
    assert_eq!(t.targets.len(), 4);
    for tex in &t.targets {
        assert_eq!((tex.width, tex.height), (512, 256));
    }
    assert_eq!((t.depth_target.width, t.depth_target.height), (512, 256));
    let creates = ctx
        .commands
        .iter()
        .filter(|c| {
            matches!(
                c,
                GpuCommand::CreateColorTexture { .. } | GpuCommand::CreateDepthTexture { .. }
            )
        })
        .count();
    assert_eq!(creates, 5);
    let attached_slots: Vec<usize> = ctx
        .commands
        .iter()
        .filter_map(|c| match c {
            GpuCommand::AttachColorTexture { slot, .. } => Some(*slot),
            _ => None,
        })
        .collect();
    assert_eq!(attached_slots, vec![0, 1, 2, 3]);
}

#[test]
fn color_target_create_fails_only_on_identifier_exhaustion() {
    let mut ctx = RenderContext::new();
    ctx.next_id = u64::MAX - 5;
    match ColorRendertarget::create(&mut ctx, 16, 16, 1, color(0.0, 0.0, 0.0, 0.0)) {
        Err(dust::rendertarget::Error::FailedToCreateFramebuffer { .. }) => {}
        Ok(_) => panic!("creation must fail when the identifier pool is exhausted"),
    }
    assert_eq!(ctx.next_id, u64::MAX - 5, "a failed creation must change nothing");
}

#[test]
fn destroy_records_framebuffer_release_exactly_once() {
    let mut ctx = RenderContext::new();
    let t = ColorRendertarget::create(&mut ctx, 64, 64, 1, color(0.0, 0.0, 0.0, 0.0)).unwrap();
    let handle = t.handle;
    ctx.commands.clear();
    t.destroy(&mut ctx);
    assert_eq!(ctx.commands, vec![GpuCommand::DeleteFramebuffer { framebuffer: handle }]);
}

#[test]
fn rendertarget_dispatch_matches_each_kind() {
    let mut ctx = RenderContext::new();
    let screen = Rendertarget::Screen(
        ScreenRendertarget::create(100, 50, color(0.0, 0.0, 0.0, 0.0)).unwrap(),
    );
    let colored = Rendertarget::Color(
        ColorRendertarget::create(&mut ctx, 100, 50, 1, color(1.0, 0.0, 0.0, 1.0)).unwrap(),
    );
    ctx.commands.clear();
    screen.bind(&mut ctx);
    assert_eq!(ctx.state.bound, Some(0));
    colored.bind(&mut ctx);
    match &colored {
        Rendertarget::Color(t) => assert_eq!(ctx.state.bound, Some(t.handle)),
        Rendertarget::Screen(_) => unreachable!(),
    }
    ctx.commands.clear();
    colored.clear(&mut ctx);
    assert_eq!(
        ctx.commands[1],
        GpuCommand::SetClearColor { color: color(1.0, 0.0, 0.0, 1.0) }
    );
}

#[test]
fn bias_matrix_halves_spell_the_literal_matrix() {
    let m = shadow_bias_matrix_halves();
    assert_eq!(m, vec![1, 0, 0, 1, 0, 1, 0, 1, 0, 0, 1, 1, 0, 0, 0, 2]);
    // Divided by two this is the row-major matrix with one half on the
    // first three diagonal entries, one half as the x, y and z
    // translation, and an unchanged homogeneous row.
    let as_floats: Vec<f32> = m.iter().map(|e| *e as f32 / 2.0).collect();
    assert_eq!(as_floats[0], 0.5);
    assert_eq!(as_floats[3], 0.5);
    assert_eq!(as_floats[15], 1.0);
}

#[test]
fn bias_matrix_maps_clip_cube_corners_onto_unit_cube_corners() {
    // Corners are given in halves (so -2 and 2 stand for -1 and 1) and
    // results come back in quarters (so 0 and 4 stand for 0 and 1).
    let mut images = Vec::new();
    for &x in &[-2i64, 2] {
        for &y in &[-2i64, 2] {
            for &z in &[-2i64, 2] {
                let (qx, qy, qz, qw) = apply_shadow_bias(x, y, z, 2);
                assert_eq!(qw, 4, "the homogeneous coordinate must stay one");
                assert_eq!(qx, if x == 2 { 4 } else { 0 });
                assert_eq!(qy, if y == 2 { 4 } else { 0 });
                assert_eq!(qz, if z == 2 { 4 } else { 0 });
                images.push((qx, qy, qz));
            }
        }
    }
    images.sort();
    images.dedup();
    assert_eq!(images.len(), 8, "the eight corners must map onto eight distinct corners");
    for &(qx, qy, qz) in &images {
        assert!([0, 4].contains(&qx) && [0, 4].contains(&qy) && [0, 4].contains(&qz));
    }
}

#[test]
fn bias_matrix_agrees_with_floating_point_application() {
    // Cross-check the exact integer form against the matrix applied in
    // floating point, on the cube corners and on an interior point.
    let m = shadow_bias_matrix_halves();
    let rows: Vec<Vec<f32>> = (0..4)
        .map(|r| (0..4).map(|c| m[r * 4 + c] as f32 / 2.0).collect())
        .collect();
    let apply_f = |v: [f32; 4]| -> [f32; 4] {
        let mut out = [0.0f32; 4];
        for r in 0..4 {
            out[r] = (0..4).map(|c| rows[r][c] * v[c]).sum();
        }
        out
    };
    for &x in &[-1.0f32, 0.5, 1.0] {
        for &y in &[-1.0f32, 0.0, 1.0] {
            for &z in &[-1.0f32, 1.0] {
                let f = apply_f([x, y, z, 1.0]);
                let (qx, qy, qz, qw) = apply_shadow_bias(
                    (x * 2.0) as i64,
                    (y * 2.0) as i64,
                    (z * 2.0) as i64,
                    2,
                );
                assert_eq!([f[0], f[1], f[2], f[3]], [
                    qx as f32 / 4.0,
                    qy as f32 / 4.0,
                    qz as f32 / 4.0,
                    qw as f32 / 4.0,
                ]);
            }
        }
    }
}
