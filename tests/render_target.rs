use gpu_core::consts;
use gpu_core::{
    Error, Format, FramebufferId, Gl, GlCommand, Interpolation, Object, RenderTarget, Screen, Texture2D,
    Texture2DArray, Vec4, Wrapping,
};

fn texture(gl: &mut Gl, format: Format, mip: Option<Interpolation>) -> Texture2D {
    Texture2D::new(
        gl,
        4,
        4,
        Interpolation::Linear,
        Interpolation::Linear,
        mip,
        Wrapping::ClampToEdge,
        Wrapping::ClampToEdge,
        format,
    )
    .unwrap()
}

fn array(gl: &mut Gl, format: Format, depth: usize) -> Texture2DArray {
    Texture2DArray::new(
        gl,
        4,
        4,
        depth,
        Interpolation::Linear,
        Interpolation::Linear,
        None,
        Wrapping::ClampToEdge,
        Wrapping::ClampToEdge,
        format,
    )
    .unwrap()
}

fn color(r: f32, g: f32, b: f32, a: f32) -> Vec4 {
    Vec4 { x: r.to_bits(), y: g.to_bits(), z: b.to_bits(), w: a.to_bits() }
}

fn draw(gl: &mut Gl) {
    gl.draw_arrays(consts::TRIANGLES, 0, 3);
}

fn is_clear(c: &gpu_core::Command) -> bool {
    matches!(c, GlCommand::Clear { .. })
}

#[test]
fn offscreen_scope_order() {
    let mut gl = Gl::new(false);
    let c = texture(&mut gl, Format::RGBA8, Some(Interpolation::Linear));
    let d = texture(&mut gl, Format::Depth24, None);
    let start = gl.commands().len();
    let r = RenderTarget::write(&mut gl, 0, 0, 4, 4, Some(color(0.0, 0.0, 0.0, 1.0)), Some(1.0f32.to_bits()), Some(&c), Some(&d), draw);
    assert_eq!(r, Ok(()));
    let fb = FramebufferId { name: 3 };
    let expected = vec![
        GlCommand::Viewport { x: 0, y: 0, width: 4, height: 4 },
        GlCommand::Create { object: Object::Framebuffer(fb) },
        GlCommand::BindFramebuffer { target: consts::DRAW_FRAMEBUFFER, framebuffer: Some(fb) },
        GlCommand::DrawBuffers { attachments: vec![consts::COLOR_ATTACHMENT0] },
        GlCommand::FramebufferTexture {
            target: consts::FRAMEBUFFER,
            attachment: consts::COLOR_ATTACHMENT0,
            texture_target: consts::TEXTURE_2D,
            texture: c.id(),
            layer: None,
        },
        GlCommand::FramebufferTexture {
            target: consts::FRAMEBUFFER,
            attachment: consts::DEPTH_ATTACHMENT,
            texture_target: consts::TEXTURE_2D,
            texture: d.id(),
            layer: None,
        },
        GlCommand::ClearColor { color: color(0.0, 0.0, 0.0, 1.0) },
        GlCommand::DepthMask { enabled: true },
        GlCommand::ClearDepth { depth: 1.0f32.to_bits() },
        GlCommand::Clear { mask: consts::COLOR_BUFFER_BIT | consts::DEPTH_BUFFER_BIT },
        GlCommand::DrawArrays { mode: consts::TRIANGLES, first: 0, count: 3 },
        GlCommand::Delete { object: Object::Framebuffer(fb) },
        GlCommand::BindTexture { target: consts::TEXTURE_2D, texture: c.id() },
        GlCommand::GenerateMipmap { target: consts::TEXTURE_2D },
    ];
    assert_eq!(&gl.commands()[start..], &expected[..]);
}

#[test]
fn scopes_restore_default_framebuffer() {
    let mut gl = Gl::new(true);
    let c = texture(&mut gl, Format::RGBA8, None);
    let d = texture(&mut gl, Format::Depth16, None);
    let a = array(&mut gl, Format::RGBA8, 4);
    let ad = array(&mut gl, Format::Depth32F, 2);
    let configs: Vec<(Option<&Texture2D>, Option<&Texture2D>)> =
        vec![(Some(&c), None), (None, Some(&d)), (Some(&c), Some(&d)), (None, None), (Some(&d), None)];
    for (col, dep) in configs {
        let _ = RenderTarget::write(&mut gl, 0, 0, 4, 4, None, None, col, dep, draw);
        assert_eq!(gl.draw_framebuffer(), None);
        assert_eq!(gl.live_framebuffer_count(), 0);
    }
    let _ = RenderTarget::write_to_color(&mut gl, 0, 0, 4, 4, None, Some(&c), draw);
    assert_eq!(gl.draw_framebuffer(), None);
    let _ = RenderTarget::write_to_depth(&mut gl, 0, 0, 4, 4, Some(1.0f32.to_bits()), Some(&d), draw);
    assert_eq!(gl.draw_framebuffer(), None);
    let _ = RenderTarget::write_to_color_array(&mut gl, 0, 0, 4, 4, None, Some(&a), 2, |c| c + 1, draw);
    assert_eq!(gl.draw_framebuffer(), None);
    let _ = RenderTarget::write_to_depth_array(&mut gl, 0, 0, 4, 4, None, Some(&ad), 1, draw);
    assert_eq!(gl.draw_framebuffer(), None);
    let _ = RenderTarget::write_to_depth_array(&mut gl, 0, 0, 4, 4, None, Some(&ad), 5, draw);
    assert_eq!(gl.draw_framebuffer(), None);
    assert_eq!(gl.live_framebuffer_count(), 0);
}

#[test]
fn pass_without_clear_issues_no_clear() {
    let mut gl = Gl::new(false);
    let c = texture(&mut gl, Format::RGBA8, None);
    let first = gl.commands().len();
    RenderTarget::write_to_color(&mut gl, 0, 0, 4, 4, Some(color(0.0, 0.0, 1.0, 1.0)), Some(&c), draw).unwrap();
    assert_eq!(gl.commands()[first..].iter().filter(|c| is_clear(c)).count(), 1);
    let second = gl.commands().len();
    RenderTarget::write(&mut gl, 0, 0, 4, 4, None, None, Some(&c), None, draw).unwrap();
    assert!(!gl.commands()[second..].iter().any(is_clear));
    assert!(!gl.commands()[second..].iter().any(|c| matches!(c, GlCommand::ClearColor { .. })));
    assert!(gl.commands()[second..].iter().any(|c| matches!(c, GlCommand::DrawArrays { .. })));
}

#[test]
fn clear_policy_color_only_and_depth_only() {
    let mut gl = Gl::new(false);
    let c = texture(&mut gl, Format::RGBA8, None);
    let d = texture(&mut gl, Format::Depth24, None);
    let s = gl.commands().len();
    RenderTarget::write_to_color(&mut gl, 0, 0, 4, 4, Some(color(1.0, 1.0, 1.0, 1.0)), Some(&c), |_: &mut Gl| {}).unwrap();
    let cmds = &gl.commands()[s..];
    assert_eq!(cmds[5], GlCommand::ClearColor { color: color(1.0, 1.0, 1.0, 1.0) });
    assert_eq!(cmds[6], GlCommand::Clear { mask: consts::COLOR_BUFFER_BIT });
    assert!(!cmds.iter().any(|c| matches!(c, GlCommand::DepthMask { .. })));
    let s = gl.commands().len();
    RenderTarget::write_to_depth(&mut gl, 0, 0, 4, 4, Some(0.5f32.to_bits()), Some(&d), |_: &mut Gl| {}).unwrap();
    let cmds = &gl.commands()[s..];
    assert_eq!(cmds[4], GlCommand::ClearDepth { depth: 0.5f32.to_bits() });
    assert_eq!(cmds[5], GlCommand::DepthMask { enabled: true });
    assert_eq!(cmds[6], GlCommand::Clear { mask: consts::DEPTH_BUFFER_BIT });
}

#[test]
fn incomplete_framebuffer_fails_under_validation() {
    let mut gl = Gl::new(true);
    let d = texture(&mut gl, Format::Depth24, None);
    let c = texture(&mut gl, Format::RGBA8, None);
    let s = gl.commands().len();
    let r = RenderTarget::write(&mut gl, 0, 0, 4, 4, Some(color(1.0, 0.0, 0.0, 1.0)), None, Some(&d), None, draw);
    assert_eq!(r, Err(Error::IncompleteFramebuffer));
    assert!(!gl.commands()[s..].iter().any(is_clear));
    assert!(!gl.commands()[s..].iter().any(|c| matches!(c, GlCommand::DrawArrays { .. })));
    assert!(matches!(gl.commands().last().unwrap(), GlCommand::Delete { object: Object::Framebuffer(_) }));
    assert_eq!(gl.live_framebuffer_count(), 0);
    let r = RenderTarget::write(&mut gl, 0, 0, 4, 4, None, None, None, Some(&c), draw);
    assert_eq!(r, Err(Error::IncompleteFramebuffer));
    let r = RenderTarget::write(&mut gl, 0, 0, 4, 4, None, None, None, None, draw);
    assert_eq!(r, Err(Error::IncompleteFramebuffer));
}

#[test]
fn incomplete_framebuffer_passes_without_validation() {
    let mut gl = Gl::new(false);
    let d = texture(&mut gl, Format::Depth24, None);
    let r = RenderTarget::write(&mut gl, 0, 0, 4, 4, None, None, Some(&d), None, draw);
    assert_eq!(r, Ok(()));
}

#[test]
fn array_pass_maps_channels_to_layers() {
    let mut gl = Gl::new(true);
    let a = array(&mut gl, Format::RGBA8, 8);
    let ad = array(&mut gl, Format::Depth24, 3);
    let s = gl.commands().len();
    let r = RenderTarget::write_array(&mut gl, 0, 0, 4, 4, None, None, Some(&a), Some(&ad), 3, |c| 2 * c + 1, 2, draw);
    assert_eq!(r, Ok(()));
    let cmds = &gl.commands()[s..];
    assert_eq!(
        cmds[3],
        GlCommand::DrawBuffers { attachments: vec![consts::COLOR_ATTACHMENT0, consts::COLOR_ATTACHMENT0 + 1, consts::COLOR_ATTACHMENT0 + 2] }
    );
    for c in 0..3usize {
        assert_eq!(
            cmds[4 + c],
            GlCommand::FramebufferTexture {
                target: consts::DRAW_FRAMEBUFFER,
                attachment: consts::COLOR_ATTACHMENT0 + c as u32,
                texture_target: consts::TEXTURE_2D_ARRAY,
                texture: a.id(),
                layer: Some(2 * c + 1),
            }
        );
    }
    assert_eq!(
        cmds[7],
        GlCommand::FramebufferTexture {
            target: consts::DRAW_FRAMEBUFFER,
            attachment: consts::DEPTH_ATTACHMENT,
            texture_target: consts::TEXTURE_2D_ARRAY,
            texture: ad.id(),
            layer: Some(2),
        }
    );
}

#[test]
fn array_pass_rejects_layer_out_of_range_under_validation() {
    let mut gl = Gl::new(true);
    let a = array(&mut gl, Format::RGBA8, 2);
    let r = RenderTarget::write_to_color_array(&mut gl, 0, 0, 4, 4, None, Some(&a), 2, |c| c + 1, draw);
    assert_eq!(r, Err(Error::IncompleteFramebuffer));
    let r = RenderTarget::write_to_color_array(&mut gl, 0, 0, 4, 4, None, Some(&a), 2, |c| c, draw);
    assert_eq!(r, Ok(()));
    let r = RenderTarget::write_to_color_array(&mut gl, 0, 0, 4, 4, None, None, 1, |c| c, draw);
    assert_eq!(r, Err(Error::IncompleteFramebuffer));
    assert_eq!(gl.live_framebuffer_count(), 0);
}

#[test]
fn scope_fails_when_names_are_exhausted() {
    let mut gl = Gl::starting_at(false, u32::MAX);
    let r = RenderTarget::write(&mut gl, 1, 2, 3, 4, None, None, None, None, draw);
    assert_eq!(r, Err(Error::ResourceCreation));
    assert_eq!(gl.commands(), &vec![GlCommand::Viewport { x: 1, y: 2, width: 3, height: 4 }]);
}

#[test]
fn screen_path_binds_default_and_clears() {
    let mut gl = Gl::new(false);
    let r = Screen::write(&mut gl, 0, 0, 8, 8, Some(color(0.0, 0.0, 0.0, 0.0)), None, draw);
    assert_eq!(r, Ok(()));
    let expected = vec![
        GlCommand::Viewport { x: 0, y: 0, width: 8, height: 8 },
        GlCommand::BindFramebuffer { target: consts::DRAW_FRAMEBUFFER, framebuffer: None },
        GlCommand::ClearColor { color: color(0.0, 0.0, 0.0, 0.0) },
        GlCommand::Clear { mask: consts::COLOR_BUFFER_BIT },
        GlCommand::DrawArrays { mode: consts::TRIANGLES, first: 0, count: 3 },
    ];
    assert_eq!(gl.commands(), &expected);
}

#[test]
fn screen_reads_report_sizes() {
    let mut gl = Gl::new(false);
    assert_eq!(Screen::read_color(&mut gl, 0, 0, 5, 3), Ok(45));
    assert_eq!(
        gl.commands()[2],
        GlCommand::ReadPixels { x: 0, y: 0, width: 5, height: 3, format: consts::RGB, data_type: consts::UNSIGNED_BYTE }
    );
    assert_eq!(Screen::read_depth(&mut gl, 0, 0, 5, 3), Ok(15));
    assert_eq!(
        gl.commands()[5],
        GlCommand::ReadPixels { x: 0, y: 0, width: 5, height: 3, format: consts::DEPTH_COMPONENT, data_type: consts::FLOAT }
    );
}

#[test]
fn end_to_end_red_clear_into_rgba_texture() {
    let mut gl = Gl::new(true);
    let mut t = texture(&mut gl, Format::RGBA8, None);
    assert_eq!(t.mip_level_count(), 1);
    let pattern: Vec<u8> = (0..64u8).collect();
    assert_eq!(t.fill_with_u8(&mut gl, &pattern), Ok(()));
    let s = gl.commands().len();
    let red = color(1.0, 0.0, 0.0, 1.0);
    assert_eq!(RenderTarget::write_to_color(&mut gl, 0, 0, 4, 4, Some(red), Some(&t), |_: &mut Gl| {}), Ok(()));
    let cmds = &gl.commands()[s..];
    assert!(cmds.contains(&GlCommand::FramebufferTexture {
        target: consts::FRAMEBUFFER,
        attachment: consts::COLOR_ATTACHMENT0,
        texture_target: consts::TEXTURE_2D,
        texture: t.id(),
        layer: None,
    }));
    assert!(cmds.contains(&GlCommand::ClearColor { color: red }));
    assert!(cmds.contains(&GlCommand::Clear { mask: consts::COLOR_BUFFER_BIT }));
    assert!(!cmds.iter().any(|c| matches!(c, GlCommand::DepthMask { .. } | GlCommand::ClearDepth { .. })));
    assert!(!cmds.iter().any(|c| matches!(c, GlCommand::GenerateMipmap { .. })));
    assert_eq!(Screen::read_color(&mut gl, 0, 0, 4, 4), Ok(48));
    assert_eq!(gl.draw_framebuffer(), None);
}
