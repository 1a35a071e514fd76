use gpu_core::consts;
use gpu_core::{
    calculate_number_of_mip_maps, Error, Format, Gl, GlCommand, Image, Interpolation, Object, Texture,
    Texture2D, Texture2DArray, TextureCubeMap, TextureId, Wrapping,
};

fn texture_2d(gl: &mut Gl, w: usize, h: usize, mip: Option<Interpolation>, format: Format) -> Texture2D {
    Texture2D::new(
        gl,
        w,
        h,
        Interpolation::Nearest,
        Interpolation::Linear,
        mip,
        Wrapping::Repeat,
        Wrapping::ClampToEdge,
        format,
    )
    .unwrap()
}

#[test]
fn mip_count_is_one_without_mip_filter() {
    assert_eq!(calculate_number_of_mip_maps(None, 256, 128, 1), 1);
    assert_eq!(calculate_number_of_mip_maps(None, 1, 1, 1), 1);
    assert_eq!(calculate_number_of_mip_maps(None, 5000, 3, 7), 1);
}

#[test]
fn mip_count_is_floor_log2_of_largest_extent_plus_one() {
    let f = Some(Interpolation::Linear);
    assert_eq!(calculate_number_of_mip_maps(f, 256, 128, 1), 9);
    assert_eq!(calculate_number_of_mip_maps(f, 5, 3, 1), 3);
    assert_eq!(calculate_number_of_mip_maps(f, 4, 4, 16), 5);
    assert_eq!(calculate_number_of_mip_maps(f, 1, 1, 1), 1);
    assert_eq!(calculate_number_of_mip_maps(Some(Interpolation::Nearest), 1023, 1, 1), 10);
    assert_eq!(calculate_number_of_mip_maps(f, 1024, 1, 1), 11);
}

#[test]
fn texture_2d_creation_commands() {
    let mut gl = Gl::new(false);
    let mut t = texture_2d(&mut gl, 4, 4, Some(Interpolation::Linear), Format::RGBA8);
    assert_eq!(t.mip_level_count(), 3);
    assert_eq!(t.id(), TextureId { name: 1 });
    let id = t.id();
    let expected = vec![
        GlCommand::Create { object: Object::Texture(id) },
        GlCommand::BindTexture { target: consts::TEXTURE_2D, texture: id },
        GlCommand::TexParameter {
            target: consts::TEXTURE_2D,
            name: consts::TEXTURE_MIN_FILTER,
            value: consts::NEAREST_MIPMAP_LINEAR,
        },
        GlCommand::TexParameter { target: consts::TEXTURE_2D, name: consts::TEXTURE_MAG_FILTER, value: consts::LINEAR },
        GlCommand::TexParameter { target: consts::TEXTURE_2D, name: consts::TEXTURE_WRAP_S, value: consts::REPEAT },
        GlCommand::TexParameter { target: consts::TEXTURE_2D, name: consts::TEXTURE_WRAP_T, value: consts::CLAMP_TO_EDGE },
        GlCommand::TexStorage {
            target: consts::TEXTURE_2D,
            levels: 3,
            format: consts::RGBA8,
            width: 4,
            height: 4,
            depth: None,
        },
    ];
    assert_eq!(gl.commands(), &expected);
}

#[test]
fn min_filter_for_each_mip_combination() {
    let cases = [
        (Interpolation::Nearest, Some(Interpolation::Nearest), consts::NEAREST_MIPMAP_NEAREST),
        (Interpolation::Linear, Some(Interpolation::Nearest), consts::LINEAR_MIPMAP_NEAREST),
        (Interpolation::Nearest, Some(Interpolation::Linear), consts::NEAREST_MIPMAP_LINEAR),
        (Interpolation::Linear, Some(Interpolation::Linear), consts::LINEAR_MIPMAP_LINEAR),
        (Interpolation::Linear, None, consts::LINEAR),
    ];
    for (min, mip, value) in cases {
        let mut gl = Gl::new(false);
        Texture2D::new(&mut gl, 8, 8, min, min, mip, Wrapping::Repeat, Wrapping::Repeat, Format::R8).unwrap();
        assert_eq!(
            gl.commands()[2],
            GlCommand::TexParameter { target: consts::TEXTURE_2D, name: consts::TEXTURE_MIN_FILTER, value }
        );
    }
}

#[test]
fn single_level_reduces_min_filter_to_plain() {
    let mut gl = Gl::new(false);
    let mut t = texture_2d(&mut gl, 1, 1, Some(Interpolation::Linear), Format::RGBA8);
    assert_eq!(t.mip_level_count(), 1);
    assert_eq!(
        gl.commands()[2],
        GlCommand::TexParameter { target: consts::TEXTURE_2D, name: consts::TEXTURE_MIN_FILTER, value: consts::NEAREST }
    );
}

#[test]
fn creation_fails_when_names_are_exhausted() {
    let mut gl = Gl::starting_at(false, u32::MAX);
    let r = Texture2D::new(
        &mut gl,
        4,
        4,
        Interpolation::Nearest,
        Interpolation::Nearest,
        None,
        Wrapping::Repeat,
        Wrapping::Repeat,
        Format::RGBA8,
    );
    assert!(matches!(r, Err(Error::ResourceCreation)));
    assert!(gl.commands().is_empty());
}

#[test]
fn fill_with_u8_checks_length() {
    let mut gl = Gl::new(false);
    let mut t = texture_2d(&mut gl, 4, 4, None, Format::RGBA8);
    let before = gl.commands().len();
    assert_eq!(t.fill_with_u8(&mut gl, &[0u8; 63]), Err(Error::SizeMismatch));
    assert_eq!(t.fill_with_u8(&mut gl, &[0u8; 65]), Err(Error::SizeMismatch));
    assert_eq!(gl.commands().len(), before);
    assert_eq!(t.fill_with_u8(&mut gl, &[7u8; 64]), Ok(()));
    assert_eq!(gl.commands().len(), before + 2);
    assert_eq!(
        gl.commands()[before + 1],
        GlCommand::TexSubImage { target: consts::TEXTURE_2D, width: 4, height: 4, format: consts::RGBA, data: vec![7u8; 64] }
    );
}

#[test]
fn fill_with_u8_regenerates_mips() {
    let mut gl = Gl::new(false);
    let mut t = texture_2d(&mut gl, 4, 2, Some(Interpolation::Nearest), Format::RGB8);
    assert_eq!(t.mip_level_count(), 3);
    let before = gl.commands().len();
    assert_eq!(t.fill_with_u8(&mut gl, &[1u8; 24]), Ok(()));
    assert_eq!(
        gl.commands()[before + 3],
        GlCommand::GenerateMipmap { target: consts::TEXTURE_2D }
    );
    assert_eq!(gl.commands().len(), before + 4);
}

#[test]
fn fill_with_u8_rejects_other_formats() {
    let mut gl = Gl::new(false);
    for format in [Format::RGBA4, Format::R32F, Format::Depth24] {
        let mut t = texture_2d(&mut gl, 2, 2, None, format);
        assert_eq!(t.fill_with_u8(&mut gl, &[0u8; 4]), Err(Error::UnsupportedFormat));
    }
}

#[test]
fn fill_with_f32_checks_format_and_length() {
    let mut gl = Gl::new(false);
    let mut t = texture_2d(&mut gl, 2, 2, None, Format::RGB32F);
    let data: Vec<u32> = (0..12).map(|i| (i as f32).to_bits()).collect();
    assert_eq!(t.fill_with_f32(&mut gl, &data[..11]), Err(Error::SizeMismatch));
    assert_eq!(t.fill_with_f32(&mut gl, &data), Ok(()));
    assert_eq!(
        gl.commands().last().unwrap(),
        &GlCommand::TexSubImageFloat { target: consts::TEXTURE_2D, width: 2, height: 2, format: consts::RGB, data: data.clone() }
    );
    let mut u = texture_2d(&mut gl, 2, 2, None, Format::RGB8);
    assert_eq!(u.fill_with_f32(&mut gl, &data), Err(Error::UnsupportedFormat));
}

fn image(w: u32, h: u32, channels: usize) -> Image {
    Image { bytes: vec![9u8; w as usize * h as usize * channels], width: w, height: h }
}

#[test]
fn new_with_u8_infers_format_from_channels() {
    for (channels, format) in [(1, Format::R8), (3, Format::RGB8), (4, Format::RGBA8)] {
        let mut gl = Gl::new(false);
        let t = Texture2D::new_with_u8(
            &mut gl,
            Interpolation::Linear,
            Interpolation::Linear,
            None,
            Wrapping::Repeat,
            Wrapping::Repeat,
            &image(3, 2, channels),
        )
        .unwrap();
        assert_eq!(t.format(), format);
        assert_eq!((t.width, t.height), (3, 2));
    }
}

#[test]
fn new_with_u8_rejects_unsupported_channel_counts() {
    for channels in [2, 5, 0] {
        let mut gl = Gl::new(false);
        let r = Texture2D::new_with_u8(
            &mut gl,
            Interpolation::Linear,
            Interpolation::Linear,
            None,
            Wrapping::Repeat,
            Wrapping::Repeat,
            &image(4, 4, channels),
        );
        assert!(matches!(r, Err(Error::UnsupportedFormat)));
        assert!(gl.commands().is_empty());
    }
}

#[test]
fn new_with_u8_releases_texture_on_size_mismatch() {
    let mut gl = Gl::new(false);
    let img = Image { bytes: vec![0u8; 4 * 4 * 3 + 1], width: 4, height: 4 };
    let r = Texture2D::new_with_u8(
        &mut gl,
        Interpolation::Linear,
        Interpolation::Linear,
        None,
        Wrapping::Repeat,
        Wrapping::Repeat,
        &img,
    );
    assert!(matches!(r, Err(Error::SizeMismatch)));
    assert_eq!(
        gl.commands().last().unwrap(),
        &GlCommand::Delete { object: Object::Texture(TextureId { name: 1 }) }
    );
}

#[test]
fn cube_map_fill_uploads_six_faces_in_order() {
    let mut gl = Gl::new(false);
    let mut t = TextureCubeMap::new(
        &mut gl,
        2,
        2,
        Interpolation::Linear,
        Interpolation::Linear,
        None,
        Wrapping::ClampToEdge,
        Wrapping::ClampToEdge,
        Wrapping::ClampToEdge,
        Format::R8,
    )
    .unwrap();
    let faces: Vec<Vec<u8>> = (0..6u8).map(|i| vec![i; 4]).collect();
    let before = gl.commands().len();
    let r = t.fill_with_u8(
        &mut gl,
        [&faces[0], &faces[1], &faces[2], &faces[3], &faces[4], &faces[5]],
    );
    assert_eq!(r, Ok(()));
    let cmds = gl.commands();
    assert_eq!(cmds.len(), before + 7);
    for i in 0..6 {
        assert_eq!(
            cmds[before + 1 + i],
            GlCommand::TexSubImage {
                target: consts::TEXTURE_CUBE_MAP_POSITIVE_X + i as u32,
                width: 2,
                height: 2,
                format: consts::RED,
                data: faces[i].clone(),
            }
        );
    }
    let short = vec![0u8; 3];
    assert_eq!(
        t.fill_with_u8(&mut gl, [&short, &short, &short, &short, &short, &short]),
        Err(Error::SizeMismatch)
    );
}

#[test]
fn cube_map_new_with_u8_rejects_two_channels() {
    let mut gl = Gl::new(false);
    let f = image(2, 2, 2);
    let r = TextureCubeMap::new_with_u8(
        &mut gl,
        Interpolation::Linear,
        Interpolation::Linear,
        None,
        Wrapping::Repeat,
        Wrapping::Repeat,
        Wrapping::Repeat,
        &f,
        &f,
        &f,
        &f,
        &f,
        &f,
    );
    assert!(matches!(r, Err(Error::UnsupportedFormat)));
}

#[test]
fn cube_map_new_with_u8_uploads_faces() {
    let mut gl = Gl::new(false);
    let f = image(2, 2, 4);
    let t = TextureCubeMap::new_with_u8(
        &mut gl,
        Interpolation::Linear,
        Interpolation::Linear,
        Some(Interpolation::Linear),
        Wrapping::Repeat,
        Wrapping::Repeat,
        Wrapping::Repeat,
        &f,
        &f,
        &f,
        &f,
        &f,
        &f,
    )
    .unwrap();
    assert_eq!(t.format(), Format::RGBA8);
    assert_eq!(t.mip_level_count(), 2);
    assert_eq!(gl.commands().last().unwrap(), &GlCommand::GenerateMipmap { target: consts::TEXTURE_CUBE_MAP });
}

#[test]
fn array_texture_allocates_all_layers() {
    let mut gl = Gl::new(false);
    let t = Texture2DArray::new(
        &mut gl,
        8,
        4,
        3,
        Interpolation::Linear,
        Interpolation::Linear,
        Some(Interpolation::Nearest),
        Wrapping::Repeat,
        Wrapping::Repeat,
        Format::Depth32F,
    )
    .unwrap();
    assert_eq!(t.mip_level_count(), 4);
    assert_eq!(t.layer_count(), 3);
    assert_eq!(
        gl.commands().last().unwrap(),
        &GlCommand::TexStorage {
            target: consts::TEXTURE_2D_ARRAY,
            levels: 4,
            format: consts::DEPTH_COMPONENT32F,
            width: 8,
            height: 4,
            depth: Some(3),
        }
    );
}

#[test]
fn bind_selects_sampler_unit() {
    let mut gl = Gl::new(false);
    let mut t = texture_2d(&mut gl, 2, 2, None, Format::R8);
    let before = gl.commands().len();
    t.bind(&mut gl, 3);
    assert_eq!(gl.commands()[before], GlCommand::ActiveTexture { unit: consts::TEXTURE0 + 3 });
    assert_eq!(gl.commands()[before + 1], GlCommand::BindTexture { target: consts::TEXTURE_2D, texture: t.id() });
}

#[test]
fn mip_regeneration_is_noop_for_single_level() {
    let mut gl = Gl::new(false);
    let mut t = texture_2d(&mut gl, 16, 16, None, Format::RGBA8);
    let before = gl.commands().len();
    t.generate_mip_maps(&mut gl);
    assert_eq!(gl.commands().len(), before);
    t.delete(&mut gl);
    assert_eq!(gl.commands().len(), before + 1);
}
