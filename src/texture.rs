//! Textures: 2D, cube-map and 2D-array, with mip-level derivation, sampler
//! parameters, uploads and framebuffer attachment.
use vstd::prelude::*;
use vstd::arithmetic::power2::{pow2, lemma2_to64, lemma_pow2_unfold};
use crate::consts;
use crate::error::Error;
use crate::gl::{model, CommandModel, Gl, GlCommand, GlModel, Object, TextureId};

verus! {

/// Sampling filter.
#[derive(Copy, Clone, Eq, PartialEq, Structural, Ord, PartialOrd, Hash, Debug)]
pub enum Interpolation {
    Nearest,
    Linear,
}

/// Behaviour of texture coordinates outside `[0, 1]`.
#[derive(Copy, Clone, Eq, PartialEq, Structural, Ord, PartialOrd, Hash, Debug)]
pub enum Wrapping {
    Repeat,
    MirroredRepeat,
    ClampToEdge,
}

/// Storage format of a texture.
#[derive(Copy, Clone, Eq, PartialEq, Structural, Ord, PartialOrd, Hash, Debug)]
pub enum Format {
    R8,
    R32F,
    RGB8,
    RGB32F,
    RGBA4,
    RGBA8,
    RGBA32F,
    Depth16,
    Depth24,
    Depth32F,
}

pub open spec fn interpolation_value(i: Interpolation) -> u32 {
    match i {
        Interpolation::Nearest => consts::NEAREST,
        Interpolation::Linear => consts::LINEAR,
    }
}

pub open spec fn wrapping_value(w: Wrapping) -> u32 {
    match w {
        Wrapping::Repeat => consts::REPEAT,
        Wrapping::MirroredRepeat => consts::MIRRORED_REPEAT,
        Wrapping::ClampToEdge => consts::CLAMP_TO_EDGE,
    }
}

pub open spec fn format_value(f: Format) -> u32 {
    match f {
        Format::R8 => consts::R8,
        Format::R32F => consts::R32F,
        Format::RGB8 => consts::RGB8,
        Format::RGB32F => consts::RGB32F,
        Format::RGBA4 => consts::RGBA4,
        Format::RGBA8 => consts::RGBA8,
        Format::RGBA32F => consts::RGBA32F,
        Format::Depth16 => consts::DEPTH_COMPONENT16,
        Format::Depth24 => consts::DEPTH_COMPONENT24,
        Format::Depth32F => consts::DEPTH_COMPONENT32F,
    }
}

/// Number of channels of a texel in format `f`.
pub open spec fn channel_count(f: Format) -> nat {
    match f {
        Format::R8 | Format::R32F | Format::Depth16 | Format::Depth24 | Format::Depth32F => 1,
        Format::RGB8 | Format::RGB32F => 3,
        Format::RGBA4 | Format::RGBA8 | Format::RGBA32F => 4,
    }
}

/// Whether `f` holds depth rather than color.
pub open spec fn is_depth_format(f: Format) -> bool {
    f is Depth16 || f is Depth24 || f is Depth32F
}

/// Pixel layout of an 8-bit upload into format `f`, for the formats that take one.
pub open spec fn byte_layout(f: Format) -> Option<u32> {
    match f {
        Format::R8 => Some(consts::RED),
        Format::RGB8 => Some(consts::RGB),
        Format::RGBA8 => Some(consts::RGBA),
        _ => None,
    }
}

/// Pixel layout of a float upload into format `f`, for the formats that take one.
pub open spec fn float_layout(f: Format) -> Option<u32> {
    match f {
        Format::R32F => Some(consts::RED),
        Format::RGB32F => Some(consts::RGB),
        Format::RGBA32F => Some(consts::RGBA),
        _ => None,
    }
}

/// The 8-bit format that an image of `channels` channels is stored in.
pub open spec fn format_for_channels(channels: nat) -> Option<Format> {
    if channels == 1 {
        Some(Format::R8)
    } else if channels == 3 {
        Some(Format::RGB8)
    } else if channels == 4 {
        Some(Format::RGBA8)
    } else {
        None
    }
}

impl Interpolation {
    /// The device enumerant of this filter.
    pub fn gl_value(&self) -> (r: u32)
        ensures
            r == interpolation_value(*self),
    {
        match self {
            Interpolation::Nearest => consts::NEAREST,
            Interpolation::Linear => consts::LINEAR,
        }
    }
}

impl Wrapping {
    /// The device enumerant of this wrap mode.
    pub fn gl_value(&self) -> (r: u32)
        ensures
            r == wrapping_value(*self),
    {
        match self {
            Wrapping::Repeat => consts::REPEAT,
            Wrapping::MirroredRepeat => consts::MIRRORED_REPEAT,
            Wrapping::ClampToEdge => consts::CLAMP_TO_EDGE,
        }
    }
}

impl Format {
    /// The device enumerant of this storage format.
    pub fn gl_value(&self) -> (r: u32)
        ensures
            r == format_value(*self),
    {
        match self {
            Format::R8 => consts::R8,
            Format::R32F => consts::R32F,
            Format::RGB8 => consts::RGB8,
            Format::RGB32F => consts::RGB32F,
            Format::RGBA4 => consts::RGBA4,
            Format::RGBA8 => consts::RGBA8,
            Format::RGBA32F => consts::RGBA32F,
            Format::Depth16 => consts::DEPTH_COMPONENT16,
            Format::Depth24 => consts::DEPTH_COMPONENT24,
            Format::Depth32F => consts::DEPTH_COMPONENT32F,
        }
    }

    /// Number of channels of a texel in this format.
    pub fn channels(&self) -> (r: usize)
        ensures
            r as nat == channel_count(*self),
    {
        match self {
            Format::R8 | Format::R32F | Format::Depth16 | Format::Depth24 | Format::Depth32F => 1,
            Format::RGB8 | Format::RGB32F => 3,
            Format::RGBA4 | Format::RGBA8 | Format::RGBA32F => 4,
        }
    }

    /// Whether this format holds depth rather than color.
    pub fn is_depth(&self) -> (r: bool)
        ensures
            r == is_depth_format(*self),
    {
        match self {
            Format::Depth16 | Format::Depth24 | Format::Depth32F => true,
            _ => false,
        }
    }
}

/// `floor(log2(n))`, with 0 for `n == 0`.
pub open spec fn log2_floor(n: nat) -> nat
    decreases n,
{
    if n <= 1 {
        0
    } else {
        1 + log2_floor(n / 2)
    }
}

pub open spec fn max3(a: nat, b: nat, c: nat) -> nat {
    if a >= b && a >= c {
        a
    } else if b >= c {
        b
    } else {
        c
    }
}

/// Number of mip levels of a texture of the given extent: a full chain when a
/// mip filter is requested, a single level otherwise.
pub open spec fn mip_levels(mip_map_filter: Option<Interpolation>, width: nat, height: nat, depth: nat) -> nat {
    if mip_map_filter is Some {
        log2_floor(max3(width, height, depth)) + 1
    } else {
        1
    }
}

proof fn lemma_log2_floor_bound(n: nat, k: nat)
    requires
        n < pow2(k + 1),
    ensures
        log2_floor(n) <= k,
    decreases k,
{
    if n > 1 {
        lemma_pow2_unfold(k + 1);
        if k == 0 {
            lemma2_to64();
        } else {
            lemma_pow2_unfold(k);
            lemma_log2_floor_bound(n / 2, (k - 1) as nat);
        }
    }
}

fn floor_log2(n: usize) -> (r: u32)
    ensures
        r as nat == log2_floor(n as nat),
        r <= 63,
{
    proof {
        lemma2_to64();
        lemma_log2_floor_bound(n as nat, 63);
    }
    let mut k: usize = n;
    let mut r: u32 = 0;
    while k > 1
        invariant
            r as nat + log2_floor(k as nat) == log2_floor(n as nat),
            log2_floor(n as nat) <= 63,
        decreases k,
    {
        k = k / 2;
        r = r + 1;
    }
    r
}

/// Number of mip levels to allocate for a texture of the given extent.
pub fn calculate_number_of_mip_maps(
    mip_map_filter: Option<Interpolation>,
    width: usize,
    height: usize,
    depth: usize,
) -> (r: u32)
    ensures
        r as nat == mip_levels(mip_map_filter, width as nat, height as nat, depth as nat),
        1 <= r <= 64,
{
    if mip_map_filter.is_some() {
        let mut m = width;
        if height > m {
            m = height;
        }
        if depth > m {
            m = depth;
        }
        assert(m as nat == max3(width as nat, height as nat, depth as nat));
        floor_log2(m) + 1
    } else {
        1
    }
}

/// The minification filter enumerant for a base filter and an optional mip filter.
pub open spec fn min_filter_value(min_filter: Interpolation, mip_map_filter: Option<Interpolation>) -> u32 {
    match mip_map_filter {
        None => interpolation_value(min_filter),
        Some(Interpolation::Nearest) => if min_filter == Interpolation::Nearest {
            consts::NEAREST_MIPMAP_NEAREST
        } else {
            consts::LINEAR_MIPMAP_NEAREST
        },
        Some(Interpolation::Linear) => if min_filter == Interpolation::Nearest {
            consts::NEAREST_MIPMAP_LINEAR
        } else {
            consts::LINEAR_MIPMAP_LINEAR
        },
    }
}

/// The commands that configure the sampler of a texture.
pub open spec fn parameter_commands(
    target: u32,
    id: TextureId,
    min_filter: Interpolation,
    mag_filter: Interpolation,
    mip_map_filter: Option<Interpolation>,
    wrap_s: Wrapping,
    wrap_t: Wrapping,
    wrap_r: Option<Wrapping>,
) -> Seq<CommandModel> {
    seq![
        GlCommand::BindTexture { target, texture: id },
        GlCommand::TexParameter {
            target,
            name: consts::TEXTURE_MIN_FILTER,
            value: min_filter_value(min_filter, mip_map_filter),
        },
        GlCommand::TexParameter {
            target,
            name: consts::TEXTURE_MAG_FILTER,
            value: interpolation_value(mag_filter),
        },
        GlCommand::TexParameter { target, name: consts::TEXTURE_WRAP_S, value: wrapping_value(wrap_s) },
        GlCommand::TexParameter { target, name: consts::TEXTURE_WRAP_T, value: wrapping_value(wrap_t) },
    ] + match wrap_r {
        Some(r) => seq![
            GlCommand::TexParameter { target, name: consts::TEXTURE_WRAP_R, value: wrapping_value(r) },
        ],
        None => Seq::<CommandModel>::empty(),
    }
}

/// Creates a texture object.
pub fn generate(gl: &mut Gl) -> (r: Result<TextureId, Error>)
    requires
        old(gl).wf(),
    ensures
        final(gl).wf(),
        old(gl)@.next_name == u32::MAX ==> r == Err::<TextureId, Error>(Error::ResourceCreation)
            && final(gl)@ == old(gl)@,
        old(gl)@.next_name < u32::MAX ==> r == Ok::<TextureId, Error>(TextureId { name: old(gl)@.next_name })
            && final(gl)@ == old(gl)@.take_name().issue(
            GlCommand::Create { object: Object::Texture(TextureId { name: old(gl)@.next_name }) },
        ),
{
    match gl.create_texture() {
        Some(id) => Ok(id),
        None => Err(Error::ResourceCreation),
    }
}

/// Binds texture `id` to sampler unit `location`.
pub fn bind_at(gl: &mut Gl, id: &TextureId, target: u32, location: u32)
    requires
        location < consts::MAX_TEXTURE_UNITS,
    ensures
        final(gl).wf() == old(gl).wf(),
        final(gl)@ == old(gl)@.issue_all(bind_commands(target, *id, location)),
{
    gl.issue(GlCommand::ActiveTexture { unit: consts::TEXTURE0 + location });
    gl.issue(GlCommand::BindTexture { target, texture: *id });
    assert(final(gl)@.commands =~= old(gl)@.issue_all(bind_commands(target, *id, location)).commands);
}

/// The commands that bind a texture to a sampler unit.
pub open spec fn bind_commands(target: u32, id: TextureId, location: u32) -> Seq<CommandModel> {
    seq![
        GlCommand::ActiveTexture { unit: (consts::TEXTURE0 + location) as u32 },
        GlCommand::BindTexture { target, texture: id },
    ]
}

fn min_filter_gl_value(min_filter: Interpolation, mip_map_filter: Option<Interpolation>) -> (r: u32)
    ensures
        r == min_filter_value(min_filter, mip_map_filter),
{
    match mip_map_filter {
        None => min_filter.gl_value(),
        Some(Interpolation::Nearest) => if min_filter == Interpolation::Nearest {
            consts::NEAREST_MIPMAP_NEAREST
        } else {
            consts::LINEAR_MIPMAP_NEAREST
        },
        Some(Interpolation::Linear) => if min_filter == Interpolation::Nearest {
            consts::NEAREST_MIPMAP_LINEAR
        } else {
            consts::LINEAR_MIPMAP_LINEAR
        },
    }
}

/// Configures the sampler of texture `id`: filters and wrap modes.
#[verifier::rlimit(40)]
pub fn set_parameters(
    gl: &mut Gl,
    id: &TextureId,
    target: u32,
    min_filter: Interpolation,
    mag_filter: Interpolation,
    mip_map_filter: Option<Interpolation>,
    wrap_s: Wrapping,
    wrap_t: Wrapping,
    wrap_r: Option<Wrapping>,
)
    ensures
        final(gl).wf() == old(gl).wf(),
        final(gl)@ == old(gl)@.issue_all(
            parameter_commands(target, *id, min_filter, mag_filter, mip_map_filter, wrap_s, wrap_t, wrap_r),
        ),
{
    gl.issue(GlCommand::BindTexture { target, texture: *id });
    let min = min_filter_gl_value(min_filter, mip_map_filter);
    gl.issue(GlCommand::TexParameter { target, name: consts::TEXTURE_MIN_FILTER, value: min });
    gl.issue(GlCommand::TexParameter { target, name: consts::TEXTURE_MAG_FILTER, value: mag_filter.gl_value() });
    gl.issue(GlCommand::TexParameter { target, name: consts::TEXTURE_WRAP_S, value: wrap_s.gl_value() });
    gl.issue(GlCommand::TexParameter { target, name: consts::TEXTURE_WRAP_T, value: wrap_t.gl_value() });
    let ghost mid = gl@;
    if let Some(r) = wrap_r {
        gl.issue(GlCommand::TexParameter { target, name: consts::TEXTURE_WRAP_R, value: r.gl_value() });
    }
    assert(final(gl)@.commands =~= old(gl)@.issue_all(
        parameter_commands(target, *id, min_filter, mag_filter, mip_map_filter, wrap_s, wrap_t, wrap_r),
    ).commands);
}


/// What the contracts know of a texture.
pub struct TextureModel {
    pub id: TextureId,
    pub width: usize,
    pub height: usize,
    pub depth: usize,
    pub format: Format,
    pub levels: u32,
}

/// The texture that creation with these arguments yields, named `name`.
pub open spec fn texture_model(
    name: u32,
    width: usize,
    height: usize,
    depth: usize,
    format: Format,
    mip_map_filter: Option<Interpolation>,
) -> TextureModel {
    TextureModel {
        id: TextureId { name },
        width,
        height,
        depth,
        format,
        levels: mip_levels(mip_map_filter, width as nat, height as nat, depth as nat) as u32,
    }
}

/// The mip filter that the sampler is configured with: none for a single level.
pub open spec fn effective_mip_filter(levels: u32, mip_map_filter: Option<Interpolation>) -> Option<Interpolation> {
    if levels == 1 {
        None
    } else {
        mip_map_filter
    }
}

/// Bytes or floats that a full level-0 upload of `t` takes.
pub open spec fn expected_len(t: TextureModel) -> nat {
    t.width as nat * t.height as nat * channel_count(t.format)
}

/// The commands that regenerate the mip chain of `t`: none for a single level.
pub open spec fn mipmap_commands(target: u32, t: TextureModel) -> Seq<CommandModel> {
    if t.levels > 1 {
        seq![GlCommand::BindTexture { target, texture: t.id }, GlCommand::GenerateMipmap { target }]
    } else {
        Seq::<CommandModel>::empty()
    }
}

/// The commands that create and allocate a 2D texture.
pub open spec fn creation_commands_2d(
    t: TextureModel,
    min_filter: Interpolation,
    mag_filter: Interpolation,
    mip_map_filter: Option<Interpolation>,
    wrap_s: Wrapping,
    wrap_t: Wrapping,
) -> Seq<CommandModel> {
    seq![GlCommand::Create { object: Object::Texture(t.id) }] + parameter_commands(
        consts::TEXTURE_2D,
        t.id,
        min_filter,
        mag_filter,
        effective_mip_filter(t.levels, mip_map_filter),
        wrap_s,
        wrap_t,
        None,
    ) + seq![
        GlCommand::TexStorage {
            target: consts::TEXTURE_2D,
            levels: t.levels,
            format: format_value(t.format),
            width: t.width,
            height: t.height,
            depth: None,
        },
    ]
}

/// The commands that upload level 0 of a 2D texture from bytes.
pub open spec fn fill_commands_2d(t: TextureModel, layout: u32, data: Seq<u8>) -> Seq<CommandModel> {
    seq![
        GlCommand::BindTexture { target: consts::TEXTURE_2D, texture: t.id },
        GlCommand::TexSubImage {
            target: consts::TEXTURE_2D,
            width: t.width,
            height: t.height,
            format: layout,
            data,
        },
    ] + mipmap_commands(consts::TEXTURE_2D, t)
}

/// The commands that upload level 0 of a 2D texture from float bit patterns.
pub open spec fn fill_float_commands_2d(t: TextureModel, layout: u32, data: Seq<u32>) -> Seq<CommandModel> {
    seq![
        GlCommand::BindTexture { target: consts::TEXTURE_2D, texture: t.id },
        GlCommand::TexSubImageFloat {
            target: consts::TEXTURE_2D,
            width: t.width,
            height: t.height,
            format: layout,
            data,
        },
    ] + mipmap_commands(consts::TEXTURE_2D, t)
}

/// Decoded image pixels, rows of `width` texels with all channels interleaved.
pub struct Image {
    pub bytes: Vec<u8>,
    pub width: u32,
    pub height: u32,
}

/// Channel count of an image: its length over its texel count (0 for an empty extent).
pub open spec fn image_channels(len: nat, width: u32, height: u32) -> nat {
    if width as nat * height as nat == 0 {
        0
    } else {
        len / (width as nat * height as nat)
    }
}

fn channels_of(image: &Image) -> (r: u64)
    ensures
        r as nat == image_channels(image.bytes@.len(), image.width, image.height),
{
    let w = image.width as u64;
    let h = image.height as u64;
    assert(w * h <= 0xffff_ffff_u64 * 0xffff_ffff_u64) by (nonlinear_arith)
        requires
            w <= 0xffff_ffff_u64,
            h <= 0xffff_ffff_u64,
    ;
    let area = w * h;
    if area == 0 {
        0
    } else {
        image.bytes.len() as u64 / area
    }
}

fn format_for(channels: u64) -> (r: Option<Format>)
    ensures
        r == format_for_channels(channels as nat),
{
    if channels == 1 {
        Some(Format::R8)
    } else if channels == 3 {
        Some(Format::RGB8)
    } else if channels == 4 {
        Some(Format::RGBA8)
    } else {
        None
    }
}

/// `width * height * channels`, or `None` where it does not fit in `usize`.
fn texel_len(width: usize, height: usize, channels: usize) -> (r: Option<usize>)
    ensures
        r is Some ==> r.unwrap() as nat == width as nat * height as nat * channels as nat,
        r is None ==> width as nat * height as nat * channels as nat > usize::MAX,
{
    if channels == 0 {
        assert(width as nat * height as nat * 0 == 0) by (nonlinear_arith);
        return Some(0);
    }
    match width.checked_mul(height) {
        None => {
            assert(width as nat * height as nat * channels as nat >= width as nat * height as nat)
                by (nonlinear_arith)
                requires
                    channels >= 1,
            ;
            None
        },
        Some(n) => n.checked_mul(channels),
    }
}

/// A texture that draw calls can sample through a sampler unit.
pub trait Texture {
    /// The binding target and the object name of this texture.
    spec fn binding(&self) -> (u32, TextureId);

    /// Binds this texture to sampler unit `location`.
    fn bind(&self, gl: &mut Gl, location: u32)
        requires
            location < consts::MAX_TEXTURE_UNITS,
        ensures
            final(gl).wf() == old(gl).wf(),
            final(gl)@ == old(gl)@.issue_all(bind_commands(self.binding().0, self.binding().1, location)),
    ;
}

/// A two-dimensional texture.
pub struct Texture2D {
    id: TextureId,
    pub width: usize,
    pub height: usize,
    format: Format,
    number_of_mip_maps: u32,
}

impl View for Texture2D {
    type V = TextureModel;

    closed spec fn view(&self) -> TextureModel {
        TextureModel {
            id: self.id,
            width: self.width,
            height: self.height,
            depth: 1,
            format: self.format,
            levels: self.number_of_mip_maps,
        }
    }
}

impl Texture2D {
    /// Creates a texture of `width` by `height` texels with storage for every mip level.
    pub fn new(
        gl: &mut Gl,
        width: usize,
        height: usize,
        min_filter: Interpolation,
        mag_filter: Interpolation,
        mip_map_filter: Option<Interpolation>,
        wrap_s: Wrapping,
        wrap_t: Wrapping,
        format: Format,
    ) -> (r: Result<Texture2D, Error>)
        requires
            old(gl).wf(),
        ensures
            final(gl).wf(),
            r is Err <==> old(gl)@.next_name == u32::MAX,
            r is Err ==> r == Err::<Texture2D, Error>(Error::ResourceCreation) && final(gl)@ == old(gl)@,
            r is Ok ==> r.unwrap()@ == texture_model(old(gl)@.next_name, width, height, 1, format, mip_map_filter)
                && final(gl)@ == old(gl)@.take_name().issue_all(
                creation_commands_2d(r.unwrap()@, min_filter, mag_filter, mip_map_filter, wrap_s, wrap_t),
            ),
    {
        let ghost start = gl@;
        let id = generate(gl)?;
        let number_of_mip_maps = calculate_number_of_mip_maps(mip_map_filter, width, height, 1);
        let ghost t = texture_model(start.next_name, width, height, 1, format, mip_map_filter);
        set_parameters(
            gl,
            &id,
            consts::TEXTURE_2D,
            min_filter,
            mag_filter,
            if number_of_mip_maps == 1 {
                None
            } else {
                mip_map_filter
            },
            wrap_s,
            wrap_t,
            None,
        );
        gl.issue(
            GlCommand::TexStorage {
                target: consts::TEXTURE_2D,
                levels: number_of_mip_maps,
                format: format.gl_value(),
                width,
                height,
                depth: None,
            },
        );
        let r = Texture2D { id, width, height, format, number_of_mip_maps };
        assert(r@ == t);
        assert(gl@ =~= start.take_name().issue_all(
            creation_commands_2d(t, min_filter, mag_filter, mip_map_filter, wrap_s, wrap_t),
        ));
        Ok(r)
    }

    /// Creates a texture from an image, its format inferred from the channel count
    /// (1, 3 or 4), and uploads the image as level 0.
    pub fn new_with_u8(
        gl: &mut Gl,
        min_filter: Interpolation,
        mag_filter: Interpolation,
        mip_map_filter: Option<Interpolation>,
        wrap_s: Wrapping,
        wrap_t: Wrapping,
        image: &Image,
    ) -> (r: Result<Texture2D, Error>)
        requires
            old(gl).wf(),
        ensures
            final(gl).wf(),
            ({
                let format = format_for_channels(image_channels(image.bytes@.len(), image.width, image.height));
                let t = texture_model(
                    old(gl)@.next_name,
                    image.width as usize,
                    image.height as usize,
                    1,
                    format.unwrap(),
                    mip_map_filter,
                );
                let created = old(gl)@.take_name().issue_all(
                    creation_commands_2d(t, min_filter, mag_filter, mip_map_filter, wrap_s, wrap_t),
                );
                &&& format is None ==> r == Err::<Texture2D, Error>(Error::UnsupportedFormat)
                    && final(gl)@ == old(gl)@
                &&& format is Some && old(gl)@.next_name == u32::MAX ==> r == Err::<Texture2D, Error>(
                    Error::ResourceCreation,
                ) && final(gl)@ == old(gl)@
                &&& format is Some && old(gl)@.next_name < u32::MAX && image.bytes@.len() != expected_len(t)
                    ==> r == Err::<Texture2D, Error>(Error::SizeMismatch) && final(gl)@ == created.issue(
                    GlCommand::Delete { object: Object::Texture(t.id) },
                )
                &&& format is Some && old(gl)@.next_name < u32::MAX && image.bytes@.len() == expected_len(t)
                    ==> r is Ok && r.unwrap()@ == t && final(gl)@ == created.issue_all(
                    fill_commands_2d(t, byte_layout(t.format).unwrap(), image.bytes@),
                )
            }),
    {
        let format = match format_for(channels_of(image)) {
            Some(f) => f,
            None => return Err(Error::UnsupportedFormat),
        };
        let mut texture = Texture2D::new(
            gl,
            image.width as usize,
            image.height as usize,
            min_filter,
            mag_filter,
            mip_map_filter,
            wrap_s,
            wrap_t,
            format,
        )?;
        match texture.fill_with_u8(gl, image.bytes.as_slice()) {
            Ok(()) => Ok(texture),
            Err(e) => {
                texture.delete(gl);
                Err(e)
            },
        }
    }

    /// Uploads `data` as level 0 and regenerates the mip chain. The format must be
    /// one of R8, RGB8, RGBA8, and `data` must hold `width * height * channels` bytes.
    pub fn fill_with_u8(&mut self, gl: &mut Gl, data: &[u8]) -> (r: Result<(), Error>)
        ensures
            *final(self) == *old(self),
            final(gl).wf() == old(gl).wf(),
            byte_layout(old(self)@.format) is None ==> r == Err::<(), Error>(Error::UnsupportedFormat)
                && final(gl)@ == old(gl)@,
            byte_layout(old(self)@.format) is Some && data@.len() != expected_len(old(self)@) ==> r == Err::<(), Error>(
                Error::SizeMismatch,
            ) && final(gl)@ == old(gl)@,
            byte_layout(old(self)@.format) is Some && data@.len() == expected_len(old(self)@) ==> r is Ok && final(gl)@
                == old(gl)@.issue_all(fill_commands_2d(old(self)@, byte_layout(old(self)@.format).unwrap(), data@)),
    {
        let layout = match self.format {
            Format::R8 => consts::RED,
            Format::RGB8 => consts::RGB,
            Format::RGBA8 => consts::RGBA,
            _ => return Err(Error::UnsupportedFormat),
        };
        let len = data.len();
        match texel_len(self.width, self.height, self.format.channels()) {
            Some(n) => {
                if len != n {
                    return Err(Error::SizeMismatch);
                }
            },
            None => return Err(Error::SizeMismatch),
        }
        let ghost start = gl@;
        gl.issue(GlCommand::BindTexture { target: consts::TEXTURE_2D, texture: self.id });
        let bytes = vstd::slice::slice_to_vec(data);
        gl.issue(
            GlCommand::TexSubImage {
                target: consts::TEXTURE_2D,
                width: self.width,
                height: self.height,
                format: layout,
                data: bytes,
            },
        );
        self.generate_mip_maps(gl);
        assert(gl@ =~= start.issue_all(fill_commands_2d(self@, layout, data@)));
        Ok(())
    }

    /// Uploads float bit patterns as level 0 and regenerates the mip chain. The format
    /// must be one of R32F, RGB32F, RGBA32F, and `data` must hold
    /// `width * height * channels` values.
    pub fn fill_with_f32(&mut self, gl: &mut Gl, data: &[u32]) -> (r: Result<(), Error>)
        ensures
            *final(self) == *old(self),
            final(gl).wf() == old(gl).wf(),
            float_layout(old(self)@.format) is None ==> r == Err::<(), Error>(Error::UnsupportedFormat)
                && final(gl)@ == old(gl)@,
            float_layout(old(self)@.format) is Some && data@.len() != expected_len(old(self)@) ==> r == Err::<(), Error>(
                Error::SizeMismatch,
            ) && final(gl)@ == old(gl)@,
            float_layout(old(self)@.format) is Some && data@.len() == expected_len(old(self)@) ==> r is Ok && final(gl)@
                == old(gl)@.issue_all(fill_float_commands_2d(old(self)@, float_layout(old(self)@.format).unwrap(), data@)),
    {
        let layout = match self.format {
            Format::R32F => consts::RED,
            Format::RGB32F => consts::RGB,
            Format::RGBA32F => consts::RGBA,
            _ => return Err(Error::UnsupportedFormat),
        };
        let len = data.len();
        match texel_len(self.width, self.height, self.format.channels()) {
            Some(n) => {
                if len != n {
                    return Err(Error::SizeMismatch);
                }
            },
            None => return Err(Error::SizeMismatch),
        }
        let ghost start = gl@;
        gl.issue(GlCommand::BindTexture { target: consts::TEXTURE_2D, texture: self.id });
        let values = vstd::slice::slice_to_vec(data);
        gl.issue(
            GlCommand::TexSubImageFloat {
                target: consts::TEXTURE_2D,
                width: self.width,
                height: self.height,
                format: layout,
                data: values,
            },
        );
        self.generate_mip_maps(gl);
        assert(gl@ =~= start.issue_all(fill_float_commands_2d(self@, layout, data@)));
        Ok(())
    }

    /// Regenerates the mip chain from level 0; nothing for a single level.
    pub fn generate_mip_maps(&self, gl: &mut Gl)
        ensures
            final(gl).wf() == old(gl).wf(),
            final(gl)@ == old(gl)@.issue_all(mipmap_commands(consts::TEXTURE_2D, self@)),
    {
        if self.number_of_mip_maps > 1 {
            gl.issue(GlCommand::BindTexture { target: consts::TEXTURE_2D, texture: self.id });
            gl.issue(GlCommand::GenerateMipmap { target: consts::TEXTURE_2D });
        }
        assert(final(gl)@ =~= old(gl)@.issue_all(mipmap_commands(consts::TEXTURE_2D, self@)));
    }

    /// Attaches level 0 to color attachment point `channel` of the bound framebuffer.
    pub(crate) fn bind_as_color_target(&self, gl: &mut Gl, channel: usize)
        requires
            channel < consts::MAX_COLOR_ATTACHMENTS,
        ensures
            final(gl).wf() == old(gl).wf(),
            final(gl)@ == old(gl)@.issue(color_attachment_2d(self@.id, channel)),
    {
        gl.issue(
            GlCommand::FramebufferTexture {
                target: consts::FRAMEBUFFER,
                attachment: consts::COLOR_ATTACHMENT0 + channel as u32,
                texture_target: consts::TEXTURE_2D,
                texture: self.id,
                layer: None,
            },
        );
    }

    /// Attaches level 0 to the depth attachment point of the bound framebuffer.
    pub(crate) fn bind_as_depth_target(&self, gl: &mut Gl)
        ensures
            final(gl).wf() == old(gl).wf(),
            final(gl)@ == old(gl)@.issue(depth_attachment_2d(self@.id)),
    {
        gl.issue(
            GlCommand::FramebufferTexture {
                target: consts::FRAMEBUFFER,
                attachment: consts::DEPTH_ATTACHMENT,
                texture_target: consts::TEXTURE_2D,
                texture: self.id,
                layer: None,
            },
        );
    }

    /// The storage format.
    pub fn format(&self) -> (r: Format)
        ensures
            r == self@.format,
    {
        self.format
    }

    /// The number of mip levels allocated.
    pub fn mip_level_count(&self) -> (r: u32)
        ensures
            r == self@.levels,
    {
        self.number_of_mip_maps
    }

    /// The device object name.
    pub fn id(&self) -> (r: TextureId)
        ensures
            r == self@.id,
    {
        self.id
    }

    /// Releases the device texture.
    pub fn delete(self, gl: &mut Gl)
        ensures
            final(gl).wf() == old(gl).wf(),
            final(gl)@ == old(gl)@.issue(GlCommand::Delete { object: Object::Texture(self@.id) }),
    {
        gl.delete(Object::Texture(self.id));
    }
}

/// Attaching a whole 2D texture as color channel `channel`.
pub open spec fn color_attachment_2d(id: TextureId, channel: usize) -> CommandModel {
    GlCommand::FramebufferTexture {
        target: consts::FRAMEBUFFER,
        attachment: (consts::COLOR_ATTACHMENT0 + channel) as u32,
        texture_target: consts::TEXTURE_2D,
        texture: id,
        layer: None,
    }
}

/// Attaching a whole 2D texture as depth.
pub open spec fn depth_attachment_2d(id: TextureId) -> CommandModel {
    GlCommand::FramebufferTexture {
        target: consts::FRAMEBUFFER,
        attachment: consts::DEPTH_ATTACHMENT,
        texture_target: consts::TEXTURE_2D,
        texture: id,
        layer: None,
    }
}

impl Texture for Texture2D {
    open spec fn binding(&self) -> (u32, TextureId) {
        (consts::TEXTURE_2D, self@.id)
    }

    fn bind(&self, gl: &mut Gl, location: u32) {
        bind_at(gl, &self.id, consts::TEXTURE_2D, location);
    }
}


/// The commands that create and allocate a cube-map texture.
pub open spec fn creation_commands_cube(
    t: TextureModel,
    min_filter: Interpolation,
    mag_filter: Interpolation,
    mip_map_filter: Option<Interpolation>,
    wrap_s: Wrapping,
    wrap_t: Wrapping,
    wrap_r: Wrapping,
) -> Seq<CommandModel> {
    seq![GlCommand::Create { object: Object::Texture(t.id) }] + parameter_commands(
        consts::TEXTURE_CUBE_MAP,
        t.id,
        min_filter,
        mag_filter,
        effective_mip_filter(t.levels, mip_map_filter),
        wrap_s,
        wrap_t,
        Some(wrap_r),
    ) + seq![
        GlCommand::BindTexture { target: consts::TEXTURE_CUBE_MAP, texture: t.id },
        GlCommand::TexStorage {
            target: consts::TEXTURE_CUBE_MAP,
            levels: t.levels,
            format: format_value(t.format),
            width: t.width,
            height: t.height,
            depth: None,
        },
    ]
}

/// The uploads of the six faces, in the order +X, -X, +Y, -Y, +Z, -Z.
pub open spec fn face_commands(t: TextureModel, layout: u32, faces: Seq<Seq<u8>>) -> Seq<CommandModel> {
    Seq::new(
        6,
        |i: int|
            GlCommand::TexSubImage {
                target: (consts::TEXTURE_CUBE_MAP_POSITIVE_X + i) as u32,
                width: t.width,
                height: t.height,
                format: layout,
                data: faces[i],
            },
    )
}

/// The commands that upload level 0 of all six faces of a cube map.
pub open spec fn fill_commands_cube(t: TextureModel, layout: u32, faces: Seq<Seq<u8>>) -> Seq<CommandModel> {
    seq![GlCommand::BindTexture { target: consts::TEXTURE_CUBE_MAP, texture: t.id }] + face_commands(
        t,
        layout,
        faces,
    ) + mipmap_commands(consts::TEXTURE_CUBE_MAP, t)
}

/// The byte contents of six face slices.
pub open spec fn face_bytes(data: [&[u8]; 6]) -> Seq<Seq<u8>> {
    Seq::new(6, |i: int| data@[i]@)
}

/// A cube-map texture: six square faces.
pub struct TextureCubeMap {
    id: TextureId,
    pub width: usize,
    pub height: usize,
    format: Format,
    number_of_mip_maps: u32,
}

impl View for TextureCubeMap {
    type V = TextureModel;

    closed spec fn view(&self) -> TextureModel {
        TextureModel {
            id: self.id,
            width: self.width,
            height: self.height,
            depth: 1,
            format: self.format,
            levels: self.number_of_mip_maps,
        }
    }
}

impl TextureCubeMap {
    /// Creates a cube map with faces of `width` by `height` texels and storage for
    /// every mip level.
    pub fn new(
        gl: &mut Gl,
        width: usize,
        height: usize,
        min_filter: Interpolation,
        mag_filter: Interpolation,
        mip_map_filter: Option<Interpolation>,
        wrap_s: Wrapping,
        wrap_t: Wrapping,
        wrap_r: Wrapping,
        format: Format,
    ) -> (r: Result<TextureCubeMap, Error>)
        requires
            old(gl).wf(),
        ensures
            final(gl).wf(),
            r is Err <==> old(gl)@.next_name == u32::MAX,
            r is Err ==> r == Err::<TextureCubeMap, Error>(Error::ResourceCreation) && final(gl)@ == old(gl)@,
            r is Ok ==> r.unwrap()@ == texture_model(old(gl)@.next_name, width, height, 1, format, mip_map_filter)
                && final(gl)@ == old(gl)@.take_name().issue_all(
                creation_commands_cube(r.unwrap()@, min_filter, mag_filter, mip_map_filter, wrap_s, wrap_t, wrap_r),
            ),
    {
        let ghost start = gl@;
        let id = generate(gl)?;
        let number_of_mip_maps = calculate_number_of_mip_maps(mip_map_filter, width, height, 1);
        let ghost t = texture_model(start.next_name, width, height, 1, format, mip_map_filter);
        set_parameters(
            gl,
            &id,
            consts::TEXTURE_CUBE_MAP,
            min_filter,
            mag_filter,
            if number_of_mip_maps == 1 {
                None
            } else {
                mip_map_filter
            },
            wrap_s,
            wrap_t,
            Some(wrap_r),
        );
        gl.issue(GlCommand::BindTexture { target: consts::TEXTURE_CUBE_MAP, texture: id });
        gl.issue(
            GlCommand::TexStorage {
                target: consts::TEXTURE_CUBE_MAP,
                levels: number_of_mip_maps,
                format: format.gl_value(),
                width,
                height,
                depth: None,
            },
        );
        let r = TextureCubeMap { id, width, height, format, number_of_mip_maps };
        assert(r@ == t);
        assert(gl@ =~= start.take_name().issue_all(
            creation_commands_cube(t, min_filter, mag_filter, mip_map_filter, wrap_s, wrap_t, wrap_r),
        ));
        Ok(r)
    }

    /// Creates a cube map from six equal-sized face images (+X, -X, +Y, -Y, +Z, -Z),
    /// its format inferred from the channel count of the first, and uploads them.
    pub fn new_with_u8(
        gl: &mut Gl,
        min_filter: Interpolation,
        mag_filter: Interpolation,
        mip_map_filter: Option<Interpolation>,
        wrap_s: Wrapping,
        wrap_t: Wrapping,
        wrap_r: Wrapping,
        right: &Image,
        left: &Image,
        top: &Image,
        bottom: &Image,
        front: &Image,
        back: &Image,
    ) -> (r: Result<TextureCubeMap, Error>)
        requires
            old(gl).wf(),
            left.bytes@.len() == right.bytes@.len(),
            top.bytes@.len() == right.bytes@.len(),
            bottom.bytes@.len() == right.bytes@.len(),
            front.bytes@.len() == right.bytes@.len(),
            back.bytes@.len() == right.bytes@.len(),
        ensures
            final(gl).wf(),
            ({
                let format = format_for_channels(image_channels(right.bytes@.len(), right.width, right.height));
                let t = texture_model(
                    old(gl)@.next_name,
                    right.width as usize,
                    right.height as usize,
                    1,
                    format.unwrap(),
                    mip_map_filter,
                );
                let created = old(gl)@.take_name().issue_all(
                    creation_commands_cube(t, min_filter, mag_filter, mip_map_filter, wrap_s, wrap_t, wrap_r),
                );
                let faces = seq![
                    right.bytes@,
                    left.bytes@,
                    top.bytes@,
                    bottom.bytes@,
                    front.bytes@,
                    back.bytes@,
                ];
                &&& format is None ==> r == Err::<TextureCubeMap, Error>(Error::UnsupportedFormat)
                    && final(gl)@ == old(gl)@
                &&& format is Some && old(gl)@.next_name == u32::MAX ==> r == Err::<TextureCubeMap, Error>(
                    Error::ResourceCreation,
                ) && final(gl)@ == old(gl)@
                &&& format is Some && old(gl)@.next_name < u32::MAX && right.bytes@.len() != expected_len(t)
                    ==> r == Err::<TextureCubeMap, Error>(Error::SizeMismatch) && final(gl)@ == created.issue(
                    GlCommand::Delete { object: Object::Texture(t.id) },
                )
                &&& format is Some && old(gl)@.next_name < u32::MAX && right.bytes@.len() == expected_len(t)
                    ==> r is Ok && r.unwrap()@ == t && final(gl)@ == created.issue_all(
                    fill_commands_cube(t, byte_layout(t.format).unwrap(), faces),
                )
            }),
    {
        let format = match format_for(channels_of(right)) {
            Some(f) => f,
            None => return Err(Error::UnsupportedFormat),
        };
        let mut texture = TextureCubeMap::new(
            gl,
            right.width as usize,
            right.height as usize,
            min_filter,
            mag_filter,
            mip_map_filter,
            wrap_s,
            wrap_t,
            wrap_r,
            format,
        )?;
        let faces: [&[u8]; 6] = [
            right.bytes.as_slice(),
            left.bytes.as_slice(),
            top.bytes.as_slice(),
            bottom.bytes.as_slice(),
            front.bytes.as_slice(),
            back.bytes.as_slice(),
        ];
        assert(face_bytes(faces) =~= seq![
            right.bytes@,
            left.bytes@,
            top.bytes@,
            bottom.bytes@,
            front.bytes@,
            back.bytes@,
        ]);
        match texture.fill_with_u8(gl, faces) {
            Ok(()) => Ok(texture),
            Err(e) => {
                texture.delete(gl);
                Err(e)
            },
        }
    }

    /// Uploads six equal-sized faces (+X, -X, +Y, -Y, +Z, -Z) as level 0 and regenerates
    /// the mip chain. The format must be one of R8, RGB8, RGBA8; the first face stands
    /// for all six in the size check.
    pub fn fill_with_u8(&mut self, gl: &mut Gl, data: [&[u8]; 6]) -> (r: Result<(), Error>)
        requires
            forall|i: int| 0 <= i < 6 ==> (#[trigger] data@[i])@.len() == data@[0]@.len(),
        ensures
            *final(self) == *old(self),
            final(gl).wf() == old(gl).wf(),
            byte_layout(old(self)@.format) is None ==> r == Err::<(), Error>(Error::UnsupportedFormat)
                && final(gl)@ == old(gl)@,
            byte_layout(old(self)@.format) is Some && data@[0]@.len() != expected_len(old(self)@) ==> r == Err::<
                (),
                Error,
            >(Error::SizeMismatch) && final(gl)@ == old(gl)@,
            byte_layout(old(self)@.format) is Some && data@[0]@.len() == expected_len(old(self)@) ==> r is Ok
                && final(gl)@ == old(gl)@.issue_all(
                fill_commands_cube(old(self)@, byte_layout(old(self)@.format).unwrap(), face_bytes(data)),
            ),
    {
        let layout = match self.format {
            Format::R8 => consts::RED,
            Format::RGB8 => consts::RGB,
            Format::RGBA8 => consts::RGBA,
            _ => return Err(Error::UnsupportedFormat),
        };
        let len = data[0].len();
        match texel_len(self.width, self.height, self.format.channels()) {
            Some(n) => {
                if len != n {
                    return Err(Error::SizeMismatch);
                }
            },
            None => return Err(Error::SizeMismatch),
        }
        let ghost start = gl@;
        let ghost faces = face_commands(self@, layout, face_bytes(data));
        gl.issue(GlCommand::BindTexture { target: consts::TEXTURE_CUBE_MAP, texture: self.id });
        let mut i: usize = 0;
        while i < 6
            invariant
                0 <= i <= 6,
                gl.wf() == old(gl).wf(),
                faces == face_commands(self@, layout, face_bytes(data)),
                gl@ == start.issue_all(
                    seq![GlCommand::BindTexture { target: consts::TEXTURE_CUBE_MAP, texture: self@.id }]
                        + faces.take(i as int),
                ),
            decreases 6 - i,
        {
            let bytes = vstd::slice::slice_to_vec(data[i]);
            gl.issue(
                GlCommand::TexSubImage {
                    target: consts::TEXTURE_CUBE_MAP_POSITIVE_X + i as u32,
                    width: self.width,
                    height: self.height,
                    format: layout,
                    data: bytes,
                },
            );
            assert(faces.take(i + 1) =~= faces.take(i as int).push(faces[i as int]));
            i = i + 1;
            assert(gl@ =~= start.issue_all(
                seq![GlCommand::BindTexture { target: consts::TEXTURE_CUBE_MAP, texture: self@.id }]
                    + faces.take(i as int),
            ));
        }
        assert(faces.take(6) =~= faces);
        self.generate_mip_maps(gl);
        assert(gl@ =~= start.issue_all(fill_commands_cube(self@, layout, face_bytes(data))));
        Ok(())
    }

    /// Regenerates the mip chain from level 0; nothing for a single level.
    pub fn generate_mip_maps(&self, gl: &mut Gl)
        ensures
            final(gl).wf() == old(gl).wf(),
            final(gl)@ == old(gl)@.issue_all(mipmap_commands(consts::TEXTURE_CUBE_MAP, self@)),
    {
        if self.number_of_mip_maps > 1 {
            gl.issue(GlCommand::BindTexture { target: consts::TEXTURE_CUBE_MAP, texture: self.id });
            gl.issue(GlCommand::GenerateMipmap { target: consts::TEXTURE_CUBE_MAP });
        }
        assert(final(gl)@ =~= old(gl)@.issue_all(mipmap_commands(consts::TEXTURE_CUBE_MAP, self@)));
    }

    /// The storage format.
    pub fn format(&self) -> (r: Format)
        ensures
            r == self@.format,
    {
        self.format
    }

    /// The number of mip levels allocated.
    pub fn mip_level_count(&self) -> (r: u32)
        ensures
            r == self@.levels,
    {
        self.number_of_mip_maps
    }

    /// The device object name.
    pub fn id(&self) -> (r: TextureId)
        ensures
            r == self@.id,
    {
        self.id
    }

    /// Releases the device texture.
    pub fn delete(self, gl: &mut Gl)
        ensures
            final(gl).wf() == old(gl).wf(),
            final(gl)@ == old(gl)@.issue(GlCommand::Delete { object: Object::Texture(self@.id) }),
    {
        gl.delete(Object::Texture(self.id));
    }
}

impl Texture for TextureCubeMap {
    open spec fn binding(&self) -> (u32, TextureId) {
        (consts::TEXTURE_CUBE_MAP, self@.id)
    }

    fn bind(&self, gl: &mut Gl, location: u32) {
        bind_at(gl, &self.id, consts::TEXTURE_CUBE_MAP, location);
    }
}

/// The commands that create and allocate a 2D-array texture.
pub open spec fn creation_commands_array(
    t: TextureModel,
    min_filter: Interpolation,
    mag_filter: Interpolation,
    mip_map_filter: Option<Interpolation>,
    wrap_s: Wrapping,
    wrap_t: Wrapping,
) -> Seq<CommandModel> {
    seq![GlCommand::Create { object: Object::Texture(t.id) }] + parameter_commands(
        consts::TEXTURE_2D_ARRAY,
        t.id,
        min_filter,
        mag_filter,
        effective_mip_filter(t.levels, mip_map_filter),
        wrap_s,
        wrap_t,
        None,
    ) + seq![
        GlCommand::BindTexture { target: consts::TEXTURE_2D_ARRAY, texture: t.id },
        GlCommand::TexStorage {
            target: consts::TEXTURE_2D_ARRAY,
            levels: t.levels,
            format: format_value(t.format),
            width: t.width,
            height: t.height,
            depth: Some(t.depth),
        },
    ]
}

/// Attaching layer `layer` of an array texture as color channel `channel`.
pub open spec fn color_attachment_layer(id: TextureId, layer: usize, channel: usize) -> CommandModel {
    GlCommand::FramebufferTexture {
        target: consts::DRAW_FRAMEBUFFER,
        attachment: (consts::COLOR_ATTACHMENT0 + channel) as u32,
        texture_target: consts::TEXTURE_2D_ARRAY,
        texture: id,
        layer: Some(layer),
    }
}

/// Attaching layer `layer` of an array texture as depth.
pub open spec fn depth_attachment_layer(id: TextureId, layer: usize) -> CommandModel {
    GlCommand::FramebufferTexture {
        target: consts::DRAW_FRAMEBUFFER,
        attachment: consts::DEPTH_ATTACHMENT,
        texture_target: consts::TEXTURE_2D_ARRAY,
        texture: id,
        layer: Some(layer),
    }
}

/// An array of `depth` two-dimensional layers; one layer at a time is a render target.
pub struct Texture2DArray {
    id: TextureId,
    pub width: usize,
    pub height: usize,
    pub depth: usize,
    format: Format,
    number_of_mip_maps: u32,
}

impl View for Texture2DArray {
    type V = TextureModel;

    closed spec fn view(&self) -> TextureModel {
        TextureModel {
            id: self.id,
            width: self.width,
            height: self.height,
            depth: self.depth,
            format: self.format,
            levels: self.number_of_mip_maps,
        }
    }
}

impl Texture2DArray {
    /// Creates an array of `depth` layers of `width` by `height` texels with storage
    /// for every mip level.
    pub fn new(
        gl: &mut Gl,
        width: usize,
        height: usize,
        depth: usize,
        min_filter: Interpolation,
        mag_filter: Interpolation,
        mip_map_filter: Option<Interpolation>,
        wrap_s: Wrapping,
        wrap_t: Wrapping,
        format: Format,
    ) -> (r: Result<Texture2DArray, Error>)
        requires
            old(gl).wf(),
        ensures
            final(gl).wf(),
            r is Err <==> old(gl)@.next_name == u32::MAX,
            r is Err ==> r == Err::<Texture2DArray, Error>(Error::ResourceCreation) && final(gl)@ == old(gl)@,
            r is Ok ==> r.unwrap()@ == texture_model(old(gl)@.next_name, width, height, depth, format, mip_map_filter)
                && final(gl)@ == old(gl)@.take_name().issue_all(
                creation_commands_array(r.unwrap()@, min_filter, mag_filter, mip_map_filter, wrap_s, wrap_t),
            ),
    {
        let ghost start = gl@;
        let id = generate(gl)?;
        let number_of_mip_maps = calculate_number_of_mip_maps(mip_map_filter, width, height, depth);
        let ghost t = texture_model(start.next_name, width, height, depth, format, mip_map_filter);
        set_parameters(
            gl,
            &id,
            consts::TEXTURE_2D_ARRAY,
            min_filter,
            mag_filter,
            if number_of_mip_maps == 1 {
                None
            } else {
                mip_map_filter
            },
            wrap_s,
            wrap_t,
            None,
        );
        gl.issue(GlCommand::BindTexture { target: consts::TEXTURE_2D_ARRAY, texture: id });
        gl.issue(
            GlCommand::TexStorage {
                target: consts::TEXTURE_2D_ARRAY,
                levels: number_of_mip_maps,
                format: format.gl_value(),
                width,
                height,
                depth: Some(depth),
            },
        );
        let r = Texture2DArray { id, width, height, depth, format, number_of_mip_maps };
        assert(r@ == t);
        assert(gl@ =~= start.take_name().issue_all(
            creation_commands_array(t, min_filter, mag_filter, mip_map_filter, wrap_s, wrap_t),
        ));
        Ok(r)
    }

    /// Regenerates the mip chain from level 0; nothing for a single level.
    pub fn generate_mip_maps(&self, gl: &mut Gl)
        ensures
            final(gl).wf() == old(gl).wf(),
            final(gl)@ == old(gl)@.issue_all(mipmap_commands(consts::TEXTURE_2D_ARRAY, self@)),
    {
        if self.number_of_mip_maps > 1 {
            gl.issue(GlCommand::BindTexture { target: consts::TEXTURE_2D_ARRAY, texture: self.id });
            gl.issue(GlCommand::GenerateMipmap { target: consts::TEXTURE_2D_ARRAY });
        }
        assert(final(gl)@ =~= old(gl)@.issue_all(mipmap_commands(consts::TEXTURE_2D_ARRAY, self@)));
    }

    /// Attaches layer `layer` of level 0 to color attachment point `channel` of the
    /// bound framebuffer.
    pub(crate) fn bind_as_color_target(&self, gl: &mut Gl, layer: usize, channel: usize)
        requires
            channel < consts::MAX_COLOR_ATTACHMENTS,
        ensures
            final(gl).wf() == old(gl).wf(),
            final(gl)@ == old(gl)@.issue(color_attachment_layer(self@.id, layer, channel)),
    {
        gl.issue(
            GlCommand::FramebufferTexture {
                target: consts::DRAW_FRAMEBUFFER,
                attachment: consts::COLOR_ATTACHMENT0 + channel as u32,
                texture_target: consts::TEXTURE_2D_ARRAY,
                texture: self.id,
                layer: Some(layer),
            },
        );
    }

    /// Attaches layer `layer` of level 0 to the depth attachment point of the bound
    /// framebuffer.
    pub(crate) fn bind_as_depth_target(&self, gl: &mut Gl, layer: usize)
        ensures
            final(gl).wf() == old(gl).wf(),
            final(gl)@ == old(gl)@.issue(depth_attachment_layer(self@.id, layer)),
    {
        gl.issue(
            GlCommand::FramebufferTexture {
                target: consts::DRAW_FRAMEBUFFER,
                attachment: consts::DEPTH_ATTACHMENT,
                texture_target: consts::TEXTURE_2D_ARRAY,
                texture: self.id,
                layer: Some(layer),
            },
        );
    }

    /// The storage format.
    pub fn format(&self) -> (r: Format)
        ensures
            r == self@.format,
    {
        self.format
    }

    /// The number of layers.
    pub fn layer_count(&self) -> (r: usize)
        ensures
            r == self@.depth,
    {
        self.depth
    }

    /// The number of mip levels allocated.
    pub fn mip_level_count(&self) -> (r: u32)
        ensures
            r == self@.levels,
    {
        self.number_of_mip_maps
    }

    /// The device object name.
    pub fn id(&self) -> (r: TextureId)
        ensures
            r == self@.id,
    {
        self.id
    }

    /// Releases the device texture.
    pub fn delete(self, gl: &mut Gl)
        ensures
            final(gl).wf() == old(gl).wf(),
            final(gl)@ == old(gl)@.issue(GlCommand::Delete { object: Object::Texture(self@.id) }),
    {
        gl.delete(Object::Texture(self.id));
    }
}

impl Texture for Texture2DArray {
    open spec fn binding(&self) -> (u32, TextureId) {
        (consts::TEXTURE_2D_ARRAY, self@.id)
    }

    fn bind(&self, gl: &mut Gl, location: u32) {
        bind_at(gl, &self.id, consts::TEXTURE_2D_ARRAY, location);
    }
}

} // verus!
