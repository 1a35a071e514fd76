//! Render targets: the screen, scoped offscreen passes into textures, and
//! readback of framebuffer pixels, synchronous or fence-guarded.
use vstd::prelude::*;
use crate::buffer::{create_command, pack_allocation_commands, pack_read_commands, PixelPackBuffer};
use crate::consts;
use crate::error::Error;
use crate::gl::{BufferId, CommandModel, FramebufferId, Gl, GlCommand, GlModel, Object, SyncId, Vec4};
use crate::texture::{
    color_attachment_2d, color_attachment_layer, depth_attachment_2d, depth_attachment_layer,
    is_depth_format, mipmap_commands, Texture2D, Texture2DArray, TextureModel,
};

verus! {

/// The commands of a clear policy: color and depth are each cleared when given.
pub open spec fn clear_commands(clear_color: Option<Vec4>, clear_depth: Option<u32>) -> Seq<CommandModel> {
    match (clear_color, clear_depth) {
        (Some(c), Some(d)) => seq![
            GlCommand::ClearColor { color: c },
            GlCommand::DepthMask { enabled: true },
            GlCommand::ClearDepth { depth: d },
            GlCommand::Clear { mask: consts::COLOR_BUFFER_BIT | consts::DEPTH_BUFFER_BIT },
        ],
        (Some(c), None) => seq![
            GlCommand::ClearColor { color: c },
            GlCommand::Clear { mask: consts::COLOR_BUFFER_BIT },
        ],
        (None, Some(d)) => seq![
            GlCommand::ClearDepth { depth: d },
            GlCommand::DepthMask { enabled: true },
            GlCommand::Clear { mask: consts::DEPTH_BUFFER_BIT },
        ],
        (None, None) => Seq::<CommandModel>::empty(),
    }
}

/// Clears the bound framebuffer per the policy; with neither value nothing is issued.
fn clear(gl: &mut Gl, clear_color: Option<Vec4>, clear_depth: Option<u32>)
    ensures
        final(gl).wf() == old(gl).wf(),
        final(gl)@ == old(gl)@.issue_all(clear_commands(clear_color, clear_depth)),
{
    if let Some(color) = clear_color {
        if let Some(depth) = clear_depth {
            gl.issue(GlCommand::ClearColor { color });
            gl.issue(GlCommand::DepthMask { enabled: true });
            gl.issue(GlCommand::ClearDepth { depth });
            gl.issue(GlCommand::Clear { mask: consts::COLOR_BUFFER_BIT | consts::DEPTH_BUFFER_BIT });
        } else {
            gl.issue(GlCommand::ClearColor { color });
            gl.issue(GlCommand::Clear { mask: consts::COLOR_BUFFER_BIT });
        }
    } else if let Some(depth) = clear_depth {
        gl.issue(GlCommand::ClearDepth { depth });
        gl.issue(GlCommand::DepthMask { enabled: true });
        gl.issue(GlCommand::Clear { mask: consts::DEPTH_BUFFER_BIT });
    }
    assert(final(gl)@ =~= old(gl)@.issue_all(clear_commands(clear_color, clear_depth)));
}

/// The color attachment points `0..n` as a draw-buffer list.
pub open spec fn draw_buffer_list(n: nat) -> Seq<u32> {
    Seq::new(n, |i: int| (consts::COLOR_ATTACHMENT0 + i) as u32)
}

/// The device after a transient framebuffer with `n` color channels is created
/// and bound for drawing.
pub open spec fn opened(m: GlModel, n: nat) -> GlModel {
    let fb = FramebufferId { name: m.next_name };
    GlModel {
        next_name: (m.next_name + 1) as u32,
        live_framebuffers: (m.live_framebuffers + 1) as u32,
        draw_framebuffer: Some(fb),
        ..m
    }.issue_all(
        seq![
            GlCommand::Create { object: Object::Framebuffer(fb) },
            GlCommand::BindFramebuffer { target: consts::DRAW_FRAMEBUFFER, framebuffer: Some(fb) },
        ] + if n > 0 {
            seq![GlCommand::DrawBuffers { attachments: draw_buffer_list(n) }]
        } else {
            Seq::<CommandModel>::empty()
        },
    )
}

/// The device after framebuffer `fb` is deleted.
pub open spec fn closed(m: GlModel, fb: FramebufferId) -> GlModel {
    GlModel {
        live_framebuffers: (m.live_framebuffers - 1) as u32,
        draw_framebuffer: if m.draw_framebuffer == Some(fb) {
            None
        } else {
            m.draw_framebuffer
        },
        ..m
    }.issue(GlCommand::Delete { object: Object::Framebuffer(fb) })
}

/// Creates a framebuffer, binds it for drawing and declares `no_color_channels`
/// draw buffers.
fn new_framebuffer(gl: &mut Gl, no_color_channels: usize) -> (r: Result<FramebufferId, Error>)
    requires
        old(gl).wf(),
        no_color_channels <= consts::MAX_COLOR_ATTACHMENTS,
    ensures
        final(gl).wf(),
        old(gl)@.next_name == u32::MAX ==> r == Err::<FramebufferId, Error>(Error::ResourceCreation)
            && final(gl)@ == old(gl)@,
        old(gl)@.next_name < u32::MAX ==> r == Ok::<FramebufferId, Error>(
            FramebufferId { name: old(gl)@.next_name },
        ) && final(gl)@ == opened(old(gl)@, no_color_channels as nat),
{
    let id = match gl.create_framebuffer() {
        Some(id) => id,
        None => return Err(Error::ResourceCreation),
    };
    let ghost created = gl@;
    gl.bind_framebuffer(consts::DRAW_FRAMEBUFFER, Some(id));
    if no_color_channels > 0 {
        let mut draw_buffers: Vec<u32> = Vec::new();
        let mut i: usize = 0;
        while i < no_color_channels
            invariant
                0 <= i <= no_color_channels <= consts::MAX_COLOR_ATTACHMENTS,
                draw_buffers@ == draw_buffer_list(i as nat),
            decreases no_color_channels - i,
        {
            draw_buffers.push(consts::COLOR_ATTACHMENT0 + i as u32);
            i = i + 1;
            assert(draw_buffers@ =~= draw_buffer_list(i as nat));
        }
        gl.issue(GlCommand::DrawBuffers { attachments: draw_buffers });
    }
    assert(gl@ =~= opened(old(gl)@, no_color_channels as nat));
    Ok(id)
}

/// The model of an optional 2D texture.
pub open spec fn model_2d(t: Option<&Texture2D>) -> Option<TextureModel> {
    match t {
        Some(t) => Some(t@),
        None => None,
    }
}

/// Whether a color and a depth attachment form a complete framebuffer: at least one
/// image, color at the color point and depth at the depth point.
pub open spec fn complete_2d(color: Option<TextureModel>, depth: Option<TextureModel>) -> bool {
    &&& color is Some || depth is Some
    &&& color is Some ==> !is_depth_format(color.unwrap().format)
    &&& depth is Some ==> is_depth_format(depth.unwrap().format)
}

/// The attachment commands of a 2D pass.
pub open spec fn attach_commands_2d(color: Option<TextureModel>, depth: Option<TextureModel>) -> Seq<CommandModel> {
    (if color is Some {
        seq![color_attachment_2d(color.unwrap().id, 0)]
    } else {
        Seq::<CommandModel>::empty()
    }) + (if depth is Some {
        seq![depth_attachment_2d(depth.unwrap().id)]
    } else {
        Seq::<CommandModel>::empty()
    })
}

/// The mip regeneration of every texture attached to a pass, color first.
pub open spec fn regenerate_commands(target: u32, color: Option<TextureModel>, depth: Option<TextureModel>) -> Seq<
    CommandModel,
> {
    (if color is Some {
        mipmap_commands(target, color.unwrap())
    } else {
        Seq::<CommandModel>::empty()
    }) + (if depth is Some {
        mipmap_commands(target, depth.unwrap())
    } else {
        Seq::<CommandModel>::empty()
    })
}

/// What a scoped pass does to the device, given the state once attachments are
/// bound (`attached`) and whether they form a complete framebuffer: on an incomplete
/// one under validation the framebuffer is deleted and the pass fails; otherwise it
/// clears, runs the callback, deletes the framebuffer and regenerates mip chains.
pub open spec fn scope_outcome(
    before: GlModel,
    attached: GlModel,
    complete: bool,
    clear_color: Option<Vec4>,
    clear_depth: Option<u32>,
    regenerate: Seq<CommandModel>,
    after: GlModel,
    r: Result<(), Error>,
) -> bool {
    let fb = FramebufferId { name: before.next_name };
    if before.validate && !complete {
        r == Err::<(), Error>(Error::IncompleteFramebuffer) && after == closed(attached, fb)
    } else {
        r == Ok::<(), Error>(()) && exists|drawn: GlModel|
            #[trigger] attached.issue_all(clear_commands(clear_color, clear_depth)).draws_only(drawn) && after
                == closed(drawn, fb).issue_all(regenerate)
    }
}

/// What `RenderTarget::write` does to the device.
pub open spec fn write_outcome(
    before: GlModel,
    after: GlModel,
    r: Result<(), Error>,
    x: i32,
    y: i32,
    width: usize,
    height: usize,
    clear_color: Option<Vec4>,
    clear_depth: Option<u32>,
    color: Option<TextureModel>,
    depth: Option<TextureModel>,
) -> bool {
    let v = before.issue(GlCommand::Viewport { x, y, width, height });
    let n: nat = if color is Some {
        1
    } else {
        0
    };
    if before.next_name == u32::MAX {
        r == Err::<(), Error>(Error::ResourceCreation) && after == v
    } else {
        scope_outcome(
            before,
            opened(v, n).issue_all(attach_commands_2d(color, depth)),
            complete_2d(color, depth),
            clear_color,
            clear_depth,
            regenerate_commands(crate::consts::TEXTURE_2D, color, depth),
            after,
            r,
        )
    }
}

/// The scoped pass (shared by both forms) once attachments are bound: validate,
/// clear, render, tear down, regenerate.
fn run_scope<F: FnOnce(&mut Gl)>(
    gl: &mut Gl,
    id: FramebufferId,
    complete: bool,
    clear_color: Option<Vec4>,
    clear_depth: Option<u32>,
    render: F,
    Ghost(before): Ghost<GlModel>,
) -> (r: Result<(), Error>)
    requires
        old(gl).wf(),
        forall|g: &mut Gl| render.requires((g,)),
        forall|g: &mut Gl| #[trigger] render.ensures((g,), ()) ==> (*g)@.draws_only((*final(g))@),
        id == (FramebufferId { name: before.next_name }),
        old(gl)@.validate == before.validate,
        old(gl)@.live_framebuffers > 0,
    ensures
        final(gl).wf(),
        r is Err ==> final(gl)@ == closed(old(gl)@, id),
        before.validate && !complete <==> r is Err,
        r is Err ==> r == Err::<(), Error>(Error::IncompleteFramebuffer),
        r is Ok ==> exists|drawn: GlModel|
            #[trigger] old(gl)@.issue_all(clear_commands(clear_color, clear_depth)).draws_only(drawn)
                && final(gl)@ == closed(drawn, id),
{
    if gl.validation() && !complete {
        gl.delete_framebuffer(id);
        return Err(Error::IncompleteFramebuffer);
    }
    clear(gl, clear_color, clear_depth);
    let ghost cleared = gl@;
    render(gl);
    let ghost drawn = gl@;
    assert(cleared.draws_only(drawn));
    gl.delete_framebuffer(id);
    Ok(())
}

/// The model of an optional array texture.
pub open spec fn model_array(t: Option<&Texture2DArray>) -> Option<TextureModel> {
    match t {
        Some(t) => Some(t@),
        None => None,
    }
}

/// Whether the attachments of an array pass form a complete framebuffer: at least one
/// image, every declared draw buffer backed by an image, color at the color points
/// and depth at the depth point, and every layer within its texture.
pub open spec fn complete_array(
    color: Option<TextureModel>,
    n: nat,
    layers: Seq<usize>,
    depth: Option<TextureModel>,
    depth_layer: usize,
) -> bool {
    &&& (color is Some && n > 0) || depth is Some
    &&& n > 0 ==> color is Some
    &&& color is Some ==> !is_depth_format(color.unwrap().format) && forall|c: int|
        0 <= c < n ==> #[trigger] layers[c] < color.unwrap().depth
    &&& depth is Some ==> is_depth_format(depth.unwrap().format) && depth_layer < depth.unwrap().depth
}

/// The attachment commands of an array pass: channel `c` gets layer `layers[c]`.
pub open spec fn attach_commands_array(
    color: Option<TextureModel>,
    n: nat,
    layers: Seq<usize>,
    depth: Option<TextureModel>,
    depth_layer: usize,
) -> Seq<CommandModel> {
    (if color is Some {
        Seq::new(n, |c: int| color_attachment_layer(color.unwrap().id, layers[c], c as usize))
    } else {
        Seq::<CommandModel>::empty()
    }) + (if depth is Some {
        seq![depth_attachment_layer(depth.unwrap().id, depth_layer)]
    } else {
        Seq::<CommandModel>::empty()
    })
}

/// Layer `layers[c]` is what `layer_of` gave for channel `c`.
pub open spec fn layers_from<L: Fn(usize) -> usize>(layer_of: L, layers: Seq<usize>) -> bool {
    forall|c: int| 0 <= c < layers.len() ==> layer_of.ensures((c as usize,), #[trigger] layers[c])
}

/// What `RenderTarget::write_array` does to the device, where `layers` are the
/// layers that the channel-to-layer function gave.
pub open spec fn write_array_outcome(
    before: GlModel,
    after: GlModel,
    r: Result<(), Error>,
    x: i32,
    y: i32,
    width: usize,
    height: usize,
    clear_color: Option<Vec4>,
    clear_depth: Option<u32>,
    color: Option<TextureModel>,
    depth: Option<TextureModel>,
    n: nat,
    layers: Seq<usize>,
    depth_layer: usize,
) -> bool {
    let v = before.issue(GlCommand::Viewport { x, y, width, height });
    if before.next_name == u32::MAX {
        r == Err::<(), Error>(Error::ResourceCreation) && after == v
    } else {
        &&& layers.len() == (if color is Some {
            n
        } else {
            0
        })
        &&& scope_outcome(
            before,
            opened(v, n).issue_all(attach_commands_array(color, n, layers, depth, depth_layer)),
            complete_array(color, n, layers, depth, depth_layer),
            clear_color,
            clear_depth,
            regenerate_commands(crate::consts::TEXTURE_2D_ARRAY, color, depth),
            after,
            r,
        )
    }
}

proof fn lemma_array_outcome(
    before: GlModel,
    after: GlModel,
    r: Result<(), Error>,
    x: i32,
    y: i32,
    width: usize,
    height: usize,
    clear_color: Option<Vec4>,
    clear_depth: Option<u32>,
    color: Option<TextureModel>,
    depth: Option<TextureModel>,
    n: nat,
    layers: Seq<usize>,
    depth_layer: usize,
    attached: GlModel,
)
    requires
        before.next_name != u32::MAX,
        layers.len() == (if color is Some {
            n
        } else {
            0
        }),
        attached == opened(before.issue(GlCommand::Viewport { x, y, width, height }), n).issue_all(
            attach_commands_array(color, n, layers, depth, depth_layer),
        ),
        scope_outcome(
            before,
            attached,
            complete_array(color, n, layers, depth, depth_layer),
            clear_color,
            clear_depth,
            regenerate_commands(crate::consts::TEXTURE_2D_ARRAY, color, depth),
            after,
            r,
        ),
    ensures
        write_array_outcome(
            before,
            after,
            r,
            x,
            y,
            width,
            height,
            clear_color,
            clear_depth,
            color,
            depth,
            n,
            layers,
            depth_layer,
        ),
{
}

/// Scoped offscreen passes: a transient framebuffer with texture attachments that
/// lives for exactly one render callback.
pub struct RenderTarget {}

impl RenderTarget {
    /// Renders into `color_texture` (if any), without a depth attachment.
    pub fn write_to_color<F: FnOnce(&mut Gl)>(
        gl: &mut Gl,
        x: i32,
        y: i32,
        width: usize,
        height: usize,
        clear_color: Option<Vec4>,
        color_texture: Option<&Texture2D>,
        render: F,
    ) -> (r: Result<(), Error>)
        requires
            old(gl).wf(),
            forall|g: &mut Gl| render.requires((g,)),
            forall|g: &mut Gl| #[trigger] render.ensures((g,), ()) ==> (*g)@.draws_only((*final(g))@),
        ensures
            final(gl).wf(),
            write_outcome(old(gl)@, final(gl)@, r, x, y, width, height, clear_color, None, model_2d(color_texture), None),
            final(gl)@.live_framebuffers == old(gl)@.live_framebuffers,
            r != Err::<(), Error>(Error::ResourceCreation) ==> final(gl)@.draw_framebuffer is None,
    {
        Self::write(gl, x, y, width, height, clear_color, None, color_texture, None, render)
    }

    /// Renders into `depth_texture` (if any), without a color attachment.
    pub fn write_to_depth<F: FnOnce(&mut Gl)>(
        gl: &mut Gl,
        x: i32,
        y: i32,
        width: usize,
        height: usize,
        clear_depth: Option<u32>,
        depth_texture: Option<&Texture2D>,
        render: F,
    ) -> (r: Result<(), Error>)
        requires
            old(gl).wf(),
            forall|g: &mut Gl| render.requires((g,)),
            forall|g: &mut Gl| #[trigger] render.ensures((g,), ()) ==> (*g)@.draws_only((*final(g))@),
        ensures
            final(gl).wf(),
            write_outcome(old(gl)@, final(gl)@, r, x, y, width, height, None, clear_depth, None, model_2d(depth_texture)),
            final(gl)@.live_framebuffers == old(gl)@.live_framebuffers,
            r != Err::<(), Error>(Error::ResourceCreation) ==> final(gl)@.draw_framebuffer is None,
    {
        Self::write(gl, x, y, width, height, None, clear_depth, None, depth_texture, render)
    }

    /// Runs `render` with `color_texture` as color channel 0 and `depth_texture` as
    /// depth: viewport, framebuffer, attachments, completeness check, clear, callback,
    /// teardown, then mip regeneration of the attached textures.
    pub fn write<F: FnOnce(&mut Gl)>(
        gl: &mut Gl,
        x: i32,
        y: i32,
        width: usize,
        height: usize,
        clear_color: Option<Vec4>,
        clear_depth: Option<u32>,
        color_texture: Option<&Texture2D>,
        depth_texture: Option<&Texture2D>,
        render: F,
    ) -> (r: Result<(), Error>)
        requires
            old(gl).wf(),
            forall|g: &mut Gl| render.requires((g,)),
            forall|g: &mut Gl| #[trigger] render.ensures((g,), ()) ==> (*g)@.draws_only((*final(g))@),
        ensures
            final(gl).wf(),
            write_outcome(
                old(gl)@,
                final(gl)@,
                r,
                x,
                y,
                width,
                height,
                clear_color,
                clear_depth,
                model_2d(color_texture),
                model_2d(depth_texture),
            ),
            final(gl)@.live_framebuffers == old(gl)@.live_framebuffers,
            r != Err::<(), Error>(Error::ResourceCreation) ==> final(gl)@.draw_framebuffer is None,
    {
        let ghost before = gl@;
        gl.issue(GlCommand::Viewport { x, y, width, height });
        let id = new_framebuffer(gl, if color_texture.is_some() { 1 } else { 0 })?;
        let ghost opened_state = gl@;
        if let Some(color_texture) = color_texture {
            color_texture.bind_as_color_target(gl, 0);
        }
        if let Some(depth_texture) = depth_texture {
            depth_texture.bind_as_depth_target(gl);
        }
        let ghost color = model_2d(color_texture);
        let ghost depth = model_2d(depth_texture);
        assert(gl@ =~= opened_state.issue_all(attach_commands_2d(color, depth)));
        let ghost attached = gl@;
        let complete = match (color_texture, depth_texture) {
            (None, None) => false,
            (Some(c), None) => !c.format().is_depth(),
            (None, Some(d)) => d.format().is_depth(),
            (Some(c), Some(d)) => !c.format().is_depth() && d.format().is_depth(),
        };
        assert(complete == complete_2d(color, depth));
        let r = run_scope(gl, id, complete, clear_color, clear_depth, render, Ghost(before));
        if r.is_err() {
            return r;
        }
        let ghost torn = gl@;
        if let Some(color_texture) = color_texture {
            color_texture.generate_mip_maps(gl);
        }
        if let Some(depth_texture) = depth_texture {
            depth_texture.generate_mip_maps(gl);
        }
        assert(gl@ =~= torn.issue_all(regenerate_commands(consts::TEXTURE_2D, color, depth)));
        proof {
            let drawn = choose|drawn: GlModel|
                #[trigger] attached.issue_all(clear_commands(clear_color, clear_depth)).draws_only(drawn)
                    && torn == closed(drawn, id);
            assert(gl@ == closed(drawn, id).issue_all(regenerate_commands(consts::TEXTURE_2D, color, depth)));
        }
        Ok(())
    }
}


impl RenderTarget {
    /// Renders into layers of `color_texture_array` (if any): color channel `c` goes to
    /// layer `color_channel_to_texture_layer(c)`; no depth attachment.
    pub fn write_to_color_array<F: FnOnce(&mut Gl), L: Fn(usize) -> usize>(
        gl: &mut Gl,
        x: i32,
        y: i32,
        width: usize,
        height: usize,
        clear_color: Option<Vec4>,
        color_texture_array: Option<&Texture2DArray>,
        color_channel_count: usize,
        color_channel_to_texture_layer: L,
        render: F,
    ) -> (r: Result<(), Error>)
        requires
            old(gl).wf(),
            color_channel_count <= consts::MAX_COLOR_ATTACHMENTS,
            forall|c: usize| color_channel_to_texture_layer.requires((c,)),
            forall|g: &mut Gl| render.requires((g,)),
            forall|g: &mut Gl| #[trigger] render.ensures((g,), ()) ==> (*g)@.draws_only((*final(g))@),
        ensures
            final(gl).wf(),
            exists|layers: Seq<usize>|
                layers_from(color_channel_to_texture_layer, layers) && #[trigger] write_array_outcome(
                    old(gl)@,
                    final(gl)@,
                    r,
                    x,
                    y,
                    width,
                    height,
                    clear_color,
                    None,
                    model_array(color_texture_array),
                    None,
                    color_channel_count as nat,
                    layers,
                    0,
                ),
            final(gl)@.live_framebuffers == old(gl)@.live_framebuffers,
            r != Err::<(), Error>(Error::ResourceCreation) ==> final(gl)@.draw_framebuffer is None,
    {
        Self::write_array(
            gl,
            x,
            y,
            width,
            height,
            clear_color,
            None,
            color_texture_array,
            None,
            color_channel_count,
            color_channel_to_texture_layer,
            0,
            render,
        )
    }

    /// Renders into layer `depth_layer` of `depth_texture_array` (if any), without color.
    pub fn write_to_depth_array<F: FnOnce(&mut Gl)>(
        gl: &mut Gl,
        x: i32,
        y: i32,
        width: usize,
        height: usize,
        clear_depth: Option<u32>,
        depth_texture_array: Option<&Texture2DArray>,
        depth_layer: usize,
        render: F,
    ) -> (r: Result<(), Error>)
        requires
            old(gl).wf(),
            forall|g: &mut Gl| render.requires((g,)),
            forall|g: &mut Gl| #[trigger] render.ensures((g,), ()) ==> (*g)@.draws_only((*final(g))@),
        ensures
            final(gl).wf(),
            exists|layers: Seq<usize>|
                #[trigger] write_array_outcome(
                    old(gl)@,
                    final(gl)@,
                    r,
                    x,
                    y,
                    width,
                    height,
                    None,
                    clear_depth,
                    None,
                    model_array(depth_texture_array),
                    0,
                    layers,
                    depth_layer,
                ),
            final(gl)@.live_framebuffers == old(gl)@.live_framebuffers,
            r != Err::<(), Error>(Error::ResourceCreation) ==> final(gl)@.draw_framebuffer is None,
    {
        let identity = |c: usize| -> (l: usize)
            ensures
                l == c,
            { c };
        Self::write_array(
            gl,
            x,
            y,
            width,
            height,
            None,
            clear_depth,
            None,
            depth_texture_array,
            0,
            identity,
            depth_layer,
            render,
        )
    }

    /// Runs `render` with color channels `0..color_channel_count` attached to layers of
    /// `color_texture_array` chosen by `color_channel_to_texture_layer`, and layer
    /// `depth_layer` of `depth_texture_array` as depth: viewport, framebuffer,
    /// attachments, completeness check, clear, callback, teardown, mip regeneration.
    pub fn write_array<F: FnOnce(&mut Gl), L: Fn(usize) -> usize>(
        gl: &mut Gl,
        x: i32,
        y: i32,
        width: usize,
        height: usize,
        clear_color: Option<Vec4>,
        clear_depth: Option<u32>,
        color_texture_array: Option<&Texture2DArray>,
        depth_texture_array: Option<&Texture2DArray>,
        color_channel_count: usize,
        color_channel_to_texture_layer: L,
        depth_layer: usize,
        render: F,
    ) -> (r: Result<(), Error>)
        requires
            old(gl).wf(),
            color_channel_count <= consts::MAX_COLOR_ATTACHMENTS,
            forall|c: usize| color_channel_to_texture_layer.requires((c,)),
            forall|g: &mut Gl| render.requires((g,)),
            forall|g: &mut Gl| #[trigger] render.ensures((g,), ()) ==> (*g)@.draws_only((*final(g))@),
        ensures
            final(gl).wf(),
            exists|layers: Seq<usize>|
                layers_from(color_channel_to_texture_layer, layers) && #[trigger] write_array_outcome(
                    old(gl)@,
                    final(gl)@,
                    r,
                    x,
                    y,
                    width,
                    height,
                    clear_color,
                    clear_depth,
                    model_array(color_texture_array),
                    model_array(depth_texture_array),
                    color_channel_count as nat,
                    layers,
                    depth_layer,
                ),
            final(gl)@.live_framebuffers == old(gl)@.live_framebuffers,
            r != Err::<(), Error>(Error::ResourceCreation) ==> final(gl)@.draw_framebuffer is None,
    {
        let ghost before = gl@;
        let ghost color = model_array(color_texture_array);
        let ghost depth = model_array(depth_texture_array);
        let ghost n = color_channel_count as nat;
        gl.issue(GlCommand::Viewport { x, y, width, height });
        let id = match new_framebuffer(gl, color_channel_count) {
            Ok(id) => id,
            Err(e) => {
                assert(write_array_outcome(before, gl@, Err(e), x, y, width, height, clear_color,
                    clear_depth, color, depth, n, Seq::empty(), depth_layer));
                assert(layers_from(color_channel_to_texture_layer, Seq::<usize>::empty()));
                return Err(e);
            },
        };
        let ghost opened_state = gl@;
        assert(before.next_name < u32::MAX);
        let mut layers: Vec<usize> = Vec::new();
        let mut layers_fit = true;
        if let Some(color_texture) = color_texture_array {
            let mut channel: usize = 0;
            while channel < color_channel_count
                invariant
                    0 <= channel <= color_channel_count <= consts::MAX_COLOR_ATTACHMENTS,
                    forall|c: usize| color_channel_to_texture_layer.requires((c,)),
                    layers@.len() == channel,
                    forall|c: int| 0 <= c < channel ==> color_channel_to_texture_layer.ensures(
                        (c as usize,),
                        #[trigger] layers@[c],
                    ),
                    layers_fit == forall|c: int| 0 <= c < channel ==> #[trigger] layers@[c] < color_texture@.depth,
                    gl.wf(),
                    gl@ == opened_state.issue_all(
                        Seq::new(channel as nat, |c: int| color_attachment_layer(color_texture@.id, layers@[c], c as usize)),
                    ),
                decreases color_channel_count - channel,
            {
                let layer = color_channel_to_texture_layer(channel);
                color_texture.bind_as_color_target(gl, layer, channel);
                let ghost prior_fit = layers_fit;
                let ghost prior = layers@;
                let ghost d = color_texture@.depth;
                if layer >= color_texture.layer_count() {
                    layers_fit = false;
                }
                layers.push(layer);
                proof {
                    assert(forall|c: int| 0 <= c < channel ==> layers@[c] == prior[c]);
                    assert(layers@[channel as int] == layer);
                    if layers_fit {
                        assert forall|c: int| 0 <= c < channel + 1 implies #[trigger] layers@[c] < d by {
                            if c < channel {
                                assert(prior[c] < d);
                            }
                        }
                    } else if prior_fit {
                        assert(!(layers@[channel as int] < d));
                    } else {
                        let c0 = choose|c: int| 0 <= c < channel && !(#[trigger] prior[c] < d);
                        assert(!(layers@[c0] < d));
                    }
                }
                channel = channel + 1;
                assert(gl@ =~= opened_state.issue_all(
                    Seq::new(channel as nat, |c: int| color_attachment_layer(color_texture@.id, layers@[c], c as usize)),
                ));
            }
        }
        let ghost colored = gl@;
        if let Some(depth_texture) = depth_texture_array {
            depth_texture.bind_as_depth_target(gl, depth_layer);
        }
        assert(gl@ =~= opened_state.issue_all(attach_commands_array(color, n, layers@, depth, depth_layer)));
        let ghost attached = gl@;
        let complete = match (color_texture_array, depth_texture_array) {
            (None, None) => false,
            (Some(c), None) => color_channel_count > 0 && !c.format().is_depth() && layers_fit,
            (None, Some(d)) => color_channel_count == 0 && d.format().is_depth() && depth_layer < d.layer_count(),
            (Some(c), Some(d)) => !c.format().is_depth() && layers_fit && d.format().is_depth()
                && depth_layer < d.layer_count(),
        };
        assert(complete == complete_array(color, n, layers@, depth, depth_layer));
        assert(layers@.len() == if color is Some { n } else { 0 });
        let r = run_scope(gl, id, complete, clear_color, clear_depth, render, Ghost(before));
        if r.is_err() {
            assert(scope_outcome(before, attached, complete_array(color, n, layers@, depth, depth_layer),
                clear_color, clear_depth, regenerate_commands(consts::TEXTURE_2D_ARRAY, color, depth), gl@, r));
            proof {
                lemma_array_outcome(before, gl@, r, x, y, width, height, clear_color, clear_depth,
                    color, depth, n, layers@, depth_layer, attached);
            }
            return r;
        }
        let ghost torn = gl@;
        if let Some(color_texture) = color_texture_array {
            color_texture.generate_mip_maps(gl);
        }
        if let Some(depth_texture) = depth_texture_array {
            depth_texture.generate_mip_maps(gl);
        }
        assert(gl@ =~= torn.issue_all(regenerate_commands(consts::TEXTURE_2D_ARRAY, color, depth)));
        proof {
            let drawn = choose|drawn: GlModel|
                #[trigger] attached.issue_all(clear_commands(clear_color, clear_depth)).draws_only(drawn)
                    && torn == closed(drawn, id);
            assert(gl@ == closed(drawn, id).issue_all(regenerate_commands(consts::TEXTURE_2D_ARRAY, color, depth)));
            assert(scope_outcome(before, attached, complete_array(color, n, layers@, depth, depth_layer),
                clear_color, clear_depth, regenerate_commands(consts::TEXTURE_2D_ARRAY, color, depth), gl@,
                Ok::<(), Error>(())));
            lemma_array_outcome(before, gl@, Ok::<(), Error>(()), x, y, width, height, clear_color, clear_depth,
                color, depth, n, layers@, depth_layer, attached);
        }
        Ok(())
    }
}


/// The device once the screen path has set the viewport, bound the default
/// framebuffer and cleared.
pub open spec fn screen_prepared(
    m: GlModel,
    x: i32,
    y: i32,
    width: usize,
    height: usize,
    clear_color: Option<Vec4>,
    clear_depth: Option<u32>,
) -> GlModel {
    (GlModel { draw_framebuffer: None, ..m }).issue_all(
        seq![
            GlCommand::Viewport { x, y, width, height },
            GlCommand::BindFramebuffer { target: consts::DRAW_FRAMEBUFFER, framebuffer: None },
        ] + clear_commands(clear_color, clear_depth),
    )
}

/// The default framebuffer.
pub struct Screen {}

impl Screen {
    /// Runs `render` on the default framebuffer after setting the viewport and
    /// clearing per the policy.
    pub fn write<F: FnOnce(&mut Gl)>(
        gl: &mut Gl,
        x: i32,
        y: i32,
        width: usize,
        height: usize,
        clear_color: Option<Vec4>,
        clear_depth: Option<u32>,
        render: F,
    ) -> (r: Result<(), Error>)
        requires
            old(gl).wf(),
            forall|g: &mut Gl| render.requires((g,)),
            forall|g: &mut Gl| #[trigger] render.ensures((g,), ()) ==> (*g)@.draws_only((*final(g))@),
        ensures
            final(gl).wf(),
            r is Ok,
            final(gl)@.draw_framebuffer is None,
            screen_prepared(old(gl)@, x, y, width, height, clear_color, clear_depth).draws_only(final(gl)@),
    {
        let ghost before = gl@;
        gl.issue(GlCommand::Viewport { x, y, width, height });
        gl.bind_framebuffer(consts::DRAW_FRAMEBUFFER, None);
        clear(gl, clear_color, clear_depth);
        assert(gl@ =~= screen_prepared(before, x, y, width, height, clear_color, clear_depth));
        let ghost cleared = gl@;
        render(gl);
        assert(cleared.draws_only(gl@));
        Ok(())
    }

    /// Reads `width * height` RGB texels of the default framebuffer to the host; the
    /// device delivers that many bytes, returned here, at the read command.
    pub fn read_color(gl: &mut Gl, x: i32, y: i32, width: usize, height: usize) -> (r: Result<usize, Error>)
        requires
            width * height * 3 <= usize::MAX,
        ensures
            final(gl).wf() == old(gl).wf(),
            r == Ok::<usize, Error>((width * height * 3) as usize),
            final(gl)@ == old(gl)@.issue_all(
                read_commands(x, y, width, height, consts::RGB, consts::UNSIGNED_BYTE),
            ),
    {
        gl.issue(GlCommand::Viewport { x, y, width, height });
        gl.bind_framebuffer(consts::READ_FRAMEBUFFER, None);
        gl.issue(
            GlCommand::ReadPixels { x, y, width, height, format: consts::RGB, data_type: consts::UNSIGNED_BYTE },
        );
        assert(gl@ =~= old(gl)@.issue_all(read_commands(x, y, width, height, consts::RGB, consts::UNSIGNED_BYTE)));
        assert(width * height * 3 == (width * height) * 3);
        Ok(width * height * 3)
    }

    /// Reads `width * height` depth values of the default framebuffer to the host; the
    /// device delivers that many floats, returned here, at the read command.
    pub fn read_depth(gl: &mut Gl, x: i32, y: i32, width: usize, height: usize) -> (r: Result<usize, Error>)
        requires
            width * height <= usize::MAX,
        ensures
            final(gl).wf() == old(gl).wf(),
            r == Ok::<usize, Error>((width * height) as usize),
            final(gl)@ == old(gl)@.issue_all(
                read_commands(x, y, width, height, consts::DEPTH_COMPONENT, consts::FLOAT),
            ),
    {
        gl.issue(GlCommand::Viewport { x, y, width, height });
        gl.bind_framebuffer(consts::READ_FRAMEBUFFER, None);
        gl.issue(
            GlCommand::ReadPixels {
                x,
                y,
                width,
                height,
                format: consts::DEPTH_COMPONENT,
                data_type: consts::FLOAT,
            },
        );
        assert(gl@ =~= old(gl)@.issue_all(read_commands(x, y, width, height, consts::DEPTH_COMPONENT, consts::FLOAT)));
        Ok(width * height)
    }
}

/// The commands of a synchronous read of the default framebuffer.
pub open spec fn read_commands(x: i32, y: i32, width: usize, height: usize, format: u32, data_type: u32) -> Seq<
    CommandModel,
> {
    seq![
        GlCommand::Viewport { x, y, width, height },
        GlCommand::BindFramebuffer { target: consts::READ_FRAMEBUFFER, framebuffer: None },
        GlCommand::ReadPixels { x, y, width, height, format, data_type },
    ]
}

/// Reverses the row order of an image: the device's row 0 is the bottom row, an
/// encoder's row 0 is the top row.
pub fn flip_rows(pixels: &[u8], width: usize, height: usize, channels: usize) -> (r: Vec<u8>)
    requires
        pixels@.len() == width * height * channels,
    ensures
        r@.len() == pixels@.len(),
        forall|row: int, j: int|
            0 <= row < height && 0 <= j < width * channels ==> #[trigger] r@[row * (width * channels) + j]
                == pixels@[(height - 1 - row) * (width * channels) + j],
{
    let n = pixels.len();
    if height == 0 {
        assert(width * height * channels == 0) by (nonlinear_arith)
            requires
                height == 0,
        ;
        return Vec::new();
    }
    proof {
        assert(width * height * channels == height * (width * channels)) by (nonlinear_arith);
        assert(width * channels <= width * height * channels) by (nonlinear_arith)
            requires
                height >= 1,
        ;
    }
    let row_len = width * channels;
    let mut out: Vec<u8> = Vec::new();
    let mut row: usize = 0;
    while row < height
        invariant
            0 <= row <= height,
            n == pixels@.len(),
            row_len == width * channels,
            pixels@.len() == height * row_len,
            out@.len() == row * row_len,
            forall|r2: int, j: int|
                0 <= r2 < row && 0 <= j < row_len ==> #[trigger] out@[r2 * row_len + j] == pixels@[(height - 1
                    - r2) * row_len + j],
        decreases height - row,
    {
        proof {
            assert((height - 1 - row) * row_len + row_len <= height * row_len) by (nonlinear_arith)
                requires
                    row < height,
            ;
            assert(out@.len() + row_len == (row + 1) * row_len) by (nonlinear_arith)
                requires
                    out@.len() == row * row_len,
            ;
        }
        let src = (height - 1 - row) * row_len;
        let mut j: usize = 0;
        while j < row_len
            invariant
                n == pixels@.len(),
                0 <= row < height,
                0 <= j <= row_len,
                row_len == width * channels,
                pixels@.len() == height * row_len,
                src == (height - 1 - row) * row_len,
                src + row_len <= pixels@.len(),
                out@.len() == row * row_len + j,
                forall|r2: int, j2: int|
                    0 <= r2 < row && 0 <= j2 < row_len ==> #[trigger] out@[r2 * row_len + j2] == pixels@[(height
                        - 1 - r2) * row_len + j2],
                forall|j2: int| 0 <= j2 < j ==> #[trigger] out@[row * row_len + j2] == pixels@[src + j2],
            decreases row_len - j,
        {
            let ghost before = out@;
            out.push(pixels[src + j]);
            proof {
                assert forall|r2: int, j2: int|
                    0 <= r2 < row && 0 <= j2 < row_len implies #[trigger] out@[r2 * row_len + j2] == pixels@[(height
                        - 1 - r2) * row_len + j2] by {
                    assert(r2 * row_len + j2 < row * row_len) by (nonlinear_arith)
                        requires
                            r2 < row,
                            j2 < row_len,
                    ;
                    assert(out@[r2 * row_len + j2] == before[r2 * row_len + j2]);
                }
            }
            j = j + 1;
        }
        row = row + 1;
        assert(out@.len() == row * row_len) by (nonlinear_arith)
            requires
                out@.len() == (row - 1) * row_len + row_len,
        ;
    }
    out
}


/// What the contracts know of a pending readback.
pub struct PendingModel {
    pub path: Seq<char>,
    pub sync: SyncId,
    pub buffer: BufferId,
    pub width: usize,
    pub height: usize,
    pub channels: usize,
}

/// Bytes that a pending readback copies back.
pub open spec fn byte_count(t: PendingModel) -> nat {
    t.width as nat * t.height as nat * t.channels as nat
}

/// A pending readback has channels and a byte count that fits in `usize`.
pub open spec fn pending_fits(t: PendingModel) -> bool {
    t.channels > 0 && byte_count(t) <= usize::MAX
}

/// What a finished readback hands to the encoder.
pub open spec fn readback_of(t: PendingModel) -> (Seq<char>, usize, usize, usize) {
    (t.path, t.width, t.height, t.channels)
}

/// The fields of a finished readback.
pub open spec fn readback_model(b: Readback) -> (Seq<char>, usize, usize, usize) {
    (b.path@, b.width, b.height, b.channels)
}

/// The commands that retire a readback whose fence signalled: release the fence,
/// copy the bytes back, release the buffer.
pub open spec fn release_commands(t: PendingModel) -> Seq<CommandModel> {
    seq![GlCommand::Delete { object: Object::Sync(t.sync) }] + pack_read_commands(
        t.buffer,
        byte_count(t) as usize,
    ) + seq![GlCommand::Delete { object: Object::Buffer(t.buffer) }]
}

/// The readbacks of `todos` whose fence has not signalled, in queue order.
pub open spec fn kept(todos: Seq<PendingModel>, signaled: Seq<u32>) -> Seq<PendingModel>
    decreases todos.len(),
{
    if todos.len() == 0 {
        Seq::empty()
    } else {
        let rest = kept(todos.drop_last(), signaled);
        if signaled.contains(todos.last().sync.name) {
            rest
        } else {
            rest.push(todos.last())
        }
    }
}

/// The readbacks of `todos` whose fence has signalled, in queue order.
pub open spec fn done(todos: Seq<PendingModel>, signaled: Seq<u32>) -> Seq<PendingModel>
    decreases todos.len(),
{
    if todos.len() == 0 {
        Seq::empty()
    } else {
        let rest = done(todos.drop_last(), signaled);
        if signaled.contains(todos.last().sync.name) {
            rest.push(todos.last())
        } else {
            rest
        }
    }
}

/// The commands of one drain of `todos`.
pub open spec fn drain_commands(todos: Seq<PendingModel>, signaled: Seq<u32>) -> Seq<CommandModel>
    decreases todos.len(),
{
    if todos.len() == 0 {
        Seq::empty()
    } else {
        let rest = drain_commands(todos.drop_last(), signaled);
        if signaled.contains(todos.last().sync.name) {
            rest + release_commands(todos.last())
        } else {
            rest
        }
    }
}

/// The commands that copy the read framebuffer into pixel-pack buffer `b`.
pub open spec fn copy_commands(b: BufferId, x: i32, y: i32, width: usize, height: usize) -> Seq<CommandModel> {
    seq![
        GlCommand::BindBuffer { target: consts::PIXEL_PACK_BUFFER, buffer: Some(b) },
        GlCommand::ReadPixels {
            x,
            y,
            width,
            height,
            format: consts::RGB,
            data_type: consts::UNSIGNED_BYTE,
        },
        GlCommand::BindBuffer { target: consts::PIXEL_PACK_BUFFER, buffer: None },
    ]
}

/// A readback whose fence has signalled and whose bytes were copied back: the
/// encoder writes them, rows flipped, to `path`.
pub struct Readback {
    pub path: String,
    pub width: usize,
    pub height: usize,
    pub channels: usize,
}

struct Todo {
    path: String,
    sync: SyncId,
    buffer: PixelPackBuffer,
    width: usize,
    height: usize,
    channels: usize,
}

impl Todo {
    spec fn model(self) -> PendingModel {
        PendingModel {
            path: self.path@,
            sync: self.sync,
            buffer: self.buffer.spec_id(),
            width: self.width,
            height: self.height,
            channels: self.channels,
        }
    }
}

/// Screenshots in flight: each waits for its fence, polled without blocking.
pub struct AsyncSaveScreen {
    todos: Vec<Todo>,
}

impl View for AsyncSaveScreen {
    type V = Seq<PendingModel>;

    closed spec fn view(&self) -> Seq<PendingModel> {
        self.todos@.map_values(|t: Todo| t.model())
    }
}

proof fn lemma_take_last<T>(s: Seq<T>, i: int)
    requires
        0 <= i < s.len(),
    ensures
        s.take(i + 1).drop_last() == s.take(i),
        s.take(i + 1).last() == s[i],
        s.take(i + 1).len() == i + 1,
{
    assert(s.take(i + 1).drop_last() =~= s.take(i));
}

impl AsyncSaveScreen {
    /// Every pending readback fits.
    pub open spec fn wf(&self) -> bool {
        forall|i: int| 0 <= i < self@.len() ==> pending_fits(#[trigger] self@[i])
    }

    /// An empty queue.
    pub fn new() -> (r: AsyncSaveScreen)
        ensures
            r@ == Seq::<PendingModel>::empty(),
            r.wf(),
    {
        let r = AsyncSaveScreen { todos: Vec::new() };
        assert(r@ =~= Seq::<PendingModel>::empty());
        r
    }

    /// The number of readbacks still waiting for their fence.
    pub fn pending_count(&self) -> (r: usize)
        ensures
            r == self@.len(),
    {
        self.todos.len()
    }

    /// Copies the `width` by `height` RGB pixels at `(x, y)` of the default framebuffer
    /// into a new pixel-pack buffer, fences the copy, queues it for `path`, then drains
    /// the queue once. Returns the readbacks that the drain retired.
    pub fn save_screenshot_async(
        &mut self,
        gl: &mut Gl,
        path: &str,
        x: i32,
        y: i32,
        width: usize,
        height: usize,
    ) -> (r: Result<Vec<Readback>, Error>)
        requires
            old(gl).wf(),
            old(self).wf(),
            width * height * 3 <= usize::MAX,
        ensures
            final(gl).wf(),
            final(self).wf(),
            ({
                let v = old(gl)@.issue(GlCommand::Viewport { x, y, width, height }).issue(
                    GlCommand::BindFramebuffer { target: consts::READ_FRAMEBUFFER, framebuffer: None },
                );
                let b = BufferId { name: old(gl)@.next_name };
                let s = SyncId { name: (old(gl)@.next_name + 1) as u32 };
                let allocated = v.take_name().issue(create_command(b.name)).issue_all(
                    pack_allocation_commands(b, (width * height * 3) as usize),
                ).issue_all(copy_commands(b, x, y, width, height));
                let submitted = allocated.take_name().issue(GlCommand::Create { object: Object::Sync(s) }).issue(
                    GlCommand::Flush,
                );
                let queue = old(self)@.push(
                    PendingModel { path: path@, sync: s, buffer: b, width, height, channels: 3 },
                );
                &&& old(gl)@.next_name == u32::MAX ==> r == Err::<Vec<Readback>, Error>(Error::ResourceCreation)
                    && final(self)@ == old(self)@ && final(gl)@ == v
                &&& old(gl)@.next_name == u32::MAX - 1 ==> r == Err::<Vec<Readback>, Error>(
                    Error::ResourceCreation,
                ) && final(self)@ == old(self)@ && final(gl)@ == allocated.issue(
                    GlCommand::Delete { object: Object::Buffer(b) },
                )
                &&& old(gl)@.next_name < u32::MAX - 1 ==> r is Ok && r.unwrap()@.map_values(
                    |b: Readback| readback_model(b),
                ) == done(queue, old(gl)@.signaled).map_values(|t: PendingModel| readback_of(t))
                    && final(self)@ == kept(queue, old(gl)@.signaled) && final(gl)@ == submitted.issue_all(
                    drain_commands(queue, old(gl)@.signaled),
                )
            }),
    {
        let ghost before = gl@;
        gl.issue(GlCommand::Viewport { x, y, width, height });
        gl.bind_framebuffer(consts::READ_FRAMEBUFFER, None);
        let size_in_bytes = width * height * 3;
        let buffer = match PixelPackBuffer::new(gl, size_in_bytes) {
            Ok(b) => b,
            Err(e) => return Err(e),
        };
        let ghost created = gl@;
        buffer.bind(gl);
        gl.issue(
            GlCommand::ReadPixels { x, y, width, height, format: consts::RGB, data_type: consts::UNSIGNED_BYTE },
        );
        buffer.unbind(gl);
        assert(gl@ =~= created.issue_all(copy_commands(buffer.spec_id(), x, y, width, height)));
        let sync = match gl.fence_sync() {
            Some(s) => s,
            None => {
                buffer.delete(gl);
                return Err(Error::ResourceCreation);
            },
        };
        gl.issue(GlCommand::Flush);
        let ghost queued = self@;
        let todo = Todo { path: path.to_owned(), sync, buffer, width, height, channels: 3 };
        self.todos.push(todo);
        assert(self@ =~= queued.push(todo.model()));
        assert(byte_count(todo.model()) == width * height * 3);
        let done = self.save(gl);
        Ok(done)
    }

    /// Tears the pipeline down: one last drain, whose retired readbacks are returned;
    /// readbacks whose fence has still not signalled are dropped.
    pub fn close(self, gl: &mut Gl) -> (r: Vec<Readback>)
        requires
            self.wf(),
        ensures
            r@.map_values(|b: Readback| readback_model(b)) == done(self@, old(gl)@.signaled).map_values(
                |t: PendingModel| readback_of(t),
            ),
            final(gl)@ == old(gl)@.issue_all(drain_commands(self@, old(gl)@.signaled)),
            final(gl).wf() == old(gl).wf(),
    {
        let mut pipeline = self;
        pipeline.save(gl)
    }

    /// Polls each pending readback's fence once, in queue order. Those whose fence has
    /// signalled are retired (fence released, bytes copied back, buffer released) and
    /// returned in queue order; the others stay queued in their order.
    pub fn save(&mut self, gl: &mut Gl) -> (r: Vec<Readback>)
        requires
            old(self).wf(),
        ensures
            final(self).wf(),
            final(self)@ == kept(old(self)@, old(gl)@.signaled),
            r@.map_values(|b: Readback| readback_model(b)) == done(old(self)@, old(gl)@.signaled).map_values(
                |t: PendingModel| readback_of(t),
            ),
            final(gl)@ == old(gl)@.issue_all(drain_commands(old(self)@, old(gl)@.signaled)),
            final(gl).wf() == old(gl).wf(),
    {
        let ghost all = self@;
        let ghost start = gl@;
        let ghost sig = gl@.signaled;
        let mut pending: Vec<Todo> = Vec::new();
        std::mem::swap(&mut pending, &mut self.todos);
        assert(self@ =~= kept(all.take(0), sig));
        let mut out: Vec<Readback> = Vec::new();
        let ghost mut i: int = 0;
        assert(out@.map_values(|b: Readback| readback_model(b)) =~= done(all.take(0), sig).map_values(
            |t: PendingModel| readback_of(t),
        ));
        assert(gl@ =~= start.issue_all(drain_commands(all.take(0), sig)));
        assert(pending@.map_values(|t: Todo| t.model()) =~= all.skip(0));
        while pending.len() > 0
            invariant
                0 <= i <= all.len(),
                forall|k: int| 0 <= k < all.len() ==> pending_fits(#[trigger] all[k]),
                pending@.map_values(|t: Todo| t.model()) == all.skip(i),
                self@ == kept(all.take(i), sig),
                out@.map_values(|b: Readback| readback_model(b)) == done(all.take(i), sig).map_values(
                    |t: PendingModel| readback_of(t),
                ),
                gl@ == start.issue_all(drain_commands(all.take(i), sig)),
                gl.wf() == old(gl).wf(),
                self.wf(),
                sig == start.signaled,
                start == old(gl)@,
                all == old(self)@,
            decreases pending@.len(),
        {
            let ghost rest = pending@;
            let t = pending.remove(0);
            proof {
                assert(rest.map_values(|t: Todo| t.model()).len() == rest.len());
                assert(i < all.len());
                assert(rest.map_values(|t: Todo| t.model())[0] == t.model());
                assert(all.skip(i)[0] == all[i]);
                assert(t.model() == all[i]);
                assert(pending@ == rest.remove(0));
                assert forall|k: int| 0 <= k < pending@.len() implies (#[trigger] pending@[k]).model()
                    == all.skip(i + 1)[k] by {
                    assert(pending@[k] == rest[k + 1]);
                    assert(rest.map_values(|t: Todo| t.model())[k + 1] == all.skip(i)[k + 1]);
                }
                assert(pending@.map_values(|t: Todo| t.model()) =~= all.skip(i + 1));
                lemma_take_last(all, i);
            }
            assert(t.sync == all[i].sync);
            assert(gl@.signaled == sig);
            let Todo { path, sync, buffer, width, height, channels } = t;
            assert(sync == all[i].sync);
            let signaled = gl.client_wait_sync(sync);
            assert(signaled == sig.contains(all[i].sync.name));
            if signaled {
                let ghost g0 = gl@;
                assert(width as nat * height as nat <= width as nat * height as nat * channels as nat)
                    by (nonlinear_arith)
                    requires
                        channels > 0,
                ;
                gl.delete(Object::Sync(sync));
                buffer.read_pixels(gl, width * height * channels);
                buffer.delete(gl);
                assert(gl@ =~= g0.issue_all(release_commands(all[i])));
                let ghost o0 = out@;
                out.push(Readback { path, width, height, channels });
                assert(out@.map_values(|b: Readback| readback_model(b)) =~= o0.map_values(
                    |b: Readback| readback_model(b),
                ).push(readback_of(all[i])));
                assert(sig.contains(all[i].sync.name));
                assert(kept(all.take(i + 1), sig) == kept(all.take(i), sig));
                assert(done(all.take(i + 1), sig) == done(all.take(i), sig).push(all[i]));
                assert(done(all.take(i + 1), sig).map_values(|t: PendingModel| readback_of(t)) =~= done(
                    all.take(i),
                    sig,
                ).map_values(|t: PendingModel| readback_of(t)).push(readback_of(all[i])));
            } else {
                let ghost s0 = self@;
                self.todos.push(Todo { path, sync, buffer, width, height, channels });
                assert(self@ =~= s0.push(all[i]));
                assert(forall|k: int| 0 <= k < s0.len() ==> self@[k] == s0[k]);
                assert(!sig.contains(all[i].sync.name));
                assert(kept(all.take(i + 1), sig) == kept(all.take(i), sig).push(all[i]));
                assert(done(all.take(i + 1), sig) == done(all.take(i), sig));
            }
            proof {
                i = i + 1;
            }
        }
        assert(all.take(i) =~= all);
        out
    }
}


/// No command of `s` is a clear.
pub open spec fn clear_free(s: Seq<CommandModel>) -> bool {
    forall|i: int| 0 <= i < s.len() ==> !(#[trigger] s[i] is Clear)
}

proof fn lemma_clear_free_concat(a: Seq<CommandModel>, b: Seq<CommandModel>)
    requires
        clear_free(a),
        clear_free(b),
    ensures
        clear_free(a + b),
{
    assert forall|i: int| 0 <= i < (a + b).len() implies !(#[trigger] (a + b)[i] is Clear) by {
        if i >= a.len() {
            assert((a + b)[i] == b[i - a.len()]);
        }
    }
}

proof fn lemma_regenerate_clear_free(target: u32, color: Option<TextureModel>, depth: Option<TextureModel>)
    ensures
        clear_free(regenerate_commands(target, color, depth)),
{
    let c = if color is Some {
        mipmap_commands(target, color.unwrap())
    } else {
        Seq::<CommandModel>::empty()
    };
    let d = if depth is Some {
        mipmap_commands(target, depth.unwrap())
    } else {
        Seq::<CommandModel>::empty()
    };
    assert(clear_free(c));
    assert(clear_free(d));
    lemma_clear_free_concat(c, d);
}

proof fn lemma_opened_clear_free(m: GlModel, n: nat)
    ensures
        opened(m, n).commands == m.commands + (opened(m, n).commands.skip(m.commands.len() as int)),
        clear_free(opened(m, n).commands.skip(m.commands.len() as int)),
{
    let fb = FramebufferId { name: m.next_name };
    let a = seq![
        GlCommand::Create { object: Object::Framebuffer(fb) },
        GlCommand::BindFramebuffer { target: consts::DRAW_FRAMEBUFFER, framebuffer: Some(fb) },
    ];
    let b = if n > 0 {
        seq![GlCommand::DrawBuffers { attachments: draw_buffer_list(n) }]
    } else {
        Seq::<CommandModel>::empty()
    };
    assert(clear_free(a));
    assert(clear_free(b));
    lemma_clear_free_concat(a, b);
    assert(opened(m, n).commands.skip(m.commands.len() as int) =~= a + b);
}

/// With no clear policy the scoped part of a pass adds no clear to what was bound.
proof fn lemma_scope_clear_free(
    before: GlModel,
    attached: GlModel,
    complete: bool,
    regenerate: Seq<CommandModel>,
    after: GlModel,
    r: Result<(), Error>,
    added: Seq<CommandModel>,
)
    requires
        scope_outcome(before, attached, complete, None, None, regenerate, after, r),
        attached.commands == before.commands + added,
        clear_free(added),
        clear_free(regenerate),
    ensures
        after.commands == before.commands + after.commands.skip(before.commands.len() as int),
        clear_free(after.commands.skip(before.commands.len() as int)),
{
    let fb = FramebufferId { name: before.next_name };
    let del = seq![GlCommand::Delete { object: Object::Framebuffer(fb) }];
    assert(clear_free(del));
    if before.validate && !complete {
        lemma_clear_free_concat(added, del);
        assert(after.commands == before.commands + (added + del));
        assert(after.commands.skip(before.commands.len() as int) =~= added + del);
    } else {
        let drawn = choose|drawn: GlModel|
            #[trigger] attached.issue_all(clear_commands(None, None)).draws_only(drawn) && after == closed(
                drawn,
                fb,
            ).issue_all(regenerate);
        assert(attached.issue_all(clear_commands(None, None)).commands =~= attached.commands);
        let draws = drawn.commands.skip(attached.commands.len() as int);
        assert(drawn.commands =~= attached.commands + draws);
        assert forall|i: int| 0 <= i < draws.len() implies !(#[trigger] draws[i] is Clear) by {
            assert(draws[i] == drawn.commands[attached.commands.len() + i]);
        }
        lemma_clear_free_concat(added, draws);
        lemma_clear_free_concat(added + draws, del);
        lemma_clear_free_concat(added + draws + del, regenerate);
        let total = added + draws + del + regenerate;
        assert(after.commands =~= before.commands + total);
        assert(after.commands.skip(before.commands.len() as int) =~= total);
    }
}

/// A pass with neither a clear color nor a clear depth issues no clear: what the
/// attachments held before the pass stays, except where the callback draws.
pub proof fn lemma_write_without_clear_keeps_contents(
    before: GlModel,
    after: GlModel,
    r: Result<(), Error>,
    x: i32,
    y: i32,
    width: usize,
    height: usize,
    color: Option<TextureModel>,
    depth: Option<TextureModel>,
)
    requires
        write_outcome(before, after, r, x, y, width, height, None, None, color, depth),
    ensures
        after.commands == before.commands + after.commands.skip(before.commands.len() as int),
        clear_free(after.commands.skip(before.commands.len() as int)),
{
    let v = before.issue(GlCommand::Viewport { x, y, width, height });
    let vp = seq![GlCommand::Viewport { x, y, width, height }];
    assert(clear_free(vp));
    if before.next_name == u32::MAX {
        assert(after.commands.skip(before.commands.len() as int) =~= vp);
    } else {
        let n: nat = if color is Some {
            1
        } else {
            0
        };
        lemma_opened_clear_free(v, n);
        let o = opened(v, n).commands.skip(v.commands.len() as int);
        let att = attach_commands_2d(color, depth);
        assert(clear_free(att));
        lemma_clear_free_concat(vp, o);
        lemma_clear_free_concat(vp + o, att);
        let attached = opened(v, n).issue_all(att);
        assert(attached.commands =~= before.commands + (vp + o + att));
        lemma_regenerate_clear_free(consts::TEXTURE_2D, color, depth);
        lemma_scope_clear_free(
            before,
            attached,
            complete_2d(color, depth),
            regenerate_commands(consts::TEXTURE_2D, color, depth),
            after,
            r,
            vp + o + att,
        );
    }
}

/// The array form of a pass with neither a clear color nor a clear depth issues no
/// clear either.
pub proof fn lemma_write_array_without_clear_keeps_contents(
    before: GlModel,
    after: GlModel,
    r: Result<(), Error>,
    x: i32,
    y: i32,
    width: usize,
    height: usize,
    color: Option<TextureModel>,
    depth: Option<TextureModel>,
    n: nat,
    layers: Seq<usize>,
    depth_layer: usize,
)
    requires
        write_array_outcome(before, after, r, x, y, width, height, None, None, color, depth, n, layers, depth_layer),
    ensures
        after.commands == before.commands + after.commands.skip(before.commands.len() as int),
        clear_free(after.commands.skip(before.commands.len() as int)),
{
    let v = before.issue(GlCommand::Viewport { x, y, width, height });
    let vp = seq![GlCommand::Viewport { x, y, width, height }];
    assert(clear_free(vp));
    if before.next_name == u32::MAX {
        assert(after.commands.skip(before.commands.len() as int) =~= vp);
    } else {
        lemma_opened_clear_free(v, n);
        let o = opened(v, n).commands.skip(v.commands.len() as int);
        let att = attach_commands_array(color, n, layers, depth, depth_layer);
        let ca = if color is Some {
            Seq::new(n, |c: int| color_attachment_layer(color.unwrap().id, layers[c], c as usize))
        } else {
            Seq::<CommandModel>::empty()
        };
        let da = if depth is Some {
            seq![depth_attachment_layer(depth.unwrap().id, depth_layer)]
        } else {
            Seq::<CommandModel>::empty()
        };
        assert(clear_free(ca));
        assert(clear_free(da));
        lemma_clear_free_concat(ca, da);
        lemma_clear_free_concat(vp, o);
        lemma_clear_free_concat(vp + o, att);
        let attached = opened(v, n).issue_all(att);
        assert(attached.commands =~= before.commands + (vp + o + att));
        lemma_regenerate_clear_free(consts::TEXTURE_2D_ARRAY, color, depth);
        lemma_scope_clear_free(
            before,
            attached,
            complete_array(color, n, layers, depth, depth_layer),
            regenerate_commands(consts::TEXTURE_2D_ARRAY, color, depth),
            after,
            r,
            vp + o + att,
        );
    }
}

/// One queued readback stays queued, and nothing is handed out, while its fence has
/// not signalled; once it has, a drain hands it out and leaves the queue empty, and a
/// drain of the empty queue hands out nothing.
pub proof fn lemma_single_readback(t: PendingModel, signaled: Seq<u32>)
    ensures
        !signaled.contains(t.sync.name) ==> kept(seq![t], signaled) == seq![t] && done(seq![t], signaled).len()
            == 0,
        signaled.contains(t.sync.name) ==> kept(seq![t], signaled).len() == 0 && done(seq![t], signaled)
            == seq![t],
        kept(Seq::<PendingModel>::empty(), signaled).len() == 0,
        done(Seq::<PendingModel>::empty(), signaled).len() == 0,
{
    let e = Seq::<PendingModel>::empty();
    assert(seq![t].drop_last() =~= e);
    assert(seq![t].last() == t);
    assert(kept(e, signaled) == e);
    assert(done(e, signaled) == e);
    assert(e.push(t) =~= seq![t]);
    assert(kept(seq![t], signaled) == if signaled.contains(t.sync.name) {
        kept(e, signaled)
    } else {
        kept(e, signaled).push(t)
    });
    assert(done(seq![t], signaled) == if signaled.contains(t.sync.name) {
        done(e, signaled).push(t)
    } else {
        done(e, signaled)
    });
}

/// A drain splits the queue: every readback is either kept or handed out, never both
/// and never twice; those handed out are exactly those whose fence has signalled.
pub proof fn lemma_drain_partitions(todos: Seq<PendingModel>, signaled: Seq<u32>)
    ensures
        kept(todos, signaled).len() + done(todos, signaled).len() == todos.len(),
        forall|i: int| 0 <= i < done(todos, signaled).len() ==> signaled.contains(
            (#[trigger] done(todos, signaled)[i]).sync.name,
        ),
        forall|i: int| 0 <= i < kept(todos, signaled).len() ==> !signaled.contains(
            (#[trigger] kept(todos, signaled)[i]).sync.name,
        ),
    decreases todos.len(),
{
    if todos.len() > 0 {
        lemma_drain_partitions(todos.drop_last(), signaled);
    }
}

} // verus!
