//! A model of the graphics device: every command this layer issues is recorded,
//! in order, together with the part of the device state that the layer's
//! guarantees speak of. The application replays the log on its device and
//! reports back the events the device produces (a fence that signalled).
use vstd::prelude::*;
use crate::consts;

verus! {

/// Name of a device buffer object.
#[derive(Clone, Copy, Debug, PartialEq, Eq, Structural)]
pub struct BufferId {
    pub name: u32,
}

/// Name of a device texture object.
#[derive(Clone, Copy, Debug, PartialEq, Eq, Structural)]
pub struct TextureId {
    pub name: u32,
}

/// Name of a device framebuffer object.
#[derive(Clone, Copy, Debug, PartialEq, Eq, Structural)]
pub struct FramebufferId {
    pub name: u32,
}

/// Name of a device fence.
#[derive(Clone, Copy, Debug, PartialEq, Eq, Structural)]
pub struct SyncId {
    pub name: u32,
}

/// A device object, as created or deleted.
#[derive(Clone, Copy, Debug, PartialEq, Eq, Structural)]
pub enum Object {
    Buffer(BufferId),
    Texture(TextureId),
    Framebuffer(FramebufferId),
    Sync(SyncId),
}

/// Four clear components, each the IEEE-754 bit pattern of an `f32`.
#[derive(Clone, Copy, Debug, PartialEq, Eq, Structural)]
pub struct Vec4 {
    pub x: u32,
    pub y: u32,
    pub z: u32,
    pub w: u32,
}

/// How the elements of an uploaded buffer are to be read.
#[derive(Clone, Copy, Debug, PartialEq, Eq, Structural)]
pub enum ElementKind {
    /// Unsigned 32-bit integers.
    U32,
    /// IEEE-754 single floats, given as their bit patterns.
    F32,
}

/// One device command. `B` is the type of byte payloads and `W` the type of
/// 32-bit word payloads: `Vec`s in the log, `Seq`s in its model.
#[derive(Clone, Debug, PartialEq, Eq)]
pub enum GlCommand<B, W> {
    Create { object: Object },
    Delete { object: Object },
    BindBuffer { target: u32, buffer: Option<BufferId> },
    BindBufferBase { target: u32, index: u32, buffer: BufferId },
    BufferData { target: u32, kind: ElementKind, data: W, usage: u32 },
    BufferStorage { target: u32, size: usize, usage: u32 },
    GetBufferData { target: u32, size: usize },
    ActiveTexture { unit: u32 },
    BindTexture { target: u32, texture: TextureId },
    TexParameter { target: u32, name: u32, value: u32 },
    TexStorage { target: u32, levels: u32, format: u32, width: usize, height: usize, depth: Option<usize> },
    TexSubImage { target: u32, width: usize, height: usize, format: u32, data: B },
    TexSubImageFloat { target: u32, width: usize, height: usize, format: u32, data: W },
    GenerateMipmap { target: u32 },
    BindFramebuffer { target: u32, framebuffer: Option<FramebufferId> },
    DrawBuffers { attachments: W },
    FramebufferTexture { target: u32, attachment: u32, texture_target: u32, texture: TextureId, layer: Option<usize> },
    Viewport { x: i32, y: i32, width: usize, height: usize },
    ClearColor { color: Vec4 },
    ClearDepth { depth: u32 },
    DepthMask { enabled: bool },
    Clear { mask: u32 },
    ReadPixels { x: i32, y: i32, width: usize, height: usize, format: u32, data_type: u32 },
    Flush,
    DrawArrays { mode: u32, first: u32, count: u32 },
    DrawElements { mode: u32, count: u32 },
}

/// A command as recorded.
pub type Command = GlCommand<Vec<u8>, Vec<u32>>;

/// A command as the contracts speak of it.
pub type CommandModel = GlCommand<Seq<u8>, Seq<u32>>;

/// The model of a recorded command: its payloads as sequences.
pub open spec fn model(c: Command) -> CommandModel {
    match c {
        GlCommand::Create { object } => GlCommand::Create { object },
        GlCommand::Delete { object } => GlCommand::Delete { object },
        GlCommand::BindBuffer { target, buffer } => GlCommand::BindBuffer { target, buffer },
        GlCommand::BindBufferBase { target, index, buffer } => GlCommand::BindBufferBase { target, index, buffer },
        GlCommand::BufferData { target, kind, data, usage } => GlCommand::BufferData { target, kind, data: data@, usage },
        GlCommand::BufferStorage { target, size, usage } => GlCommand::BufferStorage { target, size, usage },
        GlCommand::GetBufferData { target, size } => GlCommand::GetBufferData { target, size },
        GlCommand::ActiveTexture { unit } => GlCommand::ActiveTexture { unit },
        GlCommand::BindTexture { target, texture } => GlCommand::BindTexture { target, texture },
        GlCommand::TexParameter { target, name, value } => GlCommand::TexParameter { target, name, value },
        GlCommand::TexStorage { target, levels, format, width, height, depth } =>
            GlCommand::TexStorage { target, levels, format, width, height, depth },
        GlCommand::TexSubImage { target, width, height, format, data } =>
            GlCommand::TexSubImage { target, width, height, format, data: data@ },
        GlCommand::TexSubImageFloat { target, width, height, format, data } =>
            GlCommand::TexSubImageFloat { target, width, height, format, data: data@ },
        GlCommand::GenerateMipmap { target } => GlCommand::GenerateMipmap { target },
        GlCommand::BindFramebuffer { target, framebuffer } => GlCommand::BindFramebuffer { target, framebuffer },
        GlCommand::DrawBuffers { attachments } => GlCommand::DrawBuffers { attachments: attachments@ },
        GlCommand::FramebufferTexture { target, attachment, texture_target, texture, layer } =>
            GlCommand::FramebufferTexture { target, attachment, texture_target, texture, layer },
        GlCommand::Viewport { x, y, width, height } => GlCommand::Viewport { x, y, width, height },
        GlCommand::ClearColor { color } => GlCommand::ClearColor { color },
        GlCommand::ClearDepth { depth } => GlCommand::ClearDepth { depth },
        GlCommand::DepthMask { enabled } => GlCommand::DepthMask { enabled },
        GlCommand::Clear { mask } => GlCommand::Clear { mask },
        GlCommand::ReadPixels { x, y, width, height, format, data_type } =>
            GlCommand::ReadPixels { x, y, width, height, format, data_type },
        GlCommand::Flush => GlCommand::Flush,
        GlCommand::DrawArrays { mode, first, count } => GlCommand::DrawArrays { mode, first, count },
        GlCommand::DrawElements { mode, count } => GlCommand::DrawElements { mode, count },
    }
}

/// Commands that touch neither object lifetimes nor framebuffer bindings.
pub open spec fn is_plain(c: CommandModel) -> bool {
    !(c is Create || c is Delete || c is BindFramebuffer)
}

/// Commands that a render callback may issue: draws and the bindings they use.
pub open spec fn is_draw(c: CommandModel) -> bool {
    c is DrawArrays || c is DrawElements || c is ActiveTexture || c is BindTexture
        || c is BindBuffer || c is BindBufferBase
}

/// True when `target` names the draw side of the framebuffer binding.
pub open spec fn binds_draw(target: u32) -> bool {
    target == consts::DRAW_FRAMEBUFFER || target == consts::FRAMEBUFFER
}

/// What the contracts know of a device.
#[verifier::ext_equal]
pub struct GlModel {
    /// Every command issued so far, oldest first.
    pub commands: Seq<CommandModel>,
    /// The name that the next created object receives.
    pub next_name: u32,
    /// The fences that the device has reported as signalled.
    pub signaled: Seq<u32>,
    /// The framebuffer bound for drawing; `None` is the default framebuffer.
    pub draw_framebuffer: Option<FramebufferId>,
    /// How many framebuffers exist and are not yet deleted.
    pub live_framebuffers: u32,
    /// Whether framebuffer completeness is validated.
    pub validate: bool,
}

impl GlModel {
    /// The device after handing out one object name.
    pub open spec fn take_name(self) -> GlModel {
        GlModel { next_name: (self.next_name + 1) as u32, ..self }
    }

    /// The device after issuing `c`, with no other change.
    pub open spec fn issue(self, c: CommandModel) -> GlModel {
        GlModel { commands: self.commands.push(c), ..self }
    }

    /// The device after issuing each of `cs`, in order.
    pub open spec fn issue_all(self, cs: Seq<CommandModel>) -> GlModel {
        GlModel { commands: self.commands + cs, ..self }
    }

    /// `after` is `self` with only draw commands appended.
    pub open spec fn draws_only(self, after: GlModel) -> bool {
        &&& after.commands.len() >= self.commands.len()
        &&& forall|i: int| 0 <= i < self.commands.len() ==> #[trigger] after.commands[i] == self.commands[i]
        &&& forall|i: int| self.commands.len() <= i < after.commands.len()
            ==> is_draw(#[trigger] after.commands[i])
        &&& after == GlModel { commands: after.commands, ..self }
    }
}

/// The device handle that every resource borrows to issue commands.
pub struct Gl {
    commands: Vec<Command>,
    next_name: u32,
    signaled: Vec<u32>,
    draw_framebuffer: Option<FramebufferId>,
    live_framebuffers: u32,
    validate: bool,
}

impl View for Gl {
    type V = GlModel;

    closed spec fn view(&self) -> GlModel {
        GlModel {
            commands: self.commands@.map_values(|c: Command| model(c)),
            next_name: self.next_name,
            signaled: self.signaled@,
            draw_framebuffer: self.draw_framebuffer,
            live_framebuffers: self.live_framebuffers,
            validate: self.validate,
        }
    }
}

impl Gl {
    /// Names handed out so far are below `next_name`, and the default framebuffer
    /// owns name 0.
    pub open spec fn wf(&self) -> bool {
        &&& 1 <= self@.next_name
        &&& self@.live_framebuffers < self@.next_name
    }

    /// A device on which nothing has been issued yet.
    pub fn new(validate: bool) -> (r: Gl)
        ensures
            r.wf(),
            r@ == (GlModel {
                commands: seq![],
                next_name: 1,
                signaled: seq![],
                draw_framebuffer: None,
                live_framebuffers: 0,
                validate,
            }),
    {
        let r = Gl {
            commands: Vec::new(),
            next_name: 1,
            signaled: Vec::new(),
            draw_framebuffer: None,
            live_framebuffers: 0,
            validate,
        };
        assert(r@.commands =~= seq![]);
        r
    }

    /// A device on which nothing has been issued yet by this layer and whose next
    /// object receives name `first_name` (names below it are held elsewhere).
    pub fn starting_at(validate: bool, first_name: u32) -> (r: Gl)
        requires
            first_name >= 1,
        ensures
            r.wf(),
            r@ == (GlModel {
                commands: seq![],
                next_name: first_name,
                signaled: seq![],
                draw_framebuffer: None,
                live_framebuffers: 0,
                validate,
            }),
    {
        let r = Gl {
            commands: Vec::new(),
            next_name: first_name,
            signaled: Vec::new(),
            draw_framebuffer: None,
            live_framebuffers: 0,
            validate,
        };
        assert(r@.commands =~= seq![]);
        r
    }

    /// The commands issued so far, oldest first.
    pub fn commands(&self) -> (r: &Vec<Command>)
        ensures
            r@.map_values(|c: Command| model(c)) == self@.commands,
    {
        &self.commands
    }

    /// The framebuffer bound for drawing; `None` is the default framebuffer.
    pub fn draw_framebuffer(&self) -> (r: Option<FramebufferId>)
        ensures
            r == self@.draw_framebuffer,
    {
        self.draw_framebuffer
    }

    /// How many framebuffers exist and are not yet deleted.
    pub fn live_framebuffer_count(&self) -> (r: u32)
        ensures
            r == self@.live_framebuffers,
    {
        self.live_framebuffers
    }

    /// Whether framebuffer completeness is validated.
    pub fn validation(&self) -> (r: bool)
        ensures
            r == self@.validate,
    {
        self.validate
    }

    fn push(&mut self, c: Command)
        ensures
            final(self)@ == old(self)@.issue(model(c)),
            final(self).wf() == old(self).wf(),
    {
        let ghost before = self.commands@;
        self.commands.push(c);
        assert(self.commands@.map_values(|c: Command| model(c)) =~= before.map_values(
            |c: Command| model(c),
        ).push(model(c)));
    }

    /// Issues a command that creates no object, deletes none and binds no framebuffer.
    pub(crate) fn issue(&mut self, c: Command)
        requires
            is_plain(model(c)),
        ensures
            final(self)@ == old(self)@.issue(model(c)),
            final(self).wf() == old(self).wf(),
    {
        self.push(c);
    }

    /// Issues a draw of `count` vertices from `first`.
    pub fn draw_arrays(&mut self, mode: u32, first: u32, count: u32)
        ensures
            final(self)@ == old(self)@.issue(GlCommand::DrawArrays { mode, first, count }),
            final(self).wf() == old(self).wf(),
    {
        self.push(GlCommand::DrawArrays { mode, first, count });
    }

    /// Issues an indexed draw of `count` elements.
    pub fn draw_elements(&mut self, mode: u32, count: u32)
        ensures
            final(self)@ == old(self)@.issue(GlCommand::DrawElements { mode, count }),
            final(self).wf() == old(self).wf(),
    {
        self.push(GlCommand::DrawElements { mode, count });
    }

    /// Hands out a fresh object name, or `None` once names are exhausted.
    fn fresh_name(&mut self) -> (r: Option<u32>)
        requires
            old(self).wf(),
        ensures
            final(self).wf(),
            old(self)@.next_name == u32::MAX ==> r is None && final(self)@ == old(self)@,
            old(self)@.next_name < u32::MAX ==> r == Some(old(self)@.next_name) && final(self)@
                == (GlModel { next_name: (old(self)@.next_name + 1) as u32, ..old(self)@ }),
    {
        if self.next_name == u32::MAX {
            None
        } else {
            let n = self.next_name;
            self.next_name = n + 1;
            Some(n)
        }
    }

    /// Creates a buffer object.
    pub(crate) fn create_buffer(&mut self) -> (r: Option<BufferId>)
        requires
            old(self).wf(),
        ensures
            final(self).wf(),
            old(self)@.next_name == u32::MAX ==> r is None && final(self)@ == old(self)@,
            old(self)@.next_name < u32::MAX ==> r == Some(BufferId { name: old(self)@.next_name })
                && final(self)@ == (GlModel {
                next_name: (old(self)@.next_name + 1) as u32,
                ..old(self)@
            }).issue(GlCommand::Create { object: Object::Buffer(r.unwrap()) }),
    {
        match self.fresh_name() {
            None => None,
            Some(name) => {
                let id = BufferId { name };
                self.push(GlCommand::Create { object: Object::Buffer(id) });
                Some(id)
            },
        }
    }

    /// Creates a texture object.
    pub(crate) fn create_texture(&mut self) -> (r: Option<TextureId>)
        requires
            old(self).wf(),
        ensures
            final(self).wf(),
            old(self)@.next_name == u32::MAX ==> r is None && final(self)@ == old(self)@,
            old(self)@.next_name < u32::MAX ==> r == Some(TextureId { name: old(self)@.next_name })
                && final(self)@ == (GlModel {
                next_name: (old(self)@.next_name + 1) as u32,
                ..old(self)@
            }).issue(GlCommand::Create { object: Object::Texture(r.unwrap()) }),
    {
        match self.fresh_name() {
            None => None,
            Some(name) => {
                let id = TextureId { name };
                self.push(GlCommand::Create { object: Object::Texture(id) });
                Some(id)
            },
        }
    }

    /// Inserts a fence into the command stream.
    pub(crate) fn fence_sync(&mut self) -> (r: Option<SyncId>)
        requires
            old(self).wf(),
        ensures
            final(self).wf(),
            old(self)@.next_name == u32::MAX ==> r is None && final(self)@ == old(self)@,
            old(self)@.next_name < u32::MAX ==> r == Some(SyncId { name: old(self)@.next_name })
                && final(self)@ == (GlModel {
                next_name: (old(self)@.next_name + 1) as u32,
                ..old(self)@
            }).issue(GlCommand::Create { object: Object::Sync(r.unwrap()) }),
    {
        match self.fresh_name() {
            None => None,
            Some(name) => {
                let id = SyncId { name };
                self.push(GlCommand::Create { object: Object::Sync(id) });
                Some(id)
            },
        }
    }

    /// Creates a framebuffer object.
    pub(crate) fn create_framebuffer(&mut self) -> (r: Option<FramebufferId>)
        requires
            old(self).wf(),
        ensures
            final(self).wf(),
            old(self)@.next_name == u32::MAX ==> r is None && final(self)@ == old(self)@,
            old(self)@.next_name < u32::MAX ==> r == Some(FramebufferId { name: old(self)@.next_name })
                && final(self)@ == (GlModel {
                next_name: (old(self)@.next_name + 1) as u32,
                live_framebuffers: (old(self)@.live_framebuffers + 1) as u32,
                ..old(self)@
            }).issue(GlCommand::Create { object: Object::Framebuffer(r.unwrap()) }),
    {
        match self.fresh_name() {
            None => None,
            Some(name) => {
                let id = FramebufferId { name };
                self.live_framebuffers = self.live_framebuffers + 1;
                self.push(GlCommand::Create { object: Object::Framebuffer(id) });
                Some(id)
            },
        }
    }

    /// Deletes a buffer, texture or fence.
    pub(crate) fn delete(&mut self, object: Object)
        requires
            !(object is Framebuffer),
        ensures
            final(self)@ == old(self)@.issue(GlCommand::Delete { object }),
            final(self).wf() == old(self).wf(),
    {
        self.push(GlCommand::Delete { object });
    }

    /// Deletes a framebuffer; a framebuffer bound for drawing falls back to the default.
    pub(crate) fn delete_framebuffer(&mut self, id: FramebufferId)
        requires
            old(self).wf(),
            old(self)@.live_framebuffers > 0,
        ensures
            final(self).wf(),
            final(self)@ == (GlModel {
                live_framebuffers: (old(self)@.live_framebuffers - 1) as u32,
                draw_framebuffer: if old(self)@.draw_framebuffer == Some(id) {
                    None
                } else {
                    old(self)@.draw_framebuffer
                },
                ..old(self)@
            }).issue(GlCommand::Delete { object: Object::Framebuffer(id) }),
    {
        self.live_framebuffers = self.live_framebuffers - 1;
        if self.draw_framebuffer == Some(id) {
            self.draw_framebuffer = None;
        }
        self.push(GlCommand::Delete { object: Object::Framebuffer(id) });
    }

    /// Binds `framebuffer` (`None`: the default one) to `target`.
    pub(crate) fn bind_framebuffer(&mut self, target: u32, framebuffer: Option<FramebufferId>)
        ensures
            final(self).wf() == old(self).wf(),
            final(self)@ == (GlModel {
                draw_framebuffer: if binds_draw(target) {
                    framebuffer
                } else {
                    old(self)@.draw_framebuffer
                },
                ..old(self)@
            }).issue(GlCommand::BindFramebuffer { target, framebuffer }),
    {
        if target == consts::DRAW_FRAMEBUFFER || target == consts::FRAMEBUFFER {
            self.draw_framebuffer = framebuffer;
        }
        self.push(GlCommand::BindFramebuffer { target, framebuffer });
    }

    /// Records that the device reported `sync` as signalled.
    pub fn signal(&mut self, sync: SyncId)
        ensures
            final(self).wf() == old(self).wf(),
            final(self)@ == (GlModel { signaled: old(self)@.signaled.push(sync.name), ..old(self)@ }),
    {
        self.signaled.push(sync.name);
    }

    /// Polls `sync` without waiting: whether the device has reported it as signalled.
    pub(crate) fn client_wait_sync(&self, sync: SyncId) -> (r: bool)
        ensures
            r == self@.signaled.contains(sync.name),
    {
        let mut i: usize = 0;
        while i < self.signaled.len()
            invariant
                0 <= i <= self.signaled@.len(),
                forall|j: int| 0 <= j < i ==> self.signaled@[j] != sync.name,
            decreases self.signaled@.len() - i,
        {
            if self.signaled[i] == sync.name {
                assert(self@.signaled[i as int] == sync.name);
                return true;
            }
            i = i + 1;
        }
        false
    }
}

} // verus!
