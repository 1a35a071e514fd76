//! Buffers: vertex, element (index), uniform and pixel-pack.
use vstd::prelude::*;
use crate::consts;
use crate::error::Error;
use crate::gl::{BufferId, CommandModel, ElementKind, Gl, GlCommand, Object};

verus! {

/// The commands that replace the whole contents of buffer `id` bound at `target`.
pub open spec fn upload_commands(
    target: u32,
    id: BufferId,
    kind: ElementKind,
    data: Seq<u32>,
    usage: u32,
) -> Seq<CommandModel> {
    seq![
        GlCommand::BindBuffer { target, buffer: Some(id) },
        GlCommand::BufferData { target, kind, data, usage },
        GlCommand::BindBuffer { target, buffer: None },
    ]
}

fn upload(gl: &mut Gl, target: u32, id: BufferId, kind: ElementKind, data: &[u32], usage: u32)
    ensures
        final(gl).wf() == old(gl).wf(),
        final(gl)@ == old(gl)@.issue_all(upload_commands(target, id, kind, data@, usage)),
{
    gl.issue(GlCommand::BindBuffer { target, buffer: Some(id) });
    let words = vstd::slice::slice_to_vec(data);
    gl.issue(GlCommand::BufferData { target, kind, data: words, usage });
    gl.issue(GlCommand::BindBuffer { target, buffer: None });
    assert(final(gl)@ =~= old(gl)@.issue_all(upload_commands(target, id, kind, data@, usage)));
}

fn create(gl: &mut Gl) -> (r: Result<BufferId, Error>)
    requires
        old(gl).wf(),
    ensures
        final(gl).wf(),
        old(gl)@.next_name == u32::MAX ==> r == Err::<BufferId, Error>(Error::ResourceCreation)
            && final(gl)@ == old(gl)@,
        old(gl)@.next_name < u32::MAX ==> r == Ok::<BufferId, Error>(BufferId { name: old(gl)@.next_name })
            && final(gl)@ == old(gl)@.take_name().issue(
            GlCommand::Create { object: Object::Buffer(BufferId { name: old(gl)@.next_name }) },
        ),
{
    match gl.create_buffer() {
        Some(id) => Ok(id),
        None => Err(Error::ResourceCreation),
    }
}

/// The creation command of the buffer named `name`.
pub open spec fn create_command(name: u32) -> CommandModel {
    GlCommand::Create { object: Object::Buffer(BufferId { name }) }
}

/// Per-vertex attribute data: floats, given as their bit patterns.
pub struct VertexBuffer {
    id: BufferId,
}

impl VertexBuffer {
    /// The device object name.
    pub closed spec fn spec_id(&self) -> BufferId {
        self.id
    }

    /// Creates a buffer holding `data`, which stays fixed for the buffer's lifetime.
    pub fn new_with_static_f32(gl: &mut Gl, data: &[u32]) -> (r: Result<VertexBuffer, Error>)
        requires
            old(gl).wf(),
        ensures
            final(gl).wf(),
            r is Err <==> old(gl)@.next_name == u32::MAX,
            r is Err ==> r == Err::<VertexBuffer, Error>(Error::ResourceCreation) && final(gl)@ == old(gl)@,
            r is Ok ==> r.unwrap().spec_id() == (BufferId { name: old(gl)@.next_name }) && final(gl)@
                == old(gl)@.take_name().issue(create_command(old(gl)@.next_name)).issue_all(
                upload_commands(
                    consts::ARRAY_BUFFER,
                    r.unwrap().spec_id(),
                    ElementKind::F32,
                    data@,
                    consts::STATIC_DRAW,
                ),
            ),
    {
        let id = create(gl)?;
        let mut buffer = VertexBuffer { id };
        buffer.fill_with_static_f32(gl, data);
        Ok(buffer)
    }

    /// Replaces the contents with `data`, marked as fixed.
    pub fn fill_with_static_f32(&mut self, gl: &mut Gl, data: &[u32])
        ensures
            *final(self) == *old(self),
            final(gl).wf() == old(gl).wf(),
            final(gl)@ == old(gl)@.issue_all(
                upload_commands(consts::ARRAY_BUFFER, old(self).spec_id(), ElementKind::F32, data@, consts::STATIC_DRAW),
            ),
    {
        upload(gl, consts::ARRAY_BUFFER, self.id, ElementKind::F32, data, consts::STATIC_DRAW);
    }

    /// Creates a buffer holding `data`, which is expected to be uploaded again.
    pub fn new_with_dynamic_f32(gl: &mut Gl, data: &[u32]) -> (r: Result<VertexBuffer, Error>)
        requires
            old(gl).wf(),
        ensures
            final(gl).wf(),
            r is Err <==> old(gl)@.next_name == u32::MAX,
            r is Err ==> r == Err::<VertexBuffer, Error>(Error::ResourceCreation) && final(gl)@ == old(gl)@,
            r is Ok ==> r.unwrap().spec_id() == (BufferId { name: old(gl)@.next_name }) && final(gl)@
                == old(gl)@.take_name().issue(create_command(old(gl)@.next_name)).issue_all(
                upload_commands(
                    consts::ARRAY_BUFFER,
                    r.unwrap().spec_id(),
                    ElementKind::F32,
                    data@,
                    consts::DYNAMIC_DRAW,
                ),
            ),
    {
        let id = create(gl)?;
        let mut buffer = VertexBuffer { id };
        buffer.fill_with_dynamic_f32(gl, data);
        Ok(buffer)
    }

    /// Replaces the contents with `data`, marked as changing.
    pub fn fill_with_dynamic_f32(&mut self, gl: &mut Gl, data: &[u32])
        ensures
            *final(self) == *old(self),
            final(gl).wf() == old(gl).wf(),
            final(gl)@ == old(gl)@.issue_all(
                upload_commands(consts::ARRAY_BUFFER, old(self).spec_id(), ElementKind::F32, data@, consts::DYNAMIC_DRAW),
            ),
    {
        upload(gl, consts::ARRAY_BUFFER, self.id, ElementKind::F32, data, consts::DYNAMIC_DRAW);
    }

    /// Binds the buffer as the vertex attribute source.
    pub fn bind(&self, gl: &mut Gl)
        ensures
            final(gl).wf() == old(gl).wf(),
            final(gl)@ == old(gl)@.issue(GlCommand::BindBuffer { target: consts::ARRAY_BUFFER, buffer: Some(self.spec_id()) }),
    {
        gl.issue(GlCommand::BindBuffer { target: consts::ARRAY_BUFFER, buffer: Some(self.id) });
    }

    /// Releases the device buffer.
    pub fn delete(self, gl: &mut Gl)
        ensures
            final(gl).wf() == old(gl).wf(),
            final(gl)@ == old(gl)@.issue(GlCommand::Delete { object: Object::Buffer(self.spec_id()) }),
    {
        gl.delete(Object::Buffer(self.id));
    }
}

/// Vertex indices, with the number of indices they hold.
pub struct ElementBuffer {
    id: BufferId,
    count: usize,
}

impl ElementBuffer {
    /// The device object name.
    pub closed spec fn spec_id(&self) -> BufferId {
        self.id
    }

    /// The number of indices held.
    pub closed spec fn spec_count(&self) -> usize {
        self.count
    }

    /// Creates a buffer holding the indices `data`.
    pub fn new_with_u32(gl: &mut Gl, data: &[u32]) -> (r: Result<ElementBuffer, Error>)
        requires
            old(gl).wf(),
        ensures
            final(gl).wf(),
            r is Err <==> old(gl)@.next_name == u32::MAX,
            r is Err ==> r == Err::<ElementBuffer, Error>(Error::ResourceCreation) && final(gl)@ == old(gl)@,
            r is Ok ==> r.unwrap().spec_id() == (BufferId { name: old(gl)@.next_name })
                && r.unwrap().spec_count() == data@.len() && final(gl)@ == old(gl)@.take_name().issue(
                create_command(old(gl)@.next_name),
            ).issue_all(
                upload_commands(
                    consts::ELEMENT_ARRAY_BUFFER,
                    r.unwrap().spec_id(),
                    ElementKind::U32,
                    data@,
                    consts::STATIC_DRAW,
                ),
            ),
    {
        let id = create(gl)?;
        let mut buffer = ElementBuffer { id, count: 0 };
        buffer.fill_with_u32(gl, data);
        Ok(buffer)
    }

    /// Replaces the indices with `data` and records their number.
    pub fn fill_with_u32(&mut self, gl: &mut Gl, data: &[u32])
        ensures
            final(self).spec_id() == old(self).spec_id(),
            final(self).spec_count() == data@.len(),
            final(gl).wf() == old(gl).wf(),
            final(gl)@ == old(gl)@.issue_all(
                upload_commands(
                    consts::ELEMENT_ARRAY_BUFFER,
                    old(self).spec_id(),
                    ElementKind::U32,
                    data@,
                    consts::STATIC_DRAW,
                ),
            ),
    {
        upload(gl, consts::ELEMENT_ARRAY_BUFFER, self.id, ElementKind::U32, data, consts::STATIC_DRAW);
        self.count = data.len();
    }

    /// The number of indices held.
    pub fn count(&self) -> (r: usize)
        ensures
            r == self.spec_count(),
    {
        self.count
    }

    /// Binds the buffer as the index source of indexed draws.
    pub fn bind(&self, gl: &mut Gl)
        ensures
            final(gl).wf() == old(gl).wf(),
            final(gl)@ == old(gl)@.issue(
                GlCommand::BindBuffer { target: consts::ELEMENT_ARRAY_BUFFER, buffer: Some(self.spec_id()) },
            ),
    {
        gl.issue(GlCommand::BindBuffer { target: consts::ELEMENT_ARRAY_BUFFER, buffer: Some(self.id) });
    }

    /// Releases the device buffer.
    pub fn delete(self, gl: &mut Gl)
        ensures
            final(gl).wf() == old(gl).wf(),
            final(gl)@ == old(gl)@.issue(GlCommand::Delete { object: Object::Buffer(self.spec_id()) }),
    {
        gl.delete(Object::Buffer(self.id));
    }
}

/// Sum of the first `n` sizes.
pub open spec fn prefix_sum(sizes: Seq<u32>, n: int) -> nat
    decreases n,
{
    if n <= 0 {
        0
    } else {
        prefix_sum(sizes, n - 1) + sizes[n - 1] as nat
    }
}

/// Start of each slot of a layout built from `sizes`: the sum of the sizes before it.
pub open spec fn layout_offsets(sizes: Seq<u32>) -> Seq<usize> {
    Seq::new(sizes.len(), |i: int| prefix_sum(sizes, i) as usize)
}

/// `s` with `data` written over it from `offset` on.
pub open spec fn splice(s: Seq<u32>, offset: int, data: Seq<u32>) -> Seq<u32> {
    s.subrange(0, offset) + data + s.subrange(offset + data.len(), s.len() as int)
}

/// What the contracts know of a uniform buffer.
pub struct UniformModel {
    pub id: BufferId,
    /// Start of each slot in the host mirror.
    pub offsets: Seq<usize>,
    /// The host mirror of the buffer's contents.
    pub data: Seq<u32>,
}

impl UniformModel {
    /// Offsets ascend from 0 and stay within the mirror.
    pub open spec fn wf(self) -> bool {
        &&& self.offsets.len() > 0 ==> self.offsets[0] == 0
        &&& forall|i: int, j: int| 0 <= i <= j < self.offsets.len() ==> self.offsets[i] <= self.offsets[j]
        &&& forall|i: int| 0 <= i < self.offsets.len() ==> self.offsets[i] <= self.data.len()
    }

    /// Length of slot `i`: up to the next offset, or to the end for the last slot.
    pub open spec fn slot_len(self, i: int) -> int {
        if i + 1 == self.offsets.len() {
            self.data.len() - self.offsets[i]
        } else {
            self.offsets[i + 1] - self.offsets[i]
        }
    }

    /// The contents of slot `i`.
    pub open spec fn slot(self, i: int) -> Seq<u32> {
        self.data.subrange(self.offsets[i] as int, self.offsets[i] + self.slot_len(i))
    }
}

/// A layout built from `sizes` puts slot `i` at the sum of the sizes before it and
/// gives it length `sizes[i]`, the last slot included; writing data of that length
/// to slot `i` and then reading slot `i` gives the data back.
pub proof fn lemma_layout_round_trip(sizes: Seq<u32>, m: UniformModel, i: int, data: Seq<u32>)
    requires
        m.offsets == layout_offsets(sizes),
        m.data.len() == prefix_sum(sizes, sizes.len() as int),
        prefix_sum(sizes, sizes.len() as int) <= usize::MAX,
        0 <= i < sizes.len(),
    ensures
        m.offsets[i] == prefix_sum(sizes, i),
        m.slot_len(i) == sizes[i],
        data.len() == sizes[i] ==> (UniformModel {
            data: splice(m.data, m.offsets[i] as int, data),
            ..m
        }).slot(i) == data,
{
    lemma_prefix_sum_monotone(sizes, i, sizes.len() as int);
    lemma_prefix_sum_monotone(sizes, i + 1, sizes.len() as int);
    if data.len() == sizes[i] {
        let w = UniformModel { data: splice(m.data, m.offsets[i] as int, data), ..m };
        assert(w.slot(i) =~= data);
    }
}

/// Uniform data in slots of fixed sizes, mirrored on the host and uploaded whole.
pub struct UniformBuffer {
    id: BufferId,
    offsets: Vec<usize>,
    data: Vec<u32>,
}

impl View for UniformBuffer {
    type V = UniformModel;

    closed spec fn view(&self) -> UniformModel {
        UniformModel { id: self.id, offsets: self.offsets@, data: self.data@ }
    }
}

proof fn lemma_prefix_sum_monotone(sizes: Seq<u32>, i: int, j: int)
    requires
        0 <= i <= j,
    ensures
        prefix_sum(sizes, i) <= prefix_sum(sizes, j),
    decreases j - i,
{
    if i < j {
        lemma_prefix_sum_monotone(sizes, i, j - 1);
    }
}

impl UniformBuffer {
    /// Creates a buffer with one slot per entry of `sizes`, each as long as its entry,
    /// and a zeroed host mirror.
    pub fn new(gl: &mut Gl, sizes: &[u32]) -> (r: Result<UniformBuffer, Error>)
        requires
            old(gl).wf(),
            prefix_sum(sizes@, sizes@.len() as int) <= usize::MAX,
        ensures
            final(gl).wf(),
            r is Err <==> old(gl)@.next_name == u32::MAX,
            r is Err ==> r == Err::<UniformBuffer, Error>(Error::ResourceCreation) && final(gl)@ == old(gl)@,
            r is Ok ==> r.unwrap()@.wf() && r.unwrap()@ == (UniformModel {
                id: BufferId { name: old(gl)@.next_name },
                offsets: layout_offsets(sizes@),
                data: Seq::new(prefix_sum(sizes@, sizes@.len() as int), |i: int| 0u32),
            }) && final(gl)@ == old(gl)@.take_name().issue(create_command(old(gl)@.next_name)),
    {
        let id = create(gl)?;
        let mut offsets: Vec<usize> = Vec::new();
        let mut length: usize = 0;
        let mut i: usize = 0;
        while i < sizes.len()
            invariant
                0 <= i <= sizes@.len(),
                length as nat == prefix_sum(sizes@, i as int),
                prefix_sum(sizes@, sizes@.len() as int) <= usize::MAX,
                offsets@ == layout_offsets(sizes@).take(i as int),
            decreases sizes@.len() - i,
        {
            proof {
                lemma_prefix_sum_monotone(sizes@, i + 1, sizes@.len() as int);
            }
            offsets.push(length);
            length = length + sizes[i] as usize;
            i = i + 1;
            assert(offsets@ =~= layout_offsets(sizes@).take(i as int));
        }
        let mut data: Vec<u32> = Vec::new();
        let mut k: usize = 0;
        while k < length
            invariant
                0 <= k <= length,
                data@ == Seq::new(k as nat, |i: int| 0u32),
            decreases length - k,
        {
            data.push(0);
            k = k + 1;
            assert(data@ =~= Seq::new(k as nat, |i: int| 0u32));
        }
        assert(offsets@ =~= layout_offsets(sizes@));
        proof {
            assert forall|a: int, b: int| 0 <= a <= b < offsets@.len() implies offsets@[a] <= offsets@[b] by {
                lemma_prefix_sum_monotone(sizes@, a, b);
                lemma_prefix_sum_monotone(sizes@, b, sizes@.len() as int);
            }
            assert forall|a: int| 0 <= a < offsets@.len() implies offsets@[a] <= data@.len() by {
                lemma_prefix_sum_monotone(sizes@, a, sizes@.len() as int);
            }
        }
        Ok(UniformBuffer { id, offsets, data })
    }

    /// Binds the buffer to uniform block binding point `index`.
    pub fn bind(&self, gl: &mut Gl, index: u32)
        ensures
            final(gl).wf() == old(gl).wf(),
            final(gl)@ == old(gl)@.issue(
                GlCommand::BindBufferBase { target: consts::UNIFORM_BUFFER, index, buffer: self@.id },
            ),
    {
        gl.issue(GlCommand::BindBufferBase { target: consts::UNIFORM_BUFFER, index, buffer: self.id });
    }

    /// Writes `data` into slot `index` of the host mirror, then uploads the whole mirror.
    pub fn update(&mut self, gl: &mut Gl, index: usize, data: &[u32]) -> (r: Result<(), Error>)
        requires
            old(self)@.wf(),
        ensures
            final(self)@.wf(),
            index >= old(self)@.offsets.len() ==> r == Err::<(), Error>(Error::InvalidSlot)
                && final(self)@ == old(self)@ && final(gl)@ == old(gl)@,
            index < old(self)@.offsets.len() && data@.len() != old(self)@.slot_len(index as int) ==> r == Err::<
                (),
                Error,
            >(Error::SizeMismatch) && final(self)@ == old(self)@ && final(gl)@ == old(gl)@,
            index < old(self)@.offsets.len() && data@.len() == old(self)@.slot_len(index as int) ==> r is Ok
                && final(self)@ == (UniformModel {
                data: splice(old(self)@.data, old(self)@.offsets[index as int] as int, data@),
                ..old(self)@
            }) && final(gl)@ == old(gl)@.issue_all(
                upload_commands(
                    consts::UNIFORM_BUFFER,
                    old(self)@.id,
                    ElementKind::F32,
                    final(self)@.data,
                    consts::STATIC_DRAW,
                ),
            ),
            final(gl).wf() == old(gl).wf(),
    {
        let (offset, length) = match self.offset_length(index) {
            Ok(p) => p,
            Err(e) => return Err(e),
        };
        if data.len() != length {
            return Err(Error::SizeMismatch);
        }
        let total = self.data.len();
        let ghost before = self.data@;
        let mut k: usize = 0;
        while k < length
            invariant
                0 <= k <= length,
                length == data@.len(),
                offset + length <= before.len(),
                before.len() == total,
                self.data@.len() == before.len(),
                self.offsets@ == old(self).offsets@,
                self.id == old(self).id,
                forall|j: int|
                    0 <= j < before.len() ==> #[trigger] self.data@[j] == if offset <= j < offset + k {
                        data@[j - offset]
                    } else {
                        before[j]
                    },
            decreases length - k,
        {
            self.data.set(offset + k, data[k]);
            k = k + 1;
        }
        assert(self.data@ =~= splice(before, offset as int, data@));
        self.send(gl);
        Ok(())
    }

    /// The contents of slot `index` of the host mirror; the device is not touched.
    pub fn get(&self, index: usize) -> (r: Result<&[u32], Error>)
        requires
            self@.wf(),
        ensures
            index >= self@.offsets.len() <==> r is Err,
            r is Err ==> r == Err::<&[u32], Error>(Error::InvalidSlot),
            r is Ok ==> r.unwrap()@ == self@.slot(index as int),
    {
        let (offset, length) = match self.offset_length(index) {
            Ok(p) => p,
            Err(e) => return Err(e),
        };
        let total = self.data.len();
        Ok(vstd::slice::slice_subrange(self.data.as_slice(), offset, offset + length))
    }

    /// Start and length of slot `index`.
    fn offset_length(&self, index: usize) -> (r: Result<(usize, usize), Error>)
        requires
            self@.wf(),
        ensures
            index >= self@.offsets.len() ==> r == Err::<(usize, usize), Error>(Error::InvalidSlot),
            index < self@.offsets.len() ==> r is Ok && r.unwrap().0 == self@.offsets[index as int]
                && r.unwrap().1 == self@.slot_len(index as int)
                && r.unwrap().0 + r.unwrap().1 <= self@.data.len(),
    {
        if index >= self.offsets.len() {
            return Err(Error::InvalidSlot);
        }
        let offset = self.offsets[index];
        let end = if index + 1 == self.offsets.len() {
            self.data.len()
        } else {
            self.offsets[index + 1]
        };
        Ok((offset, end - offset))
    }

    /// Uploads the whole host mirror.
    fn send(&self, gl: &mut Gl)
        ensures
            final(gl).wf() == old(gl).wf(),
            final(gl)@ == old(gl)@.issue_all(
                upload_commands(consts::UNIFORM_BUFFER, self@.id, ElementKind::F32, self@.data, consts::STATIC_DRAW),
            ),
    {
        upload(gl, consts::UNIFORM_BUFFER, self.id, ElementKind::F32, self.data.as_slice(), consts::STATIC_DRAW);
    }

    /// Releases the device buffer.
    pub fn delete(self, gl: &mut Gl)
        ensures
            final(gl).wf() == old(gl).wf(),
            final(gl)@ == old(gl)@.issue(GlCommand::Delete { object: Object::Buffer(self@.id) }),
    {
        gl.delete(Object::Buffer(self.id));
    }
}

/// The commands that bind, allocate and unbind a pixel-pack buffer of `size` bytes.
pub open spec fn pack_allocation_commands(id: BufferId, size: usize) -> Seq<CommandModel> {
    seq![
        GlCommand::BindBuffer { target: consts::PIXEL_PACK_BUFFER, buffer: Some(id) },
        GlCommand::BufferStorage { target: consts::PIXEL_PACK_BUFFER, size, usage: consts::STREAM_READ },
        GlCommand::BindBuffer { target: consts::PIXEL_PACK_BUFFER, buffer: None },
    ]
}

/// The commands that copy `size` bytes of a pixel-pack buffer back to the host.
pub open spec fn pack_read_commands(id: BufferId, size: usize) -> Seq<CommandModel> {
    seq![
        GlCommand::BindBuffer { target: consts::PIXEL_PACK_BUFFER, buffer: Some(id) },
        GlCommand::GetBufferData { target: consts::PIXEL_PACK_BUFFER, size },
        GlCommand::BindBuffer { target: consts::PIXEL_PACK_BUFFER, buffer: None },
    ]
}

/// Destination of device-side pixel copies, read back by the host later.
pub struct PixelPackBuffer {
    id: BufferId,
}

impl PixelPackBuffer {
    /// The device object name.
    pub closed spec fn spec_id(&self) -> BufferId {
        self.id
    }

    /// Creates a buffer of `size_in_bytes` bytes.
    pub fn new(gl: &mut Gl, size_in_bytes: usize) -> (r: Result<PixelPackBuffer, Error>)
        requires
            old(gl).wf(),
        ensures
            final(gl).wf(),
            r is Err <==> old(gl)@.next_name == u32::MAX,
            r is Err ==> r == Err::<PixelPackBuffer, Error>(Error::ResourceCreation) && final(gl)@ == old(gl)@,
            r is Ok ==> r.unwrap().spec_id() == (BufferId { name: old(gl)@.next_name }) && final(gl)@
                == old(gl)@.take_name().issue(create_command(old(gl)@.next_name)).issue_all(
                pack_allocation_commands(r.unwrap().spec_id(), size_in_bytes),
            ),
    {
        let id = create(gl)?;
        let buffer = PixelPackBuffer { id };
        let ghost mid = gl@;
        buffer.bind(gl);
        gl.issue(GlCommand::BufferStorage { target: consts::PIXEL_PACK_BUFFER, size: size_in_bytes, usage: consts::STREAM_READ });
        buffer.unbind(gl);
        assert(gl@ =~= mid.issue_all(pack_allocation_commands(id, size_in_bytes)));
        Ok(buffer)
    }

    /// Copies the first `size_in_bytes` bytes back to the host; the device delivers
    /// them at the copy command.
    pub fn read_pixels(&self, gl: &mut Gl, size_in_bytes: usize)
        ensures
            final(gl).wf() == old(gl).wf(),
            final(gl)@ == old(gl)@.issue_all(pack_read_commands(self.spec_id(), size_in_bytes)),
    {
        self.bind(gl);
        gl.issue(GlCommand::GetBufferData { target: consts::PIXEL_PACK_BUFFER, size: size_in_bytes });
        self.unbind(gl);
        assert(final(gl)@ =~= old(gl)@.issue_all(pack_read_commands(self.id, size_in_bytes)));
    }

    /// Binds the buffer as the destination of pixel copies.
    pub(crate) fn bind(&self, gl: &mut Gl)
        ensures
            final(gl).wf() == old(gl).wf(),
            final(gl)@ == old(gl)@.issue(
                GlCommand::BindBuffer { target: consts::PIXEL_PACK_BUFFER, buffer: Some(self.spec_id()) },
            ),
    {
        gl.issue(GlCommand::BindBuffer { target: consts::PIXEL_PACK_BUFFER, buffer: Some(self.id) });
    }

    /// Unbinds the pixel-pack target.
    pub(crate) fn unbind(&self, gl: &mut Gl)
        ensures
            final(gl).wf() == old(gl).wf(),
            final(gl)@ == old(gl)@.issue(GlCommand::BindBuffer { target: consts::PIXEL_PACK_BUFFER, buffer: None }),
    {
        gl.issue(GlCommand::BindBuffer { target: consts::PIXEL_PACK_BUFFER, buffer: None });
    }

    /// Releases the device buffer.
    pub fn delete(self, gl: &mut Gl)
        ensures
            final(gl).wf() == old(gl).wf(),
            final(gl)@ == old(gl)@.issue(GlCommand::Delete { object: Object::Buffer(self.spec_id()) }),
    {
        gl.delete(Object::Buffer(self.id));
    }
}

} // verus!
