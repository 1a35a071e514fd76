use gpu_core::consts;
use gpu_core::{
    BufferId, ElementBuffer, ElementKind, Error, Gl, GlCommand, Object, PixelPackBuffer, UniformBuffer, VertexBuffer,
};

fn bits(values: &[f32]) -> Vec<u32> {
    values.iter().map(|v| v.to_bits()).collect()
}

#[test]
fn vertex_buffer_static_upload() {
    let mut gl = Gl::new(false);
    let data = bits(&[0.0, 1.0, -1.0]);
    let b = VertexBuffer::new_with_static_f32(&mut gl, &data).unwrap();
    let id = BufferId { name: 1 };
    let expected = vec![
        GlCommand::Create { object: Object::Buffer(id) },
        GlCommand::BindBuffer { target: consts::ARRAY_BUFFER, buffer: Some(id) },
        GlCommand::BufferData { target: consts::ARRAY_BUFFER, kind: ElementKind::F32, data: data.clone(), usage: consts::STATIC_DRAW },
        GlCommand::BindBuffer { target: consts::ARRAY_BUFFER, buffer: None },
    ];
    assert_eq!(gl.commands(), &expected);
    b.delete(&mut gl);
    assert_eq!(gl.commands().last().unwrap(), &GlCommand::Delete { object: Object::Buffer(id) });
}

#[test]
fn vertex_buffer_dynamic_refill() {
    let mut gl = Gl::new(false);
    let mut b = VertexBuffer::new_with_dynamic_f32(&mut gl, &bits(&[1.0])).unwrap();
    let data = bits(&[2.0, 3.0]);
    b.fill_with_dynamic_f32(&mut gl, &data);
    assert_eq!(
        gl.commands()[gl.commands().len() - 2],
        GlCommand::BufferData { target: consts::ARRAY_BUFFER, kind: ElementKind::F32, data, usage: consts::DYNAMIC_DRAW }
    );
}

#[test]
fn element_buffer_counts_indices() {
    let mut gl = Gl::new(false);
    let mut b = ElementBuffer::new_with_u32(&mut gl, &[0, 1, 2, 2, 1, 3]).unwrap();
    assert_eq!(b.count(), 6);
    b.fill_with_u32(&mut gl, &[0, 1, 2]);
    assert_eq!(b.count(), 3);
    assert_eq!(
        gl.commands()[gl.commands().len() - 2],
        GlCommand::BufferData {
            target: consts::ELEMENT_ARRAY_BUFFER,
            kind: ElementKind::U32,
            data: vec![0, 1, 2],
            usage: consts::STATIC_DRAW,
        }
    );
}

#[test]
fn element_buffer_creation_fails_without_names() {
    let mut gl = Gl::starting_at(false, u32::MAX);
    assert!(matches!(ElementBuffer::new_with_u32(&mut gl, &[1]), Err(Error::ResourceCreation)));
}

#[test]
fn uniform_slots_follow_sizes() {
    let mut gl = Gl::new(false);
    let b = UniformBuffer::new(&mut gl, &[4, 16, 3]).unwrap();
    assert_eq!(b.get(0).unwrap().len(), 4);
    assert_eq!(b.get(1).unwrap().len(), 16);
    assert_eq!(b.get(2).unwrap().len(), 3);
    assert!(b.get(2).unwrap().iter().all(|v| *v == 0));
    assert!(matches!(b.get(3), Err(Error::InvalidSlot)));
}

#[test]
fn uniform_update_then_get_round_trips() {
    let mut gl = Gl::new(false);
    let mut b = UniformBuffer::new(&mut gl, &[2, 3, 1]).unwrap();
    let slots = [bits(&[1.0, 2.0]), bits(&[3.0, 4.0, 5.0]), bits(&[6.0])];
    for (i, data) in slots.iter().enumerate() {
        assert_eq!(b.update(&mut gl, i, data), Ok(()));
    }
    for (i, data) in slots.iter().enumerate() {
        assert_eq!(b.get(i).unwrap(), &data[..]);
    }
    let whole = bits(&[1.0, 2.0, 3.0, 4.0, 5.0, 6.0]);
    assert_eq!(
        gl.commands()[gl.commands().len() - 2],
        GlCommand::BufferData { target: consts::UNIFORM_BUFFER, kind: ElementKind::F32, data: whole, usage: consts::STATIC_DRAW }
    );
}

#[test]
fn uniform_update_rejects_wrong_lengths() {
    let mut gl = Gl::new(false);
    let mut b = UniformBuffer::new(&mut gl, &[2, 3]).unwrap();
    let before = gl.commands().len();
    for len in [0usize, 1, 3, 4] {
        assert_eq!(b.update(&mut gl, 0, &vec![1u32; len]), Err(Error::SizeMismatch));
    }
    for len in [0usize, 2, 4] {
        assert_eq!(b.update(&mut gl, 1, &vec![1u32; len]), Err(Error::SizeMismatch));
    }
    assert_eq!(b.update(&mut gl, 2, &[1]), Err(Error::InvalidSlot));
    assert_eq!(gl.commands().len(), before);
    assert_eq!(b.get(0).unwrap(), &[0, 0]);
}

#[test]
fn pixel_pack_buffer_allocates_and_reads() {
    let mut gl = Gl::new(false);
    let b = PixelPackBuffer::new(&mut gl, 48).unwrap();
    let id = BufferId { name: 1 };
    assert_eq!(
        gl.commands()[2],
        GlCommand::BufferStorage { target: consts::PIXEL_PACK_BUFFER, size: 48, usage: consts::STREAM_READ }
    );
    b.read_pixels(&mut gl, 48);
    let n = gl.commands().len();
    assert_eq!(gl.commands()[n - 3], GlCommand::BindBuffer { target: consts::PIXEL_PACK_BUFFER, buffer: Some(id) });
    assert_eq!(gl.commands()[n - 2], GlCommand::GetBufferData { target: consts::PIXEL_PACK_BUFFER, size: 48 });
    assert_eq!(gl.commands()[n - 1], GlCommand::BindBuffer { target: consts::PIXEL_PACK_BUFFER, buffer: None });
}
