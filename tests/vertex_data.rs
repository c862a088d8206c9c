use gl_wrapper::binding::{Bouncer, BouncerRegistry, LastBound, ResourceKind, Unbound};
use gl_wrapper::driver::{AttribPointer, BufferData, GlCall, PointerFn};
use gl_wrapper::glenum::{ARRAY_BUFFER, DOUBLE, ELEMENT_ARRAY_BUFFER, ElemType, FLOAT, SHORT, STATIC_DRAW};
use gl_wrapper::render::program::Program;
use gl_wrapper::util::aggregator_obj::{MissingAttributeError, VAO};
use gl_wrapper::util::buffer_obj::{BOFunc, IBO, VBO};

struct Slots {
    last: LastBound,
    program: Bouncer,
    vao: Bouncer,
    vbo: Bouncer,
    ibo: Bouncer,
}

fn slots() -> Slots {
    let mut reg = BouncerRegistry::new();
    Slots {
        last: LastBound::new(),
        program: Bouncer::new(&mut reg, ResourceKind::Program, 0).unwrap(),
        vao: Bouncer::new(&mut reg, ResourceKind::VertexArray, 0).unwrap(),
        vbo: Bouncer::new(&mut reg, ResourceKind::ArrayBuffer, 0).unwrap(),
        ibo: Bouncer::new(&mut reg, ResourceKind::ElementArrayBuffer, 0).unwrap(),
    }
}

fn program_with_attributes(s: &mut Slots, locations: &[i32]) -> Unbound<Program> {
    let p = Program::new(1, 1, 0, &Vec::new()).unwrap();
    let (mut b, _) = p.bind(&mut s.program, &mut s.last);
    for (i, l) in locations.iter().enumerate() {
        b.get_mut().load_attribute(&format!("attr{}", i), *l).unwrap();
    }
    b.release()
}

fn vao_with_attached(s: &mut Slots, indices: &[u32]) -> Unbound<VAO> {
    let vao = VAO::new(2);
    let vbo = VBO::new(3, ElemType::Float, vec![1]);
    let (mut vb, _) = vao.bind(&mut s.vao, &mut s.last);
    let (bb, _) = vbo.bind(&mut s.vbo, &mut s.last);
    for i in indices {
        vb.get_mut().attach_vbo_to_vao(bb.get(), *i, 0, false).unwrap();
    }
    vb.release()
}

fn adapt(s: &mut Slots, required: &[i32], attached: &[u32]) -> Result<Vec<u32>, MissingAttributeError> {
    let p = program_with_attributes(s, required);
    let vao = vao_with_attached(s, attached);
    let (pb, _) = p.bind(&mut s.program, &mut s.last);
    let (mut vb, _) = vao.bind(&mut s.vao, &mut s.last);
    vb.get_mut().adapt_vao_to_program(pb.get())
}

#[test]
fn missing_attribute_is_reported() {
    let mut s = slots();
    assert_eq!(adapt(&mut s, &[0, 1], &[0]), Err(MissingAttributeError { location: 1 }));
    assert_eq!(adapt(&mut s, &[0], &[]), Err(MissingAttributeError { location: 0 }));
}

#[test]
fn attached_attributes_are_enabled() {
    let mut s = slots();
    let mut enable = adapt(&mut s, &[0, 1], &[0, 1]).unwrap();
    enable.sort();
    assert_eq!(enable, vec![0, 1]);
    let mut enable = adapt(&mut s, &[0, 1], &[0, 1, 2]).unwrap();
    enable.sort();
    assert_eq!(enable, vec![0, 1]);
    assert_eq!(adapt(&mut s, &[], &[]), Ok(vec![]));
}

#[test]
fn interleaved_attribute_offset_and_stride() {
    let mut s = slots();
    let vao = VAO::new(2);
    let vbo = VBO::new(3, ElemType::Float, vec![2, 2]);
    let (mut vb, _) = vao.bind(&mut s.vao, &mut s.last);
    let (bb, _) = vbo.bind(&mut s.vbo, &mut s.last);
    let second = vb.get_mut().attach_vbo_to_vao(bb.get(), 1, 1, false).unwrap();
    assert_eq!(
        second,
        AttribPointer { func: PointerFn::Float, index: 1, size: 2, gl_type: FLOAT, stride: 16, offset: 8 }
    );
    let first = vb.get_mut().attach_vbo_to_vao(bb.get(), 0, 0, false).unwrap();
    assert_eq!(first.offset, 0);
    assert_eq!(first.stride, 16);
    assert_eq!(vb.get().get_attached(), &vec![1, 0]);
    assert!(vb.get().is_attached(0));
    assert!(!vb.get().is_attached(2));
}

#[test]
fn pointer_call_follows_element_type() {
    let mut s = slots();
    let vao = VAO::new(2);
    let (mut vb, _) = vao.bind(&mut s.vao, &mut s.last);
    let ints = VBO::new(3, ElemType::Short, vec![3, 1]);
    let (ib, _) = ints.bind(&mut s.vbo, &mut s.last);
    let kept = vb.get_mut().attach_vbo_to_vao(ib.get(), 4, 1, false).unwrap();
    assert_eq!(
        kept,
        AttribPointer { func: PointerFn::Integer, index: 4, size: 1, gl_type: SHORT, stride: 8, offset: 6 }
    );
    let converted = vb.get_mut().attach_vbo_to_vao(ib.get(), 5, 0, true).unwrap();
    assert_eq!(converted.func, PointerFn::Float);
    drop(ib);
    let doubles = VBO::new(4, ElemType::Double, vec![1, 3]);
    let (db, _) = doubles.bind(&mut s.vbo, &mut s.last);
    let long = vb.get_mut().attach_vbo_to_vao(db.get(), 6, 1, true).unwrap();
    assert_eq!(
        long,
        AttribPointer { func: PointerFn::Long, index: 6, size: 3, gl_type: DOUBLE, stride: 32, offset: 8 }
    );
}

#[test]
fn oversized_stride_is_refused() {
    let mut s = slots();
    let vao = VAO::new(2);
    let (mut vb, _) = vao.bind(&mut s.vao, &mut s.last);
    let big = VBO::new(3, ElemType::Double, vec![255u8; 1_100_000]);
    let (bb, _) = big.bind(&mut s.vbo, &mut s.last);
    let r = vb.get_mut().attach_vbo_to_vao(bb.get(), 0, 0, false);
    assert_eq!(r, Err("Stride of vertex data too big for opengl!".to_string()));
    assert!(vb.get().get_attached().is_empty());
}

#[test]
fn vertex_buffer_upload_and_vertex_count() {
    let mut s = slots();
    let (vbo, calls) =
        VBO::with_data(&mut s.vbo, &mut s.last, 9, ElemType::Float, vec![2, 2], 8, STATIC_DRAW).unwrap();
    assert_eq!(calls.len(), 2);
    assert_eq!(
        calls[1],
        GlCall::BufferData(BufferData { target: ARRAY_BUFFER, byte_len: 32, usage: STATIC_DRAW })
    );
    let (b, _) = vbo.bind(&mut s.vbo, &mut s.last);
    assert_eq!(b.get().get_size(), 8);
    assert_eq!(b.get().get_num_of_vertices(), 2);
    assert_eq!(b.get().get_elem_type(), ElemType::Float);
}

#[test]
fn buffer_upload_too_large_is_refused() {
    let mut s = slots();
    let vbo = VBO::new(3, ElemType::Double, vec![1]);
    let (mut b, _) = vbo.bind(&mut s.vbo, &mut s.last);
    let r = b.get_mut().upload_to_bound_bo(usize::MAX / 4, STATIC_DRAW);
    assert_eq!(r, Err("Too many elements in data slice for opengl!".to_string()));
    assert_eq!(b.get().get_size(), 0);
    let ok = b.get_mut().upload_to_bound_bo(5, STATIC_DRAW).unwrap();
    assert_eq!(ok.byte_len, 40);
}

#[test]
fn index_buffer_upload() {
    let mut s = slots();
    let (ibo, calls) = IBO::with_data(&mut s.ibo, &mut s.last, 4, ElemType::UnsignedShort, 6, STATIC_DRAW).unwrap();
    assert_eq!(
        calls[1],
        GlCall::BufferData(BufferData { target: ELEMENT_ARRAY_BUFFER, byte_len: 12, usage: STATIC_DRAW })
    );
    let (mut b, call) = ibo.bind(&mut s.ibo, &mut s.last);
    assert_eq!(call.target, ELEMENT_ARRAY_BUFFER);
    assert_eq!(b.get().get_size(), 6);
    let r = b.get_mut().upload_to_bo(3, STATIC_DRAW).unwrap();
    assert_eq!(r, BufferData { target: ELEMENT_ARRAY_BUFFER, byte_len: 6, usage: STATIC_DRAW });
    assert_eq!(b.get().get_size(), 3);
    assert!(IBO::with_data(&mut s.ibo, &mut s.last, 5, ElemType::Int, usize::MAX, STATIC_DRAW).is_err());
}
