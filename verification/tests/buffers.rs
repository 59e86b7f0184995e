//! Buffer construction, uploads, the read-back round trip and draws.

use oogl::{
    AttribPtr, AttribPtrType, AttribPtrTypeName, BindBufferTarget, BufferUsageHint, Context,
    ContextCapabilities, ContextExtensions, DrawPrimitive, ElementBuffer, GlCall, OoglError,
    Program, VertexBuffer,
};

fn capabilities() -> ContextCapabilities {
    ContextCapabilities {
        renderer: String::from("test renderer"),
        vendor: String::from("test vendor"),
        gl_version: String::from("OpenGL ES 2.0"),
        glsl_version: String::from("OpenGL ES GLSL ES 1.00"),
        extensions: ContextExtensions { gl_khr_debug: false, gl_oes_texture_npot: true },
        max_texture_units: 16,
        max_texture_size: 4096,
        max_vertex_attribs: 16,
        max_debug_object_label_len: 0,
    }
}

fn fresh_context() -> Context {
    Context::new(capabilities()).unwrap()
}

fn float_pair_attrib(location: u32) -> AttribPtr {
    AttribPtr::new(
        location,
        AttribPtrType { name: AttribPtrTypeName::F32, len: 2, normalize: false },
    )
}

#[test]
fn stride_mismatch_fails_naming_both_sizes() {
    let mut ctx = fresh_context();
    // One four-byte attribute plus one three-byte attribute: 7 bytes, while
    // the declared vertex type has 8.
    let attribs = vec![
        AttribPtr::new(
            0,
            AttribPtrType { name: AttribPtrTypeName::F32, len: 1, normalize: false },
        ),
        AttribPtr::new(
            1,
            AttribPtrType { name: AttribPtrTypeName::U8, len: 3, normalize: false },
        ),
    ];
    let calls_before = ctx.calls.len();
    let error = VertexBuffer::<[f32; 2]>::new(&mut ctx, BufferUsageHint::StaticDraw, attribs)
        .unwrap_err();
    assert_eq!(error, OoglError::StrideMismatch { stride: 7, vertex_size: 8 });
    let message = error.message();
    assert!(message.contains("(7 bytes)"));
    assert!(message.contains("(8 bytes)"));
    // Construction failed before any command was issued.
    assert_eq!(ctx.calls.len(), calls_before);
}

#[test]
fn matching_stride_builds_the_buffer() {
    let mut ctx = fresh_context();
    let buffer =
        VertexBuffer::<[f32; 2]>::new(&mut ctx, BufferUsageHint::StaticDraw, vec![
            float_pair_attrib(0),
        ])
        .unwrap();
    assert_eq!(buffer.stride(), 8);
    assert_eq!(buffer.len(), 0);
    assert!(buffer.is_empty());
    assert_eq!(buffer.usage_hint(), BufferUsageHint::StaticDraw);
    assert_eq!(buffer.attribs().len(), 1);
}

#[test]
fn set_slice_length_mismatch_fails_without_upload() {
    let mut ctx = fresh_context();
    let mut buffer =
        ElementBuffer::<u8>::new(&mut ctx, BufferUsageHint::DynamicDraw);
    let binding = buffer.bind(&mut ctx).unwrap();
    binding.reserve_data(&mut ctx, &mut buffer, 4);
    let calls_before = ctx.calls.clone();

    // Writing the whole buffer with a slice of the wrong length must fail
    // fatally, naming both lengths, and must not issue any upload command.
    let error = binding.set(&mut ctx, &mut buffer, &[1u8, 2, 3]).unwrap_err();
    assert_eq!(error, OoglError::DataLengthMismatch { slice_len: 3, range_len: 4 });
    assert!(error.message().contains("(3)"));
    assert!(error.message().contains("(4)"));
    assert_eq!(ctx.calls, calls_before);
    binding.unbind(&mut ctx);
}

#[test]
fn vertex_set_slice_mismatch_fails_without_upload() {
    let mut ctx = fresh_context();
    let mut buffer =
        VertexBuffer::<u8>::new(&mut ctx, BufferUsageHint::DynamicDraw, vec![AttribPtr::new(
            0,
            AttribPtrType { name: AttribPtrTypeName::U8, len: 1, normalize: false },
        )])
        .unwrap();
    let binding = buffer.bind(&mut ctx).unwrap();
    binding.alloc_and_set(&mut ctx, &mut buffer, &[9u8, 9, 9, 9]);
    let calls_before = ctx.calls.clone();

    // The range 1..3 holds two elements; three are supplied.
    let error = binding.set_slice(&mut ctx, &mut buffer, 1..3, &[1u8, 2, 3]).unwrap_err();
    assert_eq!(error, OoglError::DataLengthMismatch { slice_len: 3, range_len: 2 });
    assert_eq!(ctx.calls, calls_before);

    // An out-of-bounds range is rejected the same way.
    let error = binding.set_slice(&mut ctx, &mut buffer, 2..9, &[0u8; 7]).unwrap_err();
    assert_eq!(error, OoglError::RangeOutOfBounds { start: 2, end: 9, len: 4 });
    assert_eq!(ctx.calls, calls_before);
    binding.unbind(&mut ctx);
}

#[test]
fn upload_read_back_round_trip() {
    let mut ctx = fresh_context();
    let mut buffer = ElementBuffer::<u8>::new(&mut ctx, BufferUsageHint::StaticDraw);
    let binding = buffer.bind(&mut ctx).unwrap();
    let payload: Vec<u8> = vec![11, 22, 33, 44, 55];
    binding.alloc_and_set(&mut ctx, &mut buffer, &payload);
    binding.unbind(&mut ctx);
    assert_eq!(buffer.read_back(), Some(payload));
}

#[test]
fn read_back_follows_partial_overwrites() {
    let mut ctx = fresh_context();
    let mut buffer =
        VertexBuffer::<u8>::new(&mut ctx, BufferUsageHint::DynamicDraw, vec![AttribPtr::new(
            0,
            AttribPtrType { name: AttribPtrTypeName::U8, len: 1, normalize: false },
        )])
        .unwrap();
    let binding = buffer.bind(&mut ctx).unwrap();

    // Plain allocation leaves the contents undefined: nothing to read back.
    binding.reserve_data(&mut ctx, &mut buffer, 4);
    assert_eq!(buffer.read_back(), None);

    // A whole-storage overwrite defines every element.
    binding.set(&mut ctx, &mut buffer, &[1u8, 2, 3, 4]).unwrap();
    assert_eq!(buffer.read_back(), Some(vec![1u8, 2, 3, 4]));

    // A partial overwrite splices into the known contents.
    binding.set_slice(&mut ctx, &mut buffer, 1..3, &[8u8, 9]).unwrap();
    assert_eq!(buffer.read_back(), Some(vec![1u8, 8, 9, 4]));

    // Orphaning discards the contents again.
    binding.orphan_data(&mut ctx, &mut buffer);
    assert_eq!(buffer.read_back(), None);
    binding.unbind(&mut ctx);
}

#[test]
fn single_attribute_quad_draw_scenario() {
    let mut ctx = fresh_context();

    // A vertex buffer with a single two-float attribute and a two-float
    // vertex type: stride 8 matches.
    let mut buffer =
        VertexBuffer::<[f32; 2]>::new(&mut ctx, BufferUsageHint::StaticDraw, vec![
            float_pair_attrib(0),
        ])
        .unwrap();

    let program = Program::new(&mut ctx);
    let program_binding = program.bind(&mut ctx).unwrap();

    let binding = buffer.bind(&mut ctx).unwrap();
    binding.reserve_data(&mut ctx, &mut buffer, 4);
    binding.configure_attribs(&mut ctx, &buffer);
    binding.enable_attribs(&mut ctx, &buffer);
    binding.draw(&mut ctx, &buffer, &program_binding, DrawPrimitive::TriangleFan);
    binding.unbind(&mut ctx);
    program_binding.unbind(&mut ctx);

    // Exactly one allocation and one draw were recorded.
    let allocations: Vec<&GlCall> =
        ctx.calls.iter().filter(|call| matches!(call, GlCall::BufferData { .. })).collect();
    assert_eq!(allocations.len(), 1);
    assert_eq!(
        allocations[0],
        &GlCall::BufferData {
            target: BindBufferTarget::Vertex,
            byte_len: 32,
            usage: BufferUsageHint::StaticDraw,
            with_data: false,
        }
    );
    let draws: Vec<&GlCall> =
        ctx.calls.iter().filter(|call| matches!(call, GlCall::DrawArrays { .. })).collect();
    assert_eq!(draws.len(), 1);
    assert_eq!(
        draws[0],
        &GlCall::DrawArrays { mode: DrawPrimitive::TriangleFan, first: 0, count: 4 }
    );
    // The attribute layout was described and enabled at location 0.
    assert!(ctx.calls.contains(&GlCall::VertexAttribPointer {
        location: 0,
        size: 2,
        scalar_type: AttribPtrTypeName::F32,
        normalize: false,
        stride: 8,
        offset: 0,
    }));
    assert!(ctx.calls.contains(&GlCall::EnableVertexAttribArray { location: 0 }));
}

#[test]
fn inactive_attributes_are_skipped() {
    let mut ctx = fresh_context();
    let attribs = vec![
        AttribPtr::new(
            oogl::INACTIVE_ATTRIB_LOCATION,
            AttribPtrType { name: AttribPtrTypeName::F32, len: 1, normalize: false },
        ),
        AttribPtr::new(
            3,
            AttribPtrType { name: AttribPtrTypeName::F32, len: 1, normalize: false },
        ),
    ];
    assert!(!attribs[0].is_active());
    assert!(attribs[1].is_active());
    let buffer =
        VertexBuffer::<[f32; 2]>::new(&mut ctx, BufferUsageHint::StaticDraw, attribs).unwrap();
    let binding = buffer.bind(&mut ctx).unwrap();
    let calls_before = ctx.calls.len();
    binding.configure_attribs(&mut ctx, &buffer);
    binding.enable_attribs(&mut ctx, &buffer);
    binding.disable_attribs(&mut ctx, &buffer);
    binding.unbind(&mut ctx);

    // Only the active attribute produced commands, and its offset counts the
    // skipped attribute's four bytes.
    assert_eq!(ctx.calls.len(), calls_before + 3);
    assert_eq!(
        &ctx.calls[calls_before..],
        &[
            GlCall::VertexAttribPointer {
                location: 3,
                size: 1,
                scalar_type: AttribPtrTypeName::F32,
                normalize: false,
                stride: 8,
                offset: 4,
            },
            GlCall::EnableVertexAttribArray { location: 3 },
            GlCall::DisableVertexAttribArray { location: 3 },
        ]
    );
}

#[test]
fn element_buffer_draws_use_the_index_width() {
    let mut ctx = fresh_context();
    let mut buffer = ElementBuffer::<u16>::new(&mut ctx, BufferUsageHint::StaticDraw);
    let program = Program::new(&mut ctx);
    let program_binding = program.bind(&mut ctx).unwrap();
    let binding = buffer.bind(&mut ctx).unwrap();
    binding.alloc_and_set(&mut ctx, &mut buffer, &[0u16, 1, 2, 2, 1, 3]);
    binding.draw(&mut ctx, &buffer, &program_binding, DrawPrimitive::Triangles);
    binding.draw_slice(&mut ctx, &buffer, &program_binding, DrawPrimitive::Triangles, 3..6)
        .unwrap();
    let error = binding
        .draw_slice(&mut ctx, &buffer, &program_binding, DrawPrimitive::Triangles, 4..9)
        .unwrap_err();
    assert_eq!(error, OoglError::RangeOutOfBounds { start: 4, end: 9, len: 6 });
    binding.unbind(&mut ctx);
    program_binding.unbind(&mut ctx);

    assert!(ctx.calls.contains(&GlCall::DrawElements {
        mode: DrawPrimitive::Triangles,
        count: 6,
        element_type: oogl::DrawElementsType::U16,
        byte_offset: 0,
    }));
    assert!(ctx.calls.contains(&GlCall::DrawElements {
        mode: DrawPrimitive::Triangles,
        count: 3,
        element_type: oogl::DrawElementsType::U16,
        byte_offset: 6,
    }));
}

#[test]
fn buffer_deletion_is_recorded() {
    let mut ctx = fresh_context();
    let buffer = ElementBuffer::<u8>::new(&mut ctx, BufferUsageHint::StaticDraw);
    let addr = buffer.addr();
    buffer.delete(&mut ctx);
    assert_eq!(ctx.calls.last(), Some(&GlCall::DeleteBuffer { addr }));
}

#[test]
fn element_buffer_slices_splice_into_the_mirror() {
    let mut ctx = fresh_context();
    let mut buffer = ElementBuffer::<u16>::new(&mut ctx, BufferUsageHint::DynamicDraw);
    let binding = buffer.bind(&mut ctx).unwrap();
    binding.alloc_and_set(&mut ctx, &mut buffer, &[1u16, 2, 3, 4]);
    binding.set_slice(&mut ctx, &mut buffer, 2..4, &[30u16, 40]).unwrap();
    assert_eq!(buffer.read_back(), Some(vec![1u16, 2, 30, 40]));
    assert_eq!(
        ctx.calls.last(),
        Some(&GlCall::BufferSubData {
            target: BindBufferTarget::Element,
            byte_offset: 4,
            byte_len: 4,
        })
    );
    binding.orphan_data(&mut ctx, &mut buffer);
    assert_eq!(buffer.read_back(), None);
    binding.unbind(&mut ctx);
}
