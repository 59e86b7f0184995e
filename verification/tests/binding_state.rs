//! The binding-target state machine: idempotent rebinding and the rejection
//! of overlapping scoped bindings.

use oogl::{
    BufferUsageHint, Context, ContextCapabilities, ContextExtensions, GlCall, OoglError,
    TextureUnit, VertexBuffer,
};

fn capabilities(max_texture_units: u16) -> ContextCapabilities {
    ContextCapabilities {
        renderer: String::from("test renderer"),
        vendor: String::from("test vendor"),
        gl_version: String::from("OpenGL ES 2.0"),
        glsl_version: String::from("OpenGL ES GLSL ES 1.00"),
        extensions: ContextExtensions { gl_khr_debug: true, gl_oes_texture_npot: true },
        max_texture_units,
        max_texture_size: 4096,
        max_vertex_attribs: 16,
        max_debug_object_label_len: 64,
    }
}

fn fresh_context() -> Context {
    Context::new(capabilities(16)).unwrap()
}

fn count_buffer_binds(ctx: &Context) -> usize {
    ctx.calls.iter().filter(|call| matches!(call, GlCall::BindBuffer { .. })).count()
}

#[test]
fn context_creation_issues_no_calls() {
    let ctx = fresh_context();
    assert_eq!(ctx.calls.len(), 0);
    assert_eq!(ctx.active_texture_unit, 0);
    assert_eq!(ctx.free_texture_units.len(), 16);
}

#[test]
fn context_creation_requires_npot_extension() {
    let mut caps = capabilities(16);
    caps.extensions.gl_oes_texture_npot = false;
    assert_eq!(Context::new(caps).unwrap_err(), OoglError::RequiredExtensionMissing);
}

#[test]
fn usable_texture_units_are_bounded() {
    let ctx = Context::new(capabilities(200)).unwrap();
    assert_eq!(ctx.free_texture_units.len(), 16);
    let small = Context::new(capabilities(4)).unwrap();
    assert_eq!(small.free_texture_units.len(), 4);
}

#[test]
fn rebinding_the_same_buffer_issues_one_bind() {
    let mut ctx = fresh_context();
    let buffer = VertexBuffer::<u8>::new(
        &mut ctx,
        BufferUsageHint::StaticDraw,
        vec![oogl::AttribPtr::new(
            0,
            oogl::AttribPtrType { name: oogl::AttribPtrTypeName::U8, len: 1, normalize: false },
        )],
    )
    .unwrap();
    // Construction already bound the handle once.
    assert_eq!(count_buffer_binds(&ctx), 1);

    let binding = buffer.bind(&mut ctx).unwrap();
    binding.unbind(&mut ctx);
    let binding = buffer.bind(&mut ctx).unwrap();
    binding.unbind(&mut ctx);

    // Three bind() calls of the same handle with no intervening bind of a
    // different handle: still exactly one underlying bind command.
    assert_eq!(count_buffer_binds(&ctx), 1);
}

#[test]
fn binding_a_different_buffer_issues_a_new_bind() {
    let mut ctx = fresh_context();
    let attribs = || {
        vec![oogl::AttribPtr::new(
            0,
            oogl::AttribPtrType { name: oogl::AttribPtrTypeName::U8, len: 1, normalize: false },
        )]
    };
    let first = VertexBuffer::<u8>::new(&mut ctx, BufferUsageHint::StaticDraw, attribs()).unwrap();
    let second = VertexBuffer::<u8>::new(&mut ctx, BufferUsageHint::StaticDraw, attribs()).unwrap();
    assert_eq!(count_buffer_binds(&ctx), 2);

    let binding = first.bind(&mut ctx).unwrap();
    binding.unbind(&mut ctx);
    assert_eq!(count_buffer_binds(&ctx), 3);
    let binding = second.bind(&mut ctx).unwrap();
    binding.unbind(&mut ctx);
    assert_eq!(count_buffer_binds(&ctx), 4);
}

#[test]
fn overlapping_bindings_are_rejected() {
    let mut ctx = fresh_context();
    let attribs = || {
        vec![oogl::AttribPtr::new(
            0,
            oogl::AttribPtrType { name: oogl::AttribPtrTypeName::U8, len: 1, normalize: false },
        )]
    };
    let first = VertexBuffer::<u8>::new(&mut ctx, BufferUsageHint::StaticDraw, attribs()).unwrap();
    let second = VertexBuffer::<u8>::new(&mut ctx, BufferUsageHint::StaticDraw, attribs()).unwrap();

    let live = first.bind(&mut ctx).unwrap();
    let calls_before = ctx.calls.len();

    // A second scoped binding on the same target must fail while the first is
    // alive, naming both handles, and must issue no command.
    let error = second.bind(&mut ctx).unwrap_err();
    assert_eq!(
        error,
        OoglError::OverlappingBinding { new_addr: second.addr(), old_addr: first.addr() }
    );
    assert_eq!(ctx.calls.len(), calls_before);

    // Even rebinding the same buffer overlaps with its own live binding.
    assert!(first.bind(&mut ctx).is_err());

    // Once the guard is dropped the target is free again.
    live.unbind(&mut ctx);
    let reborn = second.bind(&mut ctx).unwrap();
    reborn.unbind(&mut ctx);
}

#[test]
fn unbind_completely_leaves_no_trace() {
    let mut ctx = fresh_context();
    let buffer = VertexBuffer::<u8>::new(
        &mut ctx,
        BufferUsageHint::StreamDraw,
        vec![oogl::AttribPtr::new(
            0,
            oogl::AttribPtrType { name: oogl::AttribPtrTypeName::U8, len: 1, normalize: false },
        )],
    )
    .unwrap();
    let binding = buffer.bind(&mut ctx).unwrap();
    binding.unbind_completely(&mut ctx);
    assert_eq!(ctx.bound_vertex_buffer.bound_addr, 0);
    assert!(!ctx.bound_vertex_buffer.is_binding_alive);
    assert_eq!(
        ctx.calls.last(),
        Some(&GlCall::BindBuffer { target: oogl::BindBufferTarget::Vertex, addr: 0 })
    );
}

#[test]
fn texture_unit_pool_pops_and_pushes() {
    let mut ctx = Context::new(capabilities(2)).unwrap();
    let first = TextureUnit::new(&mut ctx).unwrap();
    let second = TextureUnit::new(&mut ctx).unwrap();
    assert_eq!(first.id(), 0);
    assert_eq!(second.id(), 1);
    let error = TextureUnit::new(&mut ctx).unwrap_err();
    assert_eq!(error, OoglError::NoFreeTextureUnits);
    assert_eq!(error.message(), "no free texture units left");
    second.free(&mut ctx);
    let reused = TextureUnit::new(&mut ctx).unwrap();
    assert_eq!(reused.id(), 1);
    reused.free(&mut ctx);
    first.free(&mut ctx);
}

#[test]
fn extension_probe_reads_name_list() {
    let names = vec![
        String::from("GL_OES_texture_npot"),
        String::from("GL_EXT_texture_filter_anisotropic"),
    ];
    let extensions = ContextExtensions::new(&names);
    assert!(extensions.gl_oes_texture_npot);
    assert!(!extensions.gl_khr_debug);
    let with_debug = ContextExtensions::new(&vec![String::from("GL_KHR_debug")]);
    assert!(with_debug.gl_khr_debug);
    assert!(!with_debug.gl_oes_texture_npot);
}

#[test]
fn feature_switches_are_recorded() {
    let mut ctx = fresh_context();
    ctx.set_blending_enabled(true);
    ctx.set_depth_test_enabled(false);
    ctx.set_front_face_winding(oogl::FrontFaceWinding::Clockwise);
    ctx.set_viewport(oogl::math::vec2(0, 0), oogl::math::vec2(640, 480));
    assert_eq!(
        ctx.calls,
        vec![
            GlCall::Enable { feature: oogl::Feature::Blend },
            GlCall::Disable { feature: oogl::Feature::DepthTest },
            GlCall::FrontFace { winding: oogl::FrontFaceWinding::Clockwise },
            GlCall::Viewport { x: 0, y: 0, width: 640, height: 480 },
        ]
    );
    assert_eq!(
        oogl::FrontFaceWinding::Clockwise.opposite(),
        oogl::FrontFaceWinding::CounterClockwise
    );
}
