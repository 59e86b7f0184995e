//! The supporting modules: math helpers, diagnostics, debug labels, the
//! random source, the time sampler and the framebuffer.

use oogl::math::{
    color, colorn, vec2, vec3, vec4, Clamp2, Clamp2Abs, Lerp, Mat4, NumCastFrom, NumCastInto,
    RangeMap, Vec2,
};
use oogl::{
    decimal_string, get_debug_label, set_debug_label, Context, ContextCapabilities,
    ContextExtensions, Framebuffer, FramebufferStatus, GlCall, GlobalRandom, OoglError, Shader,
    ShaderType,
};
use std::time::Duration;

fn capabilities(with_debug: bool) -> ContextCapabilities {
    ContextCapabilities {
        renderer: String::from("test renderer"),
        vendor: String::from("test vendor"),
        gl_version: String::from("OpenGL ES 2.0"),
        glsl_version: String::from("OpenGL ES GLSL ES 1.00"),
        extensions: ContextExtensions { gl_khr_debug: with_debug, gl_oes_texture_npot: true },
        max_texture_units: 16,
        max_texture_size: 4096,
        max_vertex_attribs: 16,
        max_debug_object_label_len: 8,
    }
}

#[test]
fn vectors_compute_exact_integer_products() {
    let a: Vec2<i32> = vec2(3, -4);
    let b: Vec2<i32> = vec2(2, 5);
    assert_eq!(a.dot(b), -14);
    assert_eq!(a.sqr_length(), 25);
    assert_eq!(a.sqr_distance(b), 82);
    assert_eq!(a.map(|n: i32| n * 10), vec2(30, -40));
    assert_eq!(vec2(7, 7), oogl::math::vec2n(7));
    assert_eq!(vec3(1, 2, 3).z, 3);
    assert_eq!(vec4(1, 2, 3, 4).w, 4);
}

#[test]
fn colors_keep_their_components() {
    let c = color(1u8, 2, 3, 4);
    assert_eq!((c.r, c.g, c.b, c.a), (1, 2, 3, 4));
    assert_eq!(colorn(9u8, 255), color(9, 9, 9, 255));
    assert_eq!(c.with_alpha(77), color(1, 2, 3, 77));
}

#[test]
fn numeric_helpers_compute_their_formulas() {
    assert_eq!(10i32.clamp2(0, 5), 5);
    assert_eq!((-10i32).clamp2(0, 5), 0);
    assert_eq!(3i32.clamp2(0, 5), 3);
    // Inverted bounds resolve towards the upper bound, as the formula says.
    assert_eq!(7u32.clamp2(9, 2), 2);
    assert_eq!(5i32.clamp2_abs(3), 3);
    assert_eq!((-5i32).clamp2_abs(3), -3);
    assert_eq!(0i64.lerp(10, 3), 30);
    assert_eq!(10i32.lerp(20, 1), 20);
    assert_eq!(5u32.range_map((0, 10), (0, 100)), 50);
    assert_eq!(15u64.range_map((10, 20), (100, 200)), 150);
    assert_eq!(u32::cast_from(200u8), 200u32);
    let widened: u64 = 41u16.cast_into();
    assert_eq!(widened, 41);
}

#[test]
fn matrices_hold_their_columns() {
    let m: Mat4<i32> = Mat4::new(1, 2, 3, 4, 5, 6, 7, 8, 9, 10, 11, 12, 13, 14, 15, 16);
    assert_eq!(m.x.x, 1);
    assert_eq!(m.y.w, 8);
    assert_eq!(m.w.z, 15);
}

#[test]
fn decimal_rendering_matches_the_values() {
    assert_eq!(decimal_string(0), "0");
    assert_eq!(decimal_string(7), "7");
    assert_eq!(decimal_string(12345), "12345");
    assert_eq!(decimal_string(u128::MAX), "340282366920938463463374607431768211455");
}

#[test]
fn error_messages_name_the_offending_values() {
    let error = OoglError::OverlappingBinding { new_addr: 12, old_addr: 7 };
    assert_eq!(
        error.message(),
        "attempt to bind object #12 while the binding of object #7 is still alive"
    );
    let label = OoglError::LabelTooLong { len: 80, max_len: -1 };
    assert!(label.message().contains("80"));
    assert!(label.message().contains("-1"));
}

#[test]
fn debug_labels_round_trip_where_the_extension_is_present() {
    let mut ctx = Context::new(capabilities(true)).unwrap();
    let shader = Shader::new(&mut ctx, ShaderType::Vertex);
    assert_eq!(get_debug_label(&ctx, &shader), Vec::<u8>::new());
    set_debug_label(&mut ctx, &shader, b"quad").unwrap();
    assert_eq!(get_debug_label(&ctx, &shader), b"quad".to_vec());
    assert!(matches!(
        ctx.calls.last(),
        Some(GlCall::ObjectLabel { label_len: 4, .. })
    ));

    // Overwriting replaces the label; other objects are untouched.
    let other = Shader::new(&mut ctx, ShaderType::Fragment);
    set_debug_label(&mut ctx, &other, b"fill").unwrap();
    set_debug_label(&mut ctx, &shader, b"tri").unwrap();
    assert_eq!(get_debug_label(&ctx, &shader), b"tri".to_vec());
    assert_eq!(get_debug_label(&ctx, &other), b"fill".to_vec());

    // The capability probe reported at most 8 bytes.
    let error = set_debug_label(&mut ctx, &shader, b"very long label").unwrap_err();
    assert_eq!(error, OoglError::LabelTooLong { len: 15, max_len: 8 });

    // An embedded terminator byte is misuse.
    let error = set_debug_label(&mut ctx, &shader, b"a\0b").unwrap_err();
    assert_eq!(error, OoglError::LabelHasNulByte);

    oogl::unset_object_debug_label(&mut ctx, oogl::ObjectNamespace::Shader, shader.addr());
    assert_eq!(get_debug_label(&ctx, &shader), Vec::<u8>::new());
}

#[test]
fn debug_labels_degrade_to_no_ops_without_the_extension() {
    let mut ctx = Context::new(capabilities(false)).unwrap();
    let shader = Shader::new(&mut ctx, ShaderType::Vertex);
    let calls_before = ctx.calls.len();
    set_debug_label(&mut ctx, &shader, b"anything at all, even very long").unwrap();
    assert_eq!(get_debug_label(&ctx, &shader), Vec::<u8>::new());
    assert_eq!(ctx.calls.len(), calls_before);
}

#[test]
fn framebuffers_bind_and_report_their_status() {
    let mut ctx = Context::new(capabilities(false)).unwrap();
    let framebuffer = Framebuffer::new(&mut ctx);
    let binding = framebuffer.bind(&mut ctx).unwrap();
    assert_eq!(binding.status(&ctx), FramebufferStatus::Complete);
    ctx.replies.framebuffer_status = FramebufferStatus::IncompleteMissingAttachment;
    assert_eq!(binding.status(&ctx), FramebufferStatus::IncompleteMissingAttachment);
    binding.unbind_completely(&mut ctx);
    assert_eq!(ctx.bound_framebuffer.bound_addr, 0);
    let addr = framebuffer.addr();
    framebuffer.delete(&mut ctx);
    assert_eq!(ctx.calls.last(), Some(&GlCall::DeleteFramebuffer { addr }));
}

#[test]
fn random_ranges_stay_inside_their_bounds() {
    let mut random = GlobalRandom::init().unwrap();
    for _ in 0..200 {
        let value = random.next_u64_in_range(10..20);
        assert!((10..20).contains(&value));
        let signed = random.next_i64_in_range(-5..5);
        assert!((-5..5).contains(&signed));
    }
    // A one-element range can only yield that element.
    assert_eq!(random.next_u64_in_range(42..43), 42);
    assert_eq!(random.next_i64_in_range(-9..-8), -9);
}

#[test]
fn random_fill_keeps_the_length_and_writes_the_buffer() {
    let mut random = GlobalRandom::init().unwrap();
    let mut buffer = vec![0u8; 64];
    random.fill_bytes(&mut buffer);
    assert_eq!(buffer.len(), 64);
    // All 64 bytes zero after a random fill is as good as impossible.
    assert!(buffer.iter().any(|byte| *byte != 0));
    let _ = random.next_bool();
    let _ = random.next_u8();
    let _ = random.next_i8();
    let _ = random.next_u16();
    let _ = random.next_i16();
    let _ = random.next_u32();
    let _ = random.next_i32();
    let _ = random.next_usize();
    let _ = random.next_isize();
}

#[test]
fn time_samples_roll_through_a_bounded_ring() {
    let mut sampler = oogl::AverageTimeSampler::new(2);
    assert_eq!(sampler.samples().len(), 0);
    assert_eq!(sampler.average_nanos(), 0);
    sampler.push(Duration::from_nanos(100));
    sampler.push(Duration::from_nanos(300));
    assert_eq!(sampler.samples().len(), 2);
    assert_eq!(sampler.average_nanos(), 200);
    // The ring is full: the next sample overwrites the oldest one.
    sampler.push(Duration::from_nanos(500));
    assert_eq!(sampler.samples().len(), 2);
    assert_eq!(sampler.average_nanos(), 400);
    assert_eq!(sampler.average_micros(), 0);
    sampler.push(Duration::from_millis(2));
    assert_eq!(sampler.average_millis(), 1);
    let result = sampler.measure(|| 6 * 7);
    assert_eq!(result, 42);
    assert_eq!(sampler.samples().len(), 2);
}

#[test]
fn results_map_on_both_sides() {
    let doubled = oogl::result_map_both(Ok::<i32, i32>(21), |n: i32| n * 2);
    assert_eq!(doubled, Ok(42));
    let doubled = oogl::result_map_both(Err::<i32, i32>(-3), |n: i32| n * 2);
    assert_eq!(doubled, Err(-6));
}
