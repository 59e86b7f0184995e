//! Shader and program lifecycles, reflection and typed handles.

use oogl::math::Vec2;
use oogl::{
    ActiveAttrib, ActiveUniform, Attrib, Context, ContextCapabilities, ContextExtensions, GlCall,
    GlslType, GlslTypeName, OoglError, Program, ReflectedHandle, ReflectionEntry, ReflectionKind,
    Shader, ShaderType, TextureUnit, Uniform,
};

fn capabilities() -> ContextCapabilities {
    ContextCapabilities {
        renderer: String::from("test renderer"),
        vendor: String::from("test vendor"),
        gl_version: String::from("OpenGL ES 2.0"),
        glsl_version: String::from("OpenGL ES GLSL ES 1.00"),
        extensions: ContextExtensions { gl_khr_debug: false, gl_oes_texture_npot: true },
        max_texture_units: 16,
        max_texture_size: 4096,
        max_vertex_attribs: 16,
        max_debug_object_label_len: 0,
    }
}

fn fresh_context() -> Context {
    Context::new(capabilities()).unwrap()
}

fn uniform_entry(name: &str, declared: GlslTypeName, location: i32) -> ActiveUniform {
    ActiveUniform {
        name: String::from(name),
        data_type_name: declared,
        array_len: 1,
        location,
    }
}

#[test]
fn shader_source_round_trips() {
    let mut ctx = fresh_context();
    let mut shader = Shader::new(&mut ctx, ShaderType::Vertex);
    assert_eq!(shader.type_(), ShaderType::Vertex);
    let source = b"void main() { gl_Position = vec4(0.0); }";
    shader.set_source(&mut ctx, source);
    assert_eq!(shader.get_source(), source.to_vec());
    assert_eq!(
        ctx.calls.last(),
        Some(&GlCall::ShaderSource { addr: shader.addr(), byte_len: source.len() })
    );
}

#[test]
fn compile_and_link_report_the_driver_status_with_logs() {
    let mut ctx = fresh_context();
    let shader = Shader::new(&mut ctx, ShaderType::Fragment);
    let program = Program::new(&mut ctx);
    program.attach_shader(&mut ctx, &shader);

    // The model driver accepts everything by default.
    assert!(shader.compile(&mut ctx));
    assert!(program.link(&mut ctx));

    // A failing driver still hands out its diagnostics.
    ctx.replies.compile_status = false;
    ctx.replies.link_status = false;
    ctx.replies.info_log = b"0:1: syntax error".to_vec();
    assert!(!shader.compile(&mut ctx));
    assert!(!program.link(&mut ctx));
    assert_eq!(shader.get_info_log(&ctx), b"0:1: syntax error".to_vec());
    assert_eq!(program.get_info_log(&ctx), b"0:1: syntax error".to_vec());

    program.detach_shader(&mut ctx, &shader);
    assert!(ctx.calls.contains(&GlCall::CompileShader { addr: shader.addr() }));
    assert!(ctx.calls.contains(&GlCall::LinkProgram { addr: program.addr() }));
    assert!(ctx.calls.contains(&GlCall::AttachShader {
        program_addr: program.addr(),
        shader_addr: shader.addr(),
    }));
    shader.delete(&mut ctx);
    program.delete(&mut ctx);
}

#[test]
fn reflection_strips_the_array_marker() {
    let mut ctx = fresh_context();
    let mut program = Program::new(&mut ctx);
    program.load_uniform_descriptors(&vec![
        uniform_entry("u_color", GlslTypeName::Vec4, 0),
        ActiveUniform {
            name: String::from("u_lights[0]"),
            data_type_name: GlslTypeName::Int,
            array_len: 4,
            location: 2,
        },
    ]);
    assert_eq!(program.get_uniform_location("u_color"), 0);
    assert_eq!(program.get_uniform_location("u_lights"), 2);
    assert_eq!(program.get_uniform_location("u_lights[0]"), oogl::INACTIVE_UNIFORM_LOCATION);
    assert_eq!(program.get_uniform_location("u_absent"), oogl::INACTIVE_UNIFORM_LOCATION);

    let lights: Uniform<i32> = program.get_uniform("u_lights").unwrap();
    assert!(lights.is_active());
    assert_eq!(lights.location(), 2);
    assert_eq!(
        lights.data_type(),
        &Some(GlslType { name: GlslTypeName::Int, array_len: Some(4) })
    );
    assert!((*lights.data_type()).unwrap().is_array());
}

#[test]
fn mismatched_uniform_types_fail_naming_both() {
    let mut ctx = fresh_context();
    let mut program = Program::new(&mut ctx);
    // The shader declares a three-component integer vector.
    program.load_uniform_descriptors(&vec![uniform_entry("u_pos", GlslTypeName::IVec3, 3)]);
    let calls_before = ctx.calls.clone();

    // Fetching an integer-pair handle for it must fail, naming the uniform,
    // the requested types and the declared type.
    let error = program.get_uniform::<Vec2<i32>>("u_pos").unwrap_err();
    match &error {
        OoglError::UniformTypeMismatch { name, requested, declared } => {
            assert_eq!(name.as_str(), "u_pos");
            assert_eq!(requested, &vec![GlslTypeName::IVec2]);
            assert_eq!(declared, &GlslType { name: GlslTypeName::IVec3, array_len: None });
        },
        other => panic!("unexpected error {:?}", other),
    }
    let message = error.message();
    assert!(message.contains("u_pos"));
    assert!(message.contains("ivec3"));
    // The requested side is rendered too.
    assert!(message.contains("ivec2"));

    // No store command was or can be issued for the failed fetch.
    assert_eq!(ctx.calls, calls_before);
}

#[test]
fn inactive_uniform_stores_are_silent() {
    let mut ctx = fresh_context();
    let mut program = Program::new(&mut ctx);
    program.load_uniform_descriptors(&vec![uniform_entry("u_known", GlslTypeName::Int, 5)]);
    let binding = program.bind(&mut ctx).unwrap();
    let calls_before = ctx.calls.len();

    // A handle for a name the linker optimized away is inactive and its
    // stores are silent no-ops.
    let absent: Uniform<i32> = program.get_uniform("u_absent").unwrap();
    assert!(!absent.is_active());
    absent.set(&mut ctx, &binding, &7);
    assert_eq!(ctx.calls.len(), calls_before);

    // An active handle's store is recorded.
    let known: Uniform<i32> = program.get_uniform("u_known").unwrap();
    known.set(&mut ctx, &binding, &7);
    assert_eq!(ctx.calls.last(), Some(&GlCall::Uniform1i { location: 5, x: 7 }));
    binding.unbind(&mut ctx);
}

#[test]
fn uniform_value_kinds_dispatch_to_their_commands() {
    let mut ctx = fresh_context();
    let mut program = Program::new(&mut ctx);
    program.load_uniform_descriptors(&vec![
        uniform_entry("u_flag", GlslTypeName::Bool, 1),
        uniform_entry("u_pair", GlslTypeName::IVec2, 2),
        uniform_entry("u_mask", GlslTypeName::BVec2, 3),
        uniform_entry("u_tex", GlslTypeName::Sampler2D, 4),
        uniform_entry("u_count", GlslTypeName::Int, 6),
        ActiveUniform {
            name: String::from("u_steps[0]"),
            data_type_name: GlslTypeName::Int,
            array_len: 3,
            location: 8,
        },
    ]);
    let binding = program.bind(&mut ctx).unwrap();

    let flag: Uniform<bool> = program.get_uniform("u_flag").unwrap();
    flag.set(&mut ctx, &binding, &true);
    assert_eq!(ctx.calls.last(), Some(&GlCall::Uniform1i { location: 1, x: 1 }));

    let pair: Uniform<Vec2<i32>> = program.get_uniform("u_pair").unwrap();
    pair.set(&mut ctx, &binding, &Vec2 { x: -4, y: 9 });
    assert_eq!(ctx.calls.last(), Some(&GlCall::Uniform2i { location: 2, x: -4, y: 9 }));

    let mask: Uniform<Vec2<bool>> = program.get_uniform("u_mask").unwrap();
    mask.set(&mut ctx, &binding, &Vec2 { x: false, y: true });
    assert_eq!(ctx.calls.last(), Some(&GlCall::Uniform2i { location: 3, x: 0, y: 1 }));

    let count: Uniform<u32> = program.get_uniform("u_count").unwrap();
    count.set(&mut ctx, &binding, &12);
    assert_eq!(ctx.calls.last(), Some(&GlCall::Uniform1i { location: 6, x: 12 }));

    let steps: Uniform<i32> = program.get_uniform("u_steps").unwrap();
    steps.set_at_index(&mut ctx, &binding, 2, &44);
    assert_eq!(ctx.calls.last(), Some(&GlCall::Uniform1i { location: 10, x: 44 }));

    binding.unbind(&mut ctx);

    let unit = TextureUnit::new(&mut ctx).unwrap();
    let binding = program.bind(&mut ctx).unwrap();
    let sampler: Uniform<TextureUnit> = program.get_uniform("u_tex").unwrap();
    let unit_id = unit.id();
    sampler.set(&mut ctx, &binding, &unit);
    assert_eq!(
        ctx.calls.last(),
        Some(&GlCall::Uniform1i { location: 4, x: unit_id as i32 })
    );
    binding.unbind(&mut ctx);
    unit.free(&mut ctx);
}

#[test]
fn attribute_handles_validate_component_counts() {
    let mut ctx = fresh_context();
    let mut program = Program::new(&mut ctx);
    program.load_attrib_descriptors(&vec![
        ActiveAttrib {
            name: String::from("a_pos"),
            data_type_name: GlslTypeName::Vec2,
            array_len: 1,
            location: 0,
        },
        ActiveAttrib {
            name: String::from("a_shade"),
            data_type_name: GlslTypeName::Float,
            array_len: 1,
            location: 1,
        },
    ]);
    assert_eq!(program.get_attrib_location("a_pos"), 0);
    assert_eq!(program.get_attrib_location("a_absent"), oogl::INACTIVE_ATTRIB_LOCATION);

    let position: Attrib<Vec2<u8>> = program.get_attrib("a_pos").unwrap();
    assert!(position.is_active());
    let pointer = position.to_pointer_simple().unwrap();
    assert_eq!(pointer.location(), 0);
    assert_eq!(pointer.size(), 2);

    // The same attribute read as 16-bit scalars keeps the component count.
    let wide = position
        .to_pointer_simple_with_cast(oogl::AttribPtrTypeName::I16)
        .unwrap();
    assert_eq!(wide.size(), 4);

    // A one-component layout cannot feed the two-component attribute.
    let error = position
        .to_pointer(oogl::AttribPtrType {
            name: oogl::AttribPtrTypeName::U8,
            len: 1,
            normalize: true,
        })
        .unwrap_err();
    assert_eq!(
        error,
        OoglError::AttribPtrLenMismatch { location: 0, specified_len: 1, required_len: 2 }
    );

    // A handle for an absent attribute is inactive and accepts any layout.
    let absent: Attrib<u8> = program.get_attrib("a_absent").unwrap();
    assert!(!absent.is_active());
    assert!(absent.to_pointer_simple().unwrap().location() == oogl::INACTIVE_ATTRIB_LOCATION);

    // A float-declared attribute rejects a pair-typed handle.
    let mismatch = program.get_attrib::<Vec2<u8>>("a_shade").unwrap_err();
    assert!(matches!(mismatch, OoglError::AttribTypeMismatch { .. }));
    assert!(mismatch.message().contains("a_shade"));
    assert!(mismatch.message().contains("float"));
}

#[test]
fn requesting_attribute_locations_is_recorded_with_the_name() {
    let mut ctx = fresh_context();
    let program = Program::new(&mut ctx);
    program.request_attrib_location(&mut ctx, "a_pos", 4);
    match ctx.calls.last() {
        Some(GlCall::BindAttribLocation { program_addr, location, name }) => {
            assert_eq!(*program_addr, program.addr());
            assert_eq!(*location, 4);
            assert_eq!(name.as_str(), "a_pos");
        },
        other => panic!("unexpected call {:?}", other),
    }
}

#[test]
fn reflection_blocks_fetch_every_field_by_its_own_name() {
    let mut ctx = fresh_context();
    let mut program = Program::new(&mut ctx);
    program.load_descriptors(
        &vec![
            uniform_entry("u_level", GlslTypeName::Int, 7),
            uniform_entry("u_tex", GlslTypeName::Sampler2D, 8),
        ],
        &vec![ActiveAttrib {
            name: String::from("a_pos"),
            data_type_name: GlslTypeName::Vec2,
            array_len: 1,
            location: 2,
        }],
    );
    let entries = vec![
        ReflectionEntry { name: String::from("u_level"), kind: ReflectionKind::UniformInt },
        ReflectionEntry { name: String::from("u_tex"), kind: ReflectionKind::UniformSampler },
        ReflectionEntry { name: String::from("a_pos"), kind: ReflectionKind::AttribPair },
    ];
    let handles = oogl::reflect_block(&program, &entries).unwrap();
    assert_eq!(handles.len(), 3);
    match &handles[0] {
        ReflectedHandle::UniformInt(uniform) => assert_eq!(uniform.location(), 7),
        other => panic!("unexpected handle {:?}", other),
    }
    match &handles[2] {
        ReflectedHandle::AttribPair(attrib) => assert_eq!(attrib.location(), 2),
        other => panic!("unexpected handle {:?}", other),
    }

    // A type mismatch in any field fails the whole block with that field's
    // own error: its name, the requested types and the declared type.
    let bad = vec![
        ReflectionEntry { name: String::from("u_level"), kind: ReflectionKind::UniformInt },
        ReflectionEntry { name: String::from("u_tex"), kind: ReflectionKind::UniformInt },
    ];
    match oogl::reflect_block(&program, &bad).unwrap_err() {
        OoglError::UniformTypeMismatch { name, requested, declared } => {
            assert_eq!(name.as_str(), "u_tex");
            assert_eq!(requested, vec![GlslTypeName::Int]);
            assert_eq!(declared, GlslType { name: GlslTypeName::Sampler2D, array_len: None });
        },
        other => panic!("unexpected error {:?}", other),
    }
}

#[test]
fn reflection_is_idempotent() {
    let mut ctx = fresh_context();
    let mut program = Program::new(&mut ctx);
    let uniforms = vec![uniform_entry("u_a", GlslTypeName::Float, 0)];
    program.load_uniform_descriptors(&uniforms);
    let first = program.uniform_descriptors.clone();
    program.load_uniform_descriptors(&uniforms);
    assert_eq!(program.uniform_descriptors, first);
}

#[test]
fn glsl_types_render_like_source_text() {
    assert_eq!(
        GlslType { name: GlslTypeName::Vec3, array_len: None }.type_string(),
        "vec3"
    );
    assert_eq!(
        GlslType { name: GlslTypeName::Mat4, array_len: Some(12) }.type_string(),
        "mat4[12]"
    );
    assert_eq!(GlslTypeName::Mat3.components(), 9);
    assert_eq!(GlslTypeName::Sampler2D.components(), 1);
    assert_eq!(GlslTypeName::BVec4.components(), 4);
}
