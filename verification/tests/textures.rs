//! Texture sizing, detail levels, unit resolution and sampling parameters.

use oogl::math::{vec2, Vec2};
use oogl::{
    BindTextureTarget, Context, ContextCapabilities, ContextExtensions, GlCall, OoglError,
    Texture2D, TextureFilter, TextureInputFormat, TextureInternalFormat, TextureMinFilter,
    TextureWrappingMode,
};

fn capabilities(max_texture_units: u16) -> ContextCapabilities {
    ContextCapabilities {
        renderer: String::from("test renderer"),
        vendor: String::from("test vendor"),
        gl_version: String::from("OpenGL ES 2.0"),
        glsl_version: String::from("OpenGL ES GLSL ES 1.00"),
        extensions: ContextExtensions { gl_khr_debug: false, gl_oes_texture_npot: true },
        max_texture_units,
        max_texture_size: 4096,
        max_vertex_attribs: 16,
        max_debug_object_label_len: 0,
    }
}

fn fresh_context() -> Context {
    Context::new(capabilities(16)).unwrap()
}

fn luminance_texture(ctx: &mut Context) -> Texture2D<u8> {
    Texture2D::<u8>::new(ctx, None, TextureInputFormat::Luminance, None).unwrap()
}

#[test]
fn requesting_a_unit_beyond_the_maximum_fails_before_any_bind() {
    let mut ctx = fresh_context();
    let texture = luminance_texture(&mut ctx);
    let calls_before = ctx.calls.clone();

    // The capability probe reports 16 usable units; unit 17 must fail before
    // any command is issued.
    let error = texture.bind(&mut ctx, Some(17)).unwrap_err();
    assert_eq!(error, OoglError::TextureUnitOutOfRange { unit: 17, max_units: 16 });
    assert!(error.message().contains("17"));
    assert!(error.message().contains("16"));
    assert_eq!(ctx.calls, calls_before);
}

#[test]
fn binding_resolves_the_active_unit_and_skips_redundant_switches() {
    let mut ctx = fresh_context();
    let texture = luminance_texture(&mut ctx);
    let calls_after_creation = ctx.calls.len();

    // The creation bind used unit 0, which is already active, and bound the
    // fresh handle once.
    assert_eq!(
        ctx.calls.last(),
        Some(&GlCall::BindTexture { target: BindTextureTarget::Texture2D, addr: texture.addr() })
    );

    // Rebinding the same texture on the already-active unit is free.
    let binding = texture.bind(&mut ctx, None).unwrap();
    assert_eq!(ctx.calls.len(), calls_after_creation);
    binding.unbind(&mut ctx);

    // Switching to another unit issues the switch and a rebind.
    let binding = texture.bind(&mut ctx, Some(3)).unwrap();
    assert_eq!(binding.unit(), 3);
    assert_eq!(ctx.active_texture_unit, 3);
    assert_eq!(
        &ctx.calls[calls_after_creation..],
        &[
            GlCall::ActiveTexture { unit: 3 },
            GlCall::BindTexture { target: BindTextureTarget::Texture2D, addr: texture.addr() },
        ]
    );
    binding.unbind(&mut ctx);
}

#[test]
fn detail_level_counts_follow_the_size() {
    let mut ctx = fresh_context();
    let mut texture = luminance_texture(&mut ctx);
    let binding = texture.bind(&mut ctx, None).unwrap();

    binding.set_size(&ctx, &mut texture, vec2(5, 3)).unwrap();
    assert_eq!(texture.levels_of_detail_count(), 3);
    // Level 0 keeps the full size; the last level is 1 by 1 here.
    assert_eq!(texture.size_at_level_of_detail(0), vec2(5, 3));
    assert_eq!(texture.size_at_level_of_detail(1), vec2(2, 1));
    assert_eq!(texture.size_at_level_of_detail(2), vec2(1, 1));
    // Levels beyond the derived count stay well-defined at 1 by 1.
    assert_eq!(texture.size_at_level_of_detail(9), vec2(1, 1));
    assert_eq!(texture.size_at_level_of_detail(40), vec2(1, 1));

    binding.set_size(&ctx, &mut texture, vec2(1, 1)).unwrap();
    assert_eq!(texture.levels_of_detail_count(), 1);
    assert_eq!(texture.size_at_level_of_detail(0), vec2(1, 1));

    binding.set_size(&ctx, &mut texture, vec2(256, 16)).unwrap();
    assert_eq!(texture.levels_of_detail_count(), 9);
    assert_eq!(texture.size_at_level_of_detail(8), vec2(1, 1));
    assert_eq!(texture.size_at_level_of_detail(4), vec2(16, 1));
    binding.unbind(&mut ctx);
}

#[test]
fn rejected_sizes_name_the_offending_values() {
    let mut ctx = fresh_context();
    let mut texture = luminance_texture(&mut ctx);
    let binding = texture.bind(&mut ctx, None).unwrap();
    assert_eq!(
        binding.set_size(&ctx, &mut texture, vec2(0, 4)).unwrap_err(),
        OoglError::ZeroTextureSize { width: 0, height: 4 }
    );
    assert_eq!(
        binding.set_size(&ctx, &mut texture, vec2(8, 5000)).unwrap_err(),
        OoglError::TextureSizeTooLarge { width: 8, height: 5000, max_size: 4096 }
    );
    assert_eq!(texture.size(), vec2(0, 0));
    assert!(texture.is_empty());
    binding.unbind(&mut ctx);
}

#[test]
fn texel_uploads_check_the_texel_count() {
    let mut ctx = fresh_context();
    let mut texture =
        Texture2D::<u8>::new(&mut ctx, None, TextureInputFormat::RGB, None).unwrap();
    assert_eq!(texture.input_format(), TextureInputFormat::RGB);
    assert_eq!(texture.internal_format(), TextureInternalFormat::RGB);
    let binding = texture.bind(&mut ctx, None).unwrap();
    binding.set_size(&ctx, &mut texture, vec2(2, 2)).unwrap();
    let calls_before = ctx.calls.clone();

    // 2 x 2 texels of 3 components each want 12 bytes; 7 must fail without
    // issuing any upload command.
    let error = binding.alloc_and_set(&mut ctx, &texture, 0, &[0u8; 7]).unwrap_err();
    assert_eq!(error, OoglError::TexelCountMismatch { slice_len: 7, expected_len: 12 });
    assert_eq!(ctx.calls, calls_before);

    binding.alloc_and_set(&mut ctx, &texture, 0, &[0u8; 12]).unwrap();
    assert_eq!(
        ctx.calls.last(),
        Some(&GlCall::TexImage2D {
            level: 0,
            internal_format: TextureInternalFormat::RGB,
            width: 2,
            height: 2,
            input_format: TextureInputFormat::RGB,
            input_data_type: oogl::TextureInputDataType::U8,
            with_data: true,
        })
    );

    // The second detail level is 1 by 1: three bytes.
    binding.alloc_and_set(&mut ctx, &texture, 1, &[0u8; 3]).unwrap();

    // A rectangle overwrite checks its own extent.
    let error = binding
        .set_slice(&mut ctx, &texture, 0, vec2(0, 0), vec2(2, 1), &[0u8; 5])
        .unwrap_err();
    assert_eq!(error, OoglError::TexelCountMismatch { slice_len: 5, expected_len: 6 });
    binding.set_slice(&mut ctx, &texture, 0, vec2(0, 1), vec2(2, 1), &[0u8; 6]).unwrap();
    assert_eq!(
        ctx.calls.last(),
        Some(&GlCall::TexSubImage2D {
            level: 0,
            x: 0,
            y: 1,
            width: 2,
            height: 1,
            input_format: TextureInputFormat::RGB,
            input_data_type: oogl::TextureInputDataType::U8,
        })
    );

    // A whole-level overwrite takes the texture's full size.
    binding.set(&mut ctx, &texture, 0, &[0u8; 12]).unwrap();
    binding.unbind(&mut ctx);
}

#[test]
fn sampling_parameters_are_recorded_in_order() {
    let mut ctx = fresh_context();
    let texture = luminance_texture(&mut ctx);
    let binding = texture.bind(&mut ctx, None).unwrap();
    let calls_before = ctx.calls.len();
    binding.set_wrapping_modes(&mut ctx, TextureWrappingMode::Repeat);
    binding.set_filters(&mut ctx, TextureFilter::Linear, Some(TextureFilter::Nearest));
    binding.generate_mipmap(&mut ctx);
    binding.unbind(&mut ctx);
    assert_eq!(
        &ctx.calls[calls_before..],
        &[
            GlCall::TexWrapS {
                target: BindTextureTarget::Texture2D,
                mode: TextureWrappingMode::Repeat,
            },
            GlCall::TexWrapT {
                target: BindTextureTarget::Texture2D,
                mode: TextureWrappingMode::Repeat,
            },
            GlCall::TexMinFilter {
                target: BindTextureTarget::Texture2D,
                filter: TextureMinFilter::LinearMipmapNearest,
            },
            GlCall::TexMagFilter {
                target: BindTextureTarget::Texture2D,
                filter: TextureFilter::Linear,
            },
            GlCall::GenerateMipmap { target: BindTextureTarget::Texture2D },
        ]
    );
}

#[test]
fn minifying_filters_combine_exhaustively() {
    let mut ctx = fresh_context();
    let texture = luminance_texture(&mut ctx);
    let binding = texture.bind(&mut ctx, None).unwrap();
    let expectations = [
        (TextureFilter::Nearest, None, TextureMinFilter::Nearest),
        (TextureFilter::Linear, None, TextureMinFilter::Linear),
        (TextureFilter::Nearest, Some(TextureFilter::Nearest), TextureMinFilter::NearestMipmapNearest),
        (TextureFilter::Linear, Some(TextureFilter::Nearest), TextureMinFilter::LinearMipmapNearest),
        (TextureFilter::Nearest, Some(TextureFilter::Linear), TextureMinFilter::NearestMipmapLinear),
        (TextureFilter::Linear, Some(TextureFilter::Linear), TextureMinFilter::LinearMipmapLinear),
    ];
    for (filter, mipmap_filter, combined) in expectations {
        binding.set_minifying_filter(&mut ctx, filter, mipmap_filter);
        assert_eq!(
            ctx.calls.last(),
            Some(&GlCall::TexMinFilter { target: BindTextureTarget::Texture2D, filter: combined })
        );
    }
    binding.unbind(&mut ctx);
}

#[test]
fn creation_with_explicit_unit_and_format_preferences() {
    let mut ctx = fresh_context();
    let texture = Texture2D::<u8>::new(
        &mut ctx,
        Some(2),
        TextureInputFormat::Alpha,
        Some(TextureInternalFormat::LuminanceAlpha),
    )
    .unwrap();
    assert_eq!(texture.internal_format(), TextureInternalFormat::LuminanceAlpha);
    assert_eq!(ctx.active_texture_unit, 2);
    let calls_before = ctx.calls.len();
    let out_of_range =
        Texture2D::<u8>::new(&mut ctx, Some(99), TextureInputFormat::Alpha, None).unwrap_err();
    assert_eq!(out_of_range, OoglError::TextureUnitOutOfRange { unit: 99, max_units: 16 });
    // The failed creation cleans up after itself: the fresh handle is created
    // and deleted again, and nothing else is issued.
    assert_eq!(ctx.calls.len(), calls_before + 2);
    match (&ctx.calls[calls_before], &ctx.calls[calls_before + 1]) {
        (GlCall::GenTexture { addr: created }, GlCall::DeleteTexture { addr: deleted }) => {
            assert_eq!(created, deleted);
        },
        other => panic!("unexpected calls {:?}", other),
    }
    let size: Vec2<u32> = texture.size();
    assert_eq!(size, vec2(0, 0));
    let addr = texture.addr();
    texture.delete(&mut ctx);
    assert_eq!(ctx.calls.last(), Some(&GlCall::DeleteTexture { addr }));
}
