//! Two-dimensional textures: typed texel storage with per-detail-level
//! uploads, texture-unit bookkeeping and sampling parameters.
//!
//! A texture owns one server-side handle, its declared input pixel format and
//! internal storage format, and a lazily-set logical size. The number of
//! detail levels is derived from the size by a bit-length computation, so it
//! cannot drift from it. Binding a texture resolves a concrete texture unit
//! and switches the active unit and the bound handle only where they differ —
//! rebinding the same texture on the already-active unit is free.

use vstd::prelude::*;

use crate::context::BindTextureTarget;
use crate::context::BindingTarget;
use crate::context::Context;
use crate::context::GlCall;
use crate::error::OoglError;
use crate::math::Vec2;

verus! {

/// A sampling filter.
#[derive(Debug, Copy, Clone, PartialEq, Eq, Structural)]
pub enum TextureFilter {
    Nearest,
    Linear,
}

/// A minifying filter combined with an optional filter between detail
/// levels, as the driver takes it: one value out of the closed set. There is
/// deliberately no fallback in the mapping from filter pairs onto these, so a
/// new filter kind cannot be added without extending it.
#[derive(Debug, Copy, Clone, PartialEq, Eq, Structural)]
pub enum TextureMinFilter {
    Nearest,
    Linear,
    NearestMipmapNearest,
    LinearMipmapNearest,
    NearestMipmapLinear,
    LinearMipmapLinear,
}

/// How sampling coordinates outside the unit square wrap.
#[derive(Debug, Copy, Clone, PartialEq, Eq, Structural)]
pub enum TextureWrappingMode {
    ClampToEdge,
    MirroredRepeat,
    Repeat,
}

/// How the driver stores texels internally.
#[derive(Debug, Copy, Clone, PartialEq, Eq, Structural)]
pub enum TextureInternalFormat {
    Alpha,
    Luminance,
    LuminanceAlpha,
    RGB,
    RGBA,
}

impl TextureInternalFormat {
    /// The number of color components per texel.
    pub open spec fn spec_color_components(self) -> u8 {
        match self {
            TextureInternalFormat::Alpha => 1u8,
            TextureInternalFormat::Luminance => 1u8,
            TextureInternalFormat::LuminanceAlpha => 2u8,
            TextureInternalFormat::RGB => 3u8,
            TextureInternalFormat::RGBA => 4u8,
        }
    }

    /// The number of color components per texel.
    pub fn color_components(self) -> (count: u8)
        ensures
            count == self.spec_color_components(),
    {
        match self {
            TextureInternalFormat::Alpha => 1,
            TextureInternalFormat::Luminance => 1,
            TextureInternalFormat::LuminanceAlpha => 2,
            TextureInternalFormat::RGB => 3,
            TextureInternalFormat::RGBA => 4,
        }
    }
}

/// The pixel layout uploads supply texels in.
#[derive(Debug, Copy, Clone, PartialEq, Eq, Structural)]
pub enum TextureInputFormat {
    Alpha,
    RGB,
    RGBA,
    Luminance,
    LuminanceAlpha,
}

impl TextureInputFormat {
    /// The number of color components per texel.
    pub open spec fn spec_color_components(self) -> u8 {
        match self {
            TextureInputFormat::Alpha => 1u8,
            TextureInputFormat::Luminance => 1u8,
            TextureInputFormat::LuminanceAlpha => 2u8,
            TextureInputFormat::RGB => 3u8,
            TextureInputFormat::RGBA => 4u8,
        }
    }

    /// The number of color components per texel.
    pub fn color_components(self) -> (count: u8)
        ensures
            count == self.spec_color_components(),
    {
        match self {
            TextureInputFormat::Alpha => 1,
            TextureInputFormat::Luminance => 1,
            TextureInputFormat::LuminanceAlpha => 2,
            TextureInputFormat::RGB => 3,
            TextureInputFormat::RGBA => 4,
        }
    }

    /// The internal storage format that keeps every component of this input
    /// format.
    pub open spec fn spec_ideal_internal_format(self) -> TextureInternalFormat {
        match self {
            TextureInputFormat::Alpha => TextureInternalFormat::Alpha,
            TextureInputFormat::RGB => TextureInternalFormat::RGB,
            TextureInputFormat::RGBA => TextureInternalFormat::RGBA,
            TextureInputFormat::Luminance => TextureInternalFormat::Luminance,
            TextureInputFormat::LuminanceAlpha => TextureInternalFormat::LuminanceAlpha,
        }
    }

    /// The internal storage format that keeps every component of this input
    /// format.
    pub fn ideal_internal_format(self) -> (internal_format: TextureInternalFormat)
        ensures
            internal_format == self.spec_ideal_internal_format(),
    {
        match self {
            TextureInputFormat::Alpha => TextureInternalFormat::Alpha,
            TextureInputFormat::RGB => TextureInternalFormat::RGB,
            TextureInputFormat::RGBA => TextureInternalFormat::RGBA,
            TextureInputFormat::Luminance => TextureInternalFormat::Luminance,
            TextureInputFormat::LuminanceAlpha => TextureInternalFormat::LuminanceAlpha,
        }
    }
}

/// The scalar layout texel uploads are encoded in.
#[derive(Debug, Copy, Clone, PartialEq, Eq, Structural)]
pub enum TextureInputDataType {
    U8,
    U16_5_6_5,
    U16_4_4_4_4,
    U16_5_5_5_1,
}

/// The scalar types texel uploads can be made of; the type selects the
/// upload's data-type token at compile time.
pub trait TextureDataType: Copy {
    /// The upload data-type token of `Self`.
    spec fn spec_input_data_type() -> TextureInputDataType;

    /// The upload data-type token of `Self`.
    fn input_data_type() -> (input_data_type: TextureInputDataType)
        ensures
            input_data_type == Self::spec_input_data_type(),
    ;
}

impl TextureDataType for u8 {
    open spec fn spec_input_data_type() -> TextureInputDataType {
        TextureInputDataType::U8
    }

    fn input_data_type() -> (input_data_type: TextureInputDataType) {
        TextureInputDataType::U8
    }
}

/// The larger of two values.
pub open spec fn spec_max_u32(a: u32, b: u32) -> u32 {
    if a >= b {
        a
    } else {
        b
    }
}

/// The bit length of a value: how many binary digits it takes to write it,
/// 0 for 0. For a positive value this is one more than the floored base-two
/// logarithm.
pub open spec fn spec_bit_len(x: nat) -> nat
    decreases x,
{
    if x == 0 {
        0
    } else {
        1 + spec_bit_len(x / 2)
    }
}

/// The bit length of a value below `pow2(n)` is at most `n`.
pub proof fn lemma_bit_len_bound(x: nat, n: nat)
    requires
        x < vstd::arithmetic::power2::pow2(n),
    ensures
        spec_bit_len(x) <= n,
    decreases n,
{
    if x > 0 {
        if n == 0 {
            vstd::arithmetic::power2::lemma_pow2_pos(0);
            assert(vstd::arithmetic::power2::pow2(0) == 1) by {
                vstd::arithmetic::power2::lemma2_to64();
            }
        } else {
            assert(vstd::arithmetic::power2::pow2(n) == 2 * vstd::arithmetic::power2::pow2(
                (n - 1) as nat,
            )) by {
                vstd::arithmetic::power2::lemma_pow2_unfold(n);
            }
            lemma_bit_len_bound(x / 2, (n - 1) as nat);
        }
    }
}

/// The size of one detail level on one axis: the full extent halved once per
/// level, clamped at 1 so that no level is empty on any axis.
pub open spec fn spec_size_at_lod(extent: u32, level: nat) -> u32 {
    let halved = extent as nat / vstd::arithmetic::power2::pow2(level);
    if halved == 0 {
        1u32
    } else {
        halved as u32
    }
}

/// At detail level 0 every axis keeps its full extent.
pub proof fn lemma_size_at_lod_zero(extent: u32)
    requires
        extent >= 1,
    ensures
        spec_size_at_lod(extent, 0) == extent,
{
    vstd::arithmetic::power2::lemma2_to64();
}

/// Halving a positive value once per remaining bit of its bit length leaves
/// exactly 1.
pub proof fn lemma_div_pow2_bit_len(x: nat)
    requires
        x >= 1,
    ensures
        x / vstd::arithmetic::power2::pow2((spec_bit_len(x) - 1) as nat) == 1,
    decreases x,
{
    vstd::arithmetic::power2::lemma2_to64();
    assert(spec_bit_len(0) == 0);
    assert(spec_bit_len(1) == 1);
    if x == 1 {
        assert(spec_bit_len(x) == 1);
        assert((spec_bit_len(x) - 1) as nat == 0);
        assert(vstd::arithmetic::power2::pow2(0) == 1);
        assert(x / vstd::arithmetic::power2::pow2((spec_bit_len(x) - 1) as nat) == 1);
    } else {
        assert(x / 2 >= 1);
        lemma_div_pow2_bit_len(x / 2);
        let sub_levels = (spec_bit_len(x / 2) - 1) as nat;
        assert(spec_bit_len(x) == 1 + spec_bit_len(x / 2));
        assert((spec_bit_len(x) - 1) as nat == sub_levels + 1);
        assert(vstd::arithmetic::power2::pow2(sub_levels + 1) == 2
            * vstd::arithmetic::power2::pow2(sub_levels)) by {
            vstd::arithmetic::power2::lemma_pow2_unfold(sub_levels + 1);
        }
        vstd::arithmetic::power2::lemma_pow2_pos(sub_levels);
        let pow_sub = vstd::arithmetic::power2::pow2(sub_levels) as int;
        vstd::arithmetic::div_mod::lemma_div_denominator(x as int, 2, pow_sub);
        assert((x as int) / (2 * pow_sub) == ((x as int) / 2) / pow_sub);
        assert(((x as int) / 2) / pow_sub == 1);
        assert((x as int) / (vstd::arithmetic::power2::pow2(sub_levels + 1) as int) == 1);
        assert(x / vstd::arithmetic::power2::pow2((spec_bit_len(x) - 1) as nat) == 1);
    }
}

/// The extreme detail levels of any set size: level 0 keeps the full size,
/// and the last derived level (the detail-level count less one) has shrunk to
/// 1 on at least one axis.
pub proof fn lemma_size_at_extreme_lods(size: Vec2<u32>, lod_count: u32)
    requires
        size.x >= 1,
        size.y >= 1,
        lod_count == spec_bit_len(spec_max_u32(size.x, size.y) as nat),
    ensures
        lod_count >= 1,
        spec_size_at_lod(size.x, 0) == size.x,
        spec_size_at_lod(size.y, 0) == size.y,
        spec_size_at_lod(size.x, (lod_count - 1) as nat) == 1 || spec_size_at_lod(
            size.y,
            (lod_count - 1) as nat,
        ) == 1,
{
    lemma_size_at_lod_zero(size.x);
    lemma_size_at_lod_zero(size.y);
    let max_extent = spec_max_u32(size.x, size.y);
    assert(spec_bit_len(max_extent as nat) >= 1);
    lemma_div_pow2_bit_len(max_extent as nat);
    assert(spec_size_at_lod(max_extent, (lod_count - 1) as nat) == 1);
}

/// A typed two-dimensional texture: owns one server-side handle, the declared
/// input and internal formats, and the lazily-set logical size with its
/// derived detail-level count.
#[derive(Debug)]
pub struct Texture2D<T> {
    pub addr: u32,
    pub input_format: TextureInputFormat,
    pub internal_format: TextureInternalFormat,
    pub size: Vec2<u32>,
    pub levels_of_detail_count: u32,
    pub phantom: core::marker::PhantomData<T>,
}

/// The commands that binding texture `addr` on `unit` issues against `ctx`:
/// a unit switch only if a different unit is active, and a rebind only if a
/// different texture was bound or the unit changed. Rebinding the same
/// texture on the already-active unit issues nothing.
pub open spec fn spec_texture_bind_calls(ctx: Context, addr: u32, unit: u16) -> Seq<GlCall> {
    let unit_calls: Seq<GlCall> = if ctx.active_texture_unit != unit {
        seq![GlCall::ActiveTexture { unit }]
    } else {
        Seq::<GlCall>::empty()
    };
    let bind_calls: Seq<GlCall> = if ctx.bound_texture_2d.bound_addr != addr
        || ctx.active_texture_unit != unit {
        seq![GlCall::BindTexture { target: BindTextureTarget::Texture2D, addr }]
    } else {
        Seq::<GlCall>::empty()
    };
    unit_calls + bind_calls
}

/// The unit a bind resolves: the explicit request if there is one, the
/// currently active unit otherwise.
pub open spec fn spec_resolved_unit(ctx: Context, unit_preference: Option<u16>) -> u16 {
    match unit_preference {
        Some(unit) => unit,
        None => ctx.active_texture_unit,
    }
}

/// Idempotent rebinding: binding a texture that is already bound, on the unit
/// that is already active, issues no command at all.
pub proof fn lemma_texture_rebind_appends_nothing(ctx: Context, addr: u32, unit: u16)
    requires
        ctx.bound_texture_2d.bound_addr == addr,
        ctx.active_texture_unit == unit,
    ensures
        spec_texture_bind_calls(ctx, addr, unit) == Seq::<GlCall>::empty(),
{
    assert(spec_texture_bind_calls(ctx, addr, unit) =~= Seq::<GlCall>::empty());
}

impl<T: TextureDataType> Texture2D<T> {
    /// Well-formedness: either no size has been set (and there are no detail
    /// levels), or both extents are positive and the detail-level count is
    /// the bit length of the larger one.
    pub open spec fn wf(self) -> bool {
        ||| (self.size == (Vec2 { x: 0u32, y: 0u32 }) && self.levels_of_detail_count == 0)
        ||| (self.size.x >= 1 && self.size.y >= 1 && self.levels_of_detail_count == spec_bit_len(
            spec_max_u32(self.size.x, self.size.y) as nat,
        ))
    }

    /// Creates a texture with a fresh handle and immediately binds it once,
    /// so its unit and target bookkeeping is consistent from the start. The
    /// internal format follows the explicit preference, or else the input
    /// format's ideal internal format.
    ///
    /// Fails exactly when the resolved texture unit is at or beyond the
    /// capability-reported maximum; the freshly created handle is deleted
    /// again, so a replayed command stream leaks nothing.
    pub fn new(
        ctx: &mut Context,
        unit_preference: Option<u16>,
        input_format: TextureInputFormat,
        internal_format_preference: Option<TextureInternalFormat>,
    ) -> (result: Result<Texture2D<T>, OoglError>)
        requires
            old(ctx).wf(),
            old(ctx).next_addr < u32::MAX,
            !old(ctx).bound_texture_2d.is_binding_alive,
        ensures
            match result {
                Ok(texture) => {
                    &&& spec_resolved_unit(*old(ctx), unit_preference)
                        < old(ctx).capabilities.max_texture_units
                    &&& texture.wf()
                    &&& texture == (Texture2D {
                        addr: old(ctx).next_addr,
                        input_format,
                        internal_format: match internal_format_preference {
                            Some(internal_format) => internal_format,
                            None => input_format.spec_ideal_internal_format(),
                        },
                        size: Vec2 { x: 0u32, y: 0u32 },
                        levels_of_detail_count: 0u32,
                        phantom: core::marker::PhantomData::<T>,
                    })
                    &&& *final(ctx) == (Context {
                        calls: final (ctx).calls,
                        bound_texture_2d: final (ctx).bound_texture_2d,
                        active_texture_unit: spec_resolved_unit(*old(ctx), unit_preference),
                        next_addr: (old(ctx).next_addr + 1) as u32,
                        ..*old(ctx)
                    })
                    &&& final (ctx).bound_texture_2d == (BindingTarget {
                        kind: old(ctx).bound_texture_2d.kind,
                        bound_addr: texture.addr,
                        is_binding_alive: false,
                    })
                    &&& final (ctx).calls@ == old(ctx).calls@.push(
                        GlCall::GenTexture { addr: texture.addr },
                    ) + spec_texture_bind_calls(
                        *old(ctx),
                        texture.addr,
                        spec_resolved_unit(*old(ctx), unit_preference),
                    )
                    &&& final (ctx).wf()
                },
                Err(e) => {
                    &&& spec_resolved_unit(*old(ctx), unit_preference)
                        >= old(ctx).capabilities.max_texture_units
                    &&& e == (OoglError::TextureUnitOutOfRange {
                        unit: spec_resolved_unit(*old(ctx), unit_preference),
                        max_units: old(ctx).capabilities.max_texture_units,
                    })
                    &&& *final(ctx) == (Context {
                        calls: final (ctx).calls,
                        next_addr: (old(ctx).next_addr + 1) as u32,
                        ..*old(ctx)
                    })
                    &&& final (ctx).calls@ == old(ctx).calls@.push(
                        GlCall::GenTexture { addr: old(ctx).next_addr },
                    ).push(GlCall::DeleteTexture { addr: old(ctx).next_addr })
                },
            },
    {
        let addr: u32 = ctx.fresh_addr();
        ctx.calls.push(GlCall::GenTexture { addr });
        let internal_format: TextureInternalFormat = match internal_format_preference {
            Some(internal_format) => internal_format,
            None => input_format.ideal_internal_format(),
        };
        let texture = Texture2D {
            addr,
            input_format,
            internal_format,
            size: Vec2 { x: 0, y: 0 },
            levels_of_detail_count: 0,
            phantom: core::marker::PhantomData,
        };
        let bound = texture.bind(ctx, unit_preference);
        match bound {
            Ok(binding) => {
                binding.unbind(ctx);
                Ok(texture)
            },
            Err(e) => {
                texture.delete(ctx);
                Err(e)
            },
        }
    }

    /// The server-side handle.
    pub fn addr(&self) -> (addr: u32)
        ensures
            addr == self.addr,
    {
        self.addr
    }

    /// The declared input pixel format.
    pub fn input_format(&self) -> (input_format: TextureInputFormat)
        ensures
            input_format == self.input_format,
    {
        self.input_format
    }

    /// The internal storage format.
    pub fn internal_format(&self) -> (internal_format: TextureInternalFormat)
        ensures
            internal_format == self.internal_format,
    {
        self.internal_format
    }

    /// The logical size, `(0, 0)` until one is set.
    pub fn size(&self) -> (size: Vec2<u32>)
        ensures
            size == self.size,
    {
        self.size
    }

    /// Whether the texture has no texels on some axis.
    pub fn is_empty(&self) -> (empty: bool)
        ensures
            empty == (self.size.x == 0 || self.size.y == 0),
    {
        self.size.x == 0 || self.size.y == 0
    }

    /// The number of detail levels the current size derives: the bit length
    /// of the larger extent, so that the last level is 1 on at least one
    /// axis.
    pub fn levels_of_detail_count(&self) -> (count: u32)
        ensures
            count == self.levels_of_detail_count,
    {
        self.levels_of_detail_count
    }

    /// The size of one detail level: each extent halved once per level and
    /// clamped at 1. Well-defined for every level, including levels beyond
    /// the derived count, where it is 1 by 1.
    pub fn size_at_level_of_detail(&self, level_of_detail: u32) -> (size: Vec2<u32>)
        ensures
            size.x == spec_size_at_lod(self.size.x, level_of_detail as nat),
            size.y == spec_size_at_lod(self.size.y, level_of_detail as nat),
    {
        Vec2 {
            x: extent_at_lod(self.size.x, level_of_detail),
            y: extent_at_lod(self.size.y, level_of_detail),
        }
    }

    /// Creates the scoped binding for this texture on the resolved unit:
    /// the explicitly requested unit, or else the currently active one. The
    /// active unit is switched only if it differs, and the handle is rebound
    /// only if a different texture was bound or the unit changed.
    ///
    /// Fails, issuing no command and changing nothing, when the resolved unit
    /// is at or beyond the capability-reported maximum (checked before
    /// anything is issued), or when a scoped binding for the 2D-texture
    /// binding point is still alive.
    pub fn bind(&self, ctx: &mut Context, unit_preference: Option<u16>) -> (result: Result<
        Texture2DBinding,
        OoglError,
    >)
        requires
            old(ctx).wf(),
        ensures
            final (ctx).wf(),
            match result {
                Ok(binding) => {
                    &&& spec_resolved_unit(*old(ctx), unit_preference)
                        < old(ctx).capabilities.max_texture_units
                    &&& old(ctx).bound_texture_2d.spec_accepts_binding()
                    &&& binding.spec_addr() == self.addr
                    &&& binding.spec_unit() == spec_resolved_unit(*old(ctx), unit_preference)
                    &&& *final(ctx) == (Context {
                        calls: final (ctx).calls,
                        bound_texture_2d: final (ctx).bound_texture_2d,
                        active_texture_unit: spec_resolved_unit(*old(ctx), unit_preference),
                        ..*old(ctx)
                    })
                    &&& final (ctx).bound_texture_2d == old(
                        ctx,
                    ).bound_texture_2d.spec_after_scoped_bind(self.addr)
                    &&& final (ctx).calls@ == old(ctx).calls@ + spec_texture_bind_calls(
                        *old(ctx),
                        self.addr,
                        spec_resolved_unit(*old(ctx), unit_preference),
                    )
                },
                Err(e) => {
                    &&& *final(ctx) == *old(ctx)
                    &&& if spec_resolved_unit(*old(ctx), unit_preference) >= old(
                        ctx,
                    ).capabilities.max_texture_units {
                        e == (OoglError::TextureUnitOutOfRange {
                            unit: spec_resolved_unit(*old(ctx), unit_preference),
                            max_units: old(ctx).capabilities.max_texture_units,
                        })
                    } else {
                        &&& !old(ctx).bound_texture_2d.spec_accepts_binding()
                        &&& e == (OoglError::OverlappingBinding {
                            new_addr: self.addr,
                            old_addr: old(ctx).bound_texture_2d.bound_addr,
                        })
                    }
                },
            },
    {
        let unit: u16 = match unit_preference {
            Some(unit) => unit,
            None => ctx.active_texture_unit,
        };
        if unit >= ctx.capabilities.max_texture_units {
            return Err(
                OoglError::TextureUnitOutOfRange {
                    unit,
                    max_units: ctx.capabilities.max_texture_units,
                },
            );
        }
        let created = ctx.bound_texture_2d.on_binding_created(self.addr);
        match created {
            Ok(_) => {},
            Err(e) => {
                return Err(e);
            },
        }
        let different_texture_was_bound: bool = ctx.bound_texture_2d.bound_addr != self.addr;
        let different_unit_was_selected: bool = ctx.active_texture_unit != unit;
        if different_unit_was_selected {
            ctx.set_active_texture_unit(unit);
        }
        if different_texture_was_bound || different_unit_was_selected {
            ctx.bound_texture_2d.bind_unconditionally(&mut ctx.calls, self.addr);
        }
        proof {
            assert(final (ctx).calls@ =~= old(ctx).calls@ + spec_texture_bind_calls(
                *old(ctx),
                self.addr,
                unit,
            ));
        }
        Ok(Texture2DBinding { addr: self.addr, unit })
    }

    /// Issues the command that deletes the handle. The owner is consumed:
    /// a deleted texture cannot be touched again.
    pub fn delete(self, ctx: &mut Context)
        ensures
            *final(ctx) == (Context { calls: final (ctx).calls, ..*old(ctx) }),
            final (ctx).calls@ == old(ctx).calls@.push(GlCall::DeleteTexture { addr: self.addr }),
    {
        ctx.calls.push(GlCall::DeleteTexture { addr: self.addr });
    }
}

/// The texels one upload must supply: width times height times the color
/// components of the input format.
pub open spec fn spec_texel_count(width: u32, height: u32, input_format: TextureInputFormat) -> int {
    width * height * input_format.spec_color_components()
}

/// The combined minifying filter for a base filter and an optional filter
/// between detail levels. The match is exhaustive over the closed filter set:
/// there is no fallback.
pub open spec fn spec_min_filter(filter: TextureFilter, mipmap_filter: Option<TextureFilter>) -> TextureMinFilter {
    match (filter, mipmap_filter) {
        (TextureFilter::Nearest, Option::None) => TextureMinFilter::Nearest,
        (TextureFilter::Linear, Option::None) => TextureMinFilter::Linear,
        (TextureFilter::Nearest, Option::Some(TextureFilter::Nearest)) => TextureMinFilter::NearestMipmapNearest,
        (TextureFilter::Linear, Option::Some(TextureFilter::Nearest)) => TextureMinFilter::LinearMipmapNearest,
        (TextureFilter::Nearest, Option::Some(TextureFilter::Linear)) => TextureMinFilter::NearestMipmapLinear,
        (TextureFilter::Linear, Option::Some(TextureFilter::Linear)) => TextureMinFilter::LinearMipmapLinear,
    }
}

/// The scoped binding of a texture: while it is alive, the 2D-texture binding
/// point is marked in use and holds the texture's handle on the resolved
/// unit, and the texture's storage and parameter operations are available
/// through it.
#[derive(Debug)]
pub struct Texture2DBinding {
    addr: u32,
    unit: u16,
}

impl Texture2DBinding {
    /// The handle of the texture this binding was created for.
    pub closed spec fn spec_addr(self) -> u32 {
        self.addr
    }

    /// The handle of the texture this binding was created for.
    pub fn addr(&self) -> (addr: u32)
        ensures
            addr == self.spec_addr(),
    {
        self.addr
    }

    /// The texture unit the binding resolved.
    pub closed spec fn spec_unit(self) -> u16 {
        self.unit
    }

    /// The texture unit the binding resolved.
    pub fn unit(&self) -> (unit: u16)
        ensures
            unit == self.spec_unit(),
    {
        self.unit
    }

    /// The binding is live for `texture_addr` in `ctx`.
    pub open spec fn is_live(self, ctx: Context, texture_addr: u32) -> bool {
        &&& self.spec_addr() == texture_addr
        &&& ctx.bound_texture_2d.bound_addr == texture_addr
        &&& ctx.bound_texture_2d.is_binding_alive
    }

    /// Drops the scoped binding: the binding point is free again, but the
    /// handle stays bound, so rebinding the same texture later is free.
    pub fn unbind(self, ctx: &mut Context)
        ensures
            *final(ctx) == (Context {
                bound_texture_2d: final (ctx).bound_texture_2d,
                ..*old(ctx)
            }),
            final (ctx).bound_texture_2d == old(ctx).bound_texture_2d.spec_after_binding_dropped(),
    {
        ctx.bound_texture_2d.on_binding_dropped();
    }

    /// Drops the scoped binding and leaves handle 0 bound, so the texture
    /// leaves no trace of itself at the binding point.
    pub fn unbind_completely(self, ctx: &mut Context)
        ensures
            *final(ctx) == (Context {
                calls: final (ctx).calls,
                bound_texture_2d: final (ctx).bound_texture_2d,
                ..*old(ctx)
            }),
            final (ctx).bound_texture_2d == (BindingTarget {
                bound_addr: 0u32,
                is_binding_alive: false,
                ..old(ctx).bound_texture_2d
            }),
            final (ctx).calls@ == old(ctx).calls@.push(
                crate::context::spec_bind_call(old(ctx).bound_texture_2d.kind, 0),
            ),
    {
        ctx.bound_texture_2d.unbind_unconditionally(&mut ctx.calls);
        ctx.bound_texture_2d.on_binding_dropped();
    }

    /// Sets the texture's logical size and rederives its detail-level count
    /// (the bit length of the larger extent). Issues no command: storage is
    /// allocated per level by the upload operations.
    ///
    /// Fails, changing nothing, when an extent is zero or exceeds the
    /// capability-reported maximum texture size; the errors name the
    /// offending values.
    pub fn set_size<T: TextureDataType>(
        &self,
        ctx: &Context,
        texture: &mut Texture2D<T>,
        size: Vec2<u32>,
    ) -> (result: Result<(), OoglError>)
        requires
            self.is_live(*ctx, old(texture).addr),
        ensures
            match result {
                Ok(_) => {
                    &&& 1 <= size.x <= ctx.capabilities.max_texture_size
                    &&& 1 <= size.y <= ctx.capabilities.max_texture_size
                    &&& *final(texture) == (Texture2D {
                        size,
                        levels_of_detail_count: final (texture).levels_of_detail_count,
                        ..*old(texture)
                    })
                    &&& final (texture).levels_of_detail_count == spec_bit_len(
                        spec_max_u32(size.x, size.y) as nat,
                    )
                    &&& final (texture).wf()
                },
                Err(e) => {
                    &&& *final(texture) == *old(texture)
                    &&& if size.x == 0 || size.y == 0 {
                        e == (OoglError::ZeroTextureSize { width: size.x, height: size.y })
                    } else {
                        &&& (size.x > ctx.capabilities.max_texture_size || size.y
                            > ctx.capabilities.max_texture_size)
                        &&& e == (OoglError::TextureSizeTooLarge {
                            width: size.x,
                            height: size.y,
                            max_size: ctx.capabilities.max_texture_size,
                        })
                    }
                },
            },
    {
        if size.x == 0 || size.y == 0 {
            return Err(OoglError::ZeroTextureSize { width: size.x, height: size.y });
        }
        let max_size: u32 = ctx.capabilities.max_texture_size;
        if size.x > max_size || size.y > max_size {
            return Err(
                OoglError::TextureSizeTooLarge { width: size.x, height: size.y, max_size },
            );
        }
        let max_extent: u32 = if size.x >= size.y {
            size.x
        } else {
            size.y
        };
        texture.size = size;
        texture.levels_of_detail_count = bit_len(max_extent);
        Ok(())
    }

    /// (Re)allocates the storage of one detail level to hold exactly `data`
    /// and uploads it in the same command.
    ///
    /// Fails, issuing no command, exactly when `data.len()` differs from the
    /// level's texel count (level width times level height times the input
    /// format's components); the error names both counts.
    pub fn alloc_and_set<T: TextureDataType>(
        &self,
        ctx: &mut Context,
        texture: &Texture2D<T>,
        level_of_detail: u32,
        data: &[T],
    ) -> (result: Result<(), OoglError>)
        requires
            self.is_live(*old(ctx), texture.addr),
        ensures
            self.is_live(*final(ctx), texture.addr),
            match result {
                Ok(_) => {
                    &&& data@.len() == spec_texel_count(
                        spec_size_at_lod(texture.size.x, level_of_detail as nat),
                        spec_size_at_lod(texture.size.y, level_of_detail as nat),
                        texture.input_format,
                    )
                    &&& *final(ctx) == (Context { calls: final (ctx).calls, ..*old(ctx) })
                    &&& final (ctx).calls@ == old(ctx).calls@.push(
                        GlCall::TexImage2D {
                            level: level_of_detail,
                            internal_format: texture.internal_format,
                            width: spec_size_at_lod(texture.size.x, level_of_detail as nat),
                            height: spec_size_at_lod(texture.size.y, level_of_detail as nat),
                            input_format: texture.input_format,
                            input_data_type: T::spec_input_data_type(),
                            with_data: true,
                        },
                    )
                },
                Err(e) => {
                    &&& data@.len() != spec_texel_count(
                        spec_size_at_lod(texture.size.x, level_of_detail as nat),
                        spec_size_at_lod(texture.size.y, level_of_detail as nat),
                        texture.input_format,
                    )
                    &&& e matches OoglError::TexelCountMismatch { slice_len, expected_len }
                        && slice_len == data@.len() && expected_len == spec_texel_count(
                        spec_size_at_lod(texture.size.x, level_of_detail as nat),
                        spec_size_at_lod(texture.size.y, level_of_detail as nat),
                        texture.input_format,
                    )
                    &&& *final(ctx) == *old(ctx)
                },
            },
    {
        let level_size: Vec2<u32> = texture.size_at_level_of_detail(level_of_detail);
        proof {
            lemma_texel_count_fits(
                level_size.x,
                level_size.y,
                texture.input_format.spec_color_components(),
            );
        }
        let expected: u128 = (level_size.x as u128) * (level_size.y as u128) * (
        texture.input_format.color_components() as u128);
        if (data.len() as u128) != expected {
            return Err(
                OoglError::TexelCountMismatch { slice_len: data.len(), expected_len: expected },
            );
        }
        ctx.calls.push(
            GlCall::TexImage2D {
                level: level_of_detail,
                internal_format: texture.internal_format,
                width: level_size.x,
                height: level_size.y,
                input_format: texture.input_format,
                input_data_type: T::input_data_type(),
                with_data: true,
            },
        );
        Ok(())
    }

    /// (Re)allocates the storage of one detail level with undefined contents.
    pub fn reserve_data<T: TextureDataType>(
        &self,
        ctx: &mut Context,
        texture: &Texture2D<T>,
        level_of_detail: u32,
    )
        requires
            self.is_live(*old(ctx), texture.addr),
        ensures
            self.is_live(*final(ctx), texture.addr),
            *final(ctx) == (Context { calls: final (ctx).calls, ..*old(ctx) }),
            final (ctx).calls@ == old(ctx).calls@.push(
                GlCall::TexImage2D {
                    level: level_of_detail,
                    internal_format: texture.internal_format,
                    width: spec_size_at_lod(texture.size.x, level_of_detail as nat),
                    height: spec_size_at_lod(texture.size.y, level_of_detail as nat),
                    input_format: texture.input_format,
                    input_data_type: T::spec_input_data_type(),
                    with_data: false,
                },
            ),
    {
        let level_size: Vec2<u32> = texture.size_at_level_of_detail(level_of_detail);
        ctx.calls.push(
            GlCall::TexImage2D {
                level: level_of_detail,
                internal_format: texture.internal_format,
                width: level_size.x,
                height: level_size.y,
                input_format: texture.input_format,
                input_data_type: T::input_data_type(),
                with_data: false,
            },
        );
    }

    /// Overwrites the rectangle at `offset` of extent `size` of one detail
    /// level with `data`.
    ///
    /// Fails, issuing no command, exactly when `data.len()` differs from the
    /// rectangle's texel count; the error names both counts.
    pub fn set_slice<T: TextureDataType>(
        &self,
        ctx: &mut Context,
        texture: &Texture2D<T>,
        level_of_detail: u32,
        offset: Vec2<u32>,
        size: Vec2<u32>,
        data: &[T],
    ) -> (result: Result<(), OoglError>)
        requires
            self.is_live(*old(ctx), texture.addr),
        ensures
            self.is_live(*final(ctx), texture.addr),
            match result {
                Ok(_) => {
                    &&& data@.len() == spec_texel_count(size.x, size.y, texture.input_format)
                    &&& *final(ctx) == (Context { calls: final (ctx).calls, ..*old(ctx) })
                    &&& final (ctx).calls@ == old(ctx).calls@.push(
                        GlCall::TexSubImage2D {
                            level: level_of_detail,
                            x: offset.x,
                            y: offset.y,
                            width: size.x,
                            height: size.y,
                            input_format: texture.input_format,
                            input_data_type: T::spec_input_data_type(),
                        },
                    )
                },
                Err(e) => {
                    &&& data@.len() != spec_texel_count(size.x, size.y, texture.input_format)
                    &&& e matches OoglError::TexelCountMismatch { slice_len, expected_len }
                        && slice_len == data@.len() && expected_len == spec_texel_count(
                        size.x,
                        size.y,
                        texture.input_format,
                    )
                    &&& *final(ctx) == *old(ctx)
                },
            },
    {
        proof {
            lemma_texel_count_fits(size.x, size.y, texture.input_format.spec_color_components());
        }
        let expected: u128 = (size.x as u128) * (size.y as u128) * (
        texture.input_format.color_components() as u128);
        if (data.len() as u128) != expected {
            return Err(
                OoglError::TexelCountMismatch { slice_len: data.len(), expected_len: expected },
            );
        }
        ctx.calls.push(
            GlCall::TexSubImage2D {
                level: level_of_detail,
                x: offset.x,
                y: offset.y,
                width: size.x,
                height: size.y,
                input_format: texture.input_format,
                input_data_type: T::input_data_type(),
            },
        );
        Ok(())
    }

    /// Overwrites one whole detail level, taking the rectangle from the
    /// texture's full logical size.
    pub fn set<T: TextureDataType>(
        &self,
        ctx: &mut Context,
        texture: &Texture2D<T>,
        level_of_detail: u32,
        data: &[T],
    ) -> (result: Result<(), OoglError>)
        requires
            self.is_live(*old(ctx), texture.addr),
        ensures
            self.is_live(*final(ctx), texture.addr),
            match result {
                Ok(_) => {
                    &&& data@.len() == spec_texel_count(
                        texture.size.x,
                        texture.size.y,
                        texture.input_format,
                    )
                    &&& *final(ctx) == (Context { calls: final (ctx).calls, ..*old(ctx) })
                    &&& final (ctx).calls@ == old(ctx).calls@.push(
                        GlCall::TexSubImage2D {
                            level: level_of_detail,
                            x: 0u32,
                            y: 0u32,
                            width: texture.size.x,
                            height: texture.size.y,
                            input_format: texture.input_format,
                            input_data_type: T::spec_input_data_type(),
                        },
                    )
                },
                Err(e) => {
                    &&& data@.len() != spec_texel_count(
                        texture.size.x,
                        texture.size.y,
                        texture.input_format,
                    )
                    &&& e matches OoglError::TexelCountMismatch { slice_len, expected_len }
                        && slice_len == data@.len() && expected_len == spec_texel_count(
                        texture.size.x,
                        texture.size.y,
                        texture.input_format,
                    )
                    &&& *final(ctx) == *old(ctx)
                },
            },
    {
        self.set_slice(
            ctx,
            texture,
            level_of_detail,
            Vec2 { x: 0, y: 0 },
            texture.size(),
            data,
        )
    }

    /// Asks the driver to derive every coarser detail level from level 0.
    pub fn generate_mipmap(&self, ctx: &mut Context)
        ensures
            *final(ctx) == (Context { calls: final (ctx).calls, ..*old(ctx) }),
            final (ctx).calls@ == old(ctx).calls@.push(
                GlCall::GenerateMipmap { target: BindTextureTarget::Texture2D },
            ),
    {
        ctx.calls.push(GlCall::GenerateMipmap { target: BindTextureTarget::Texture2D });
    }

    /// Sets the wrapping mode of each sampling axis.
    pub fn set_wrapping_mode(
        &self,
        ctx: &mut Context,
        mode_s: TextureWrappingMode,
        mode_t: TextureWrappingMode,
    )
        ensures
            *final(ctx) == (Context { calls: final (ctx).calls, ..*old(ctx) }),
            final (ctx).calls@ == old(ctx).calls@.push(
                GlCall::TexWrapS { target: BindTextureTarget::Texture2D, mode: mode_s },
            ).push(GlCall::TexWrapT { target: BindTextureTarget::Texture2D, mode: mode_t }),
    {
        ctx.calls.push(GlCall::TexWrapS { target: BindTextureTarget::Texture2D, mode: mode_s });
        ctx.calls.push(GlCall::TexWrapT { target: BindTextureTarget::Texture2D, mode: mode_t });
    }

    /// Sets the same wrapping mode on both sampling axes.
    pub fn set_wrapping_modes(&self, ctx: &mut Context, mode: TextureWrappingMode)
        ensures
            *final(ctx) == (Context { calls: final (ctx).calls, ..*old(ctx) }),
            final (ctx).calls@ == old(ctx).calls@.push(
                GlCall::TexWrapS { target: BindTextureTarget::Texture2D, mode },
            ).push(GlCall::TexWrapT { target: BindTextureTarget::Texture2D, mode }),
    {
        self.set_wrapping_mode(ctx, mode, mode);
    }

    /// Sets the minifying filter: the exhaustive combination of the base
    /// filter with the optional filter between detail levels.
    pub fn set_minifying_filter(
        &self,
        ctx: &mut Context,
        filter: TextureFilter,
        mipmap_filter: Option<TextureFilter>,
    )
        ensures
            *final(ctx) == (Context { calls: final (ctx).calls, ..*old(ctx) }),
            final (ctx).calls@ == old(ctx).calls@.push(
                GlCall::TexMinFilter {
                    target: BindTextureTarget::Texture2D,
                    filter: spec_min_filter(filter, mipmap_filter),
                },
            ),
    {
        let combined: TextureMinFilter = match (filter, mipmap_filter) {
            (TextureFilter::Nearest, Option::None) => TextureMinFilter::Nearest,
            (TextureFilter::Linear, Option::None) => TextureMinFilter::Linear,
            (
                TextureFilter::Nearest,
                Option::Some(TextureFilter::Nearest),
            ) => TextureMinFilter::NearestMipmapNearest,
            (
                TextureFilter::Linear,
                Option::Some(TextureFilter::Nearest),
            ) => TextureMinFilter::LinearMipmapNearest,
            (
                TextureFilter::Nearest,
                Option::Some(TextureFilter::Linear),
            ) => TextureMinFilter::NearestMipmapLinear,
            (
                TextureFilter::Linear,
                Option::Some(TextureFilter::Linear),
            ) => TextureMinFilter::LinearMipmapLinear,
        };
        ctx.calls.push(
            GlCall::TexMinFilter { target: BindTextureTarget::Texture2D, filter: combined },
        );
    }

    /// Sets the magnifying filter.
    pub fn set_magnifying_filter(&self, ctx: &mut Context, filter: TextureFilter)
        ensures
            *final(ctx) == (Context { calls: final (ctx).calls, ..*old(ctx) }),
            final (ctx).calls@ == old(ctx).calls@.push(
                GlCall::TexMagFilter { target: BindTextureTarget::Texture2D, filter },
            ),
    {
        ctx.calls.push(GlCall::TexMagFilter { target: BindTextureTarget::Texture2D, filter });
    }

    /// Sets the minifying and magnifying filters in one step.
    pub fn set_filters(
        &self,
        ctx: &mut Context,
        filter: TextureFilter,
        mipmap_filter: Option<TextureFilter>,
    )
        ensures
            *final(ctx) == (Context { calls: final (ctx).calls, ..*old(ctx) }),
            final (ctx).calls@ == old(ctx).calls@.push(
                GlCall::TexMinFilter {
                    target: BindTextureTarget::Texture2D,
                    filter: spec_min_filter(filter, mipmap_filter),
                },
            ).push(GlCall::TexMagFilter { target: BindTextureTarget::Texture2D, filter }),
    {
        self.set_minifying_filter(ctx, filter, mipmap_filter);
        self.set_magnifying_filter(ctx, filter);
    }
}

/// A texel count of two extents and at most four components fits in 128 bits.
proof fn lemma_texel_count_fits(width: u32, height: u32, components: u8)
    ensures
        0 <= (width as int) * (height as int) * (components as int) < u128::MAX,
        width * height * components == (width as u128) * (height as u128) * (components as u128),
{
    assert(0 <= (width as int) * (height as int) * (components as int) < u128::MAX)
        by (nonlinear_arith)
        requires
            0 <= width <= 0xffffffffu32,
            0 <= height <= 0xffffffffu32,
            0 <= components <= 0xffu8,
    ;
}

/// The bit length of a value: the number of halvings that reach 0.
fn bit_len(x: u32) -> (length: u32)
    ensures
        length == spec_bit_len(x as nat),
{
    proof {
        vstd::arithmetic::power2::lemma2_to64();
        lemma_bit_len_bound(x as nat, 32);
    }
    let mut remaining: u32 = x;
    let mut length: u32 = 0;
    while remaining > 0
        invariant
            length + spec_bit_len(remaining as nat) == spec_bit_len(x as nat),
            spec_bit_len(x as nat) <= 32,
        decreases remaining,
    {
        remaining = remaining / 2;
        length = length + 1;
    }
    length
}

/// The size of one detail level on one axis.
fn extent_at_lod(extent: u32, level: u32) -> (result: u32)
    ensures
        result == spec_size_at_lod(extent, level as nat),
{
    proof {
        vstd::arithmetic::power2::lemma2_to64();
    }
    if level >= 32 {
        proof {
            if level > 32 {
                vstd::arithmetic::power2::lemma_pow2_strictly_increases(32, level as nat);
            }
            vstd::arithmetic::div_mod::lemma_basic_div(
                extent as int,
                vstd::arithmetic::power2::pow2(level as nat) as int,
            );
        }
        1
    } else {
        proof {
            vstd::bits::lemma_u32_shr_is_div(extent, level);
        }
        let halved: u32 = extent >> level;
        if halved == 0 {
            1
        } else {
            halved
        }
    }
}

} // verus!
