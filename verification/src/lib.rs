//! A safety layer over a stateful, handle-and-global-binding-point graphics
//! API in the style of OpenGL ES 2.0.
//!
//! The underlying API exposes server-side objects (buffers, textures, shaders,
//! programs, framebuffers) that are manipulated indirectly: a handle is bound
//! to a named binding point and subsequent calls implicitly act on whatever is
//! bound there. This crate makes that indirection safe and auditable: every
//! command that would be issued to the driver is recorded as a [`GlCall`] in
//! the owning [`Context`], each binding point is tracked by an explicit
//! state machine, and the typed buffer/texture/uniform wrappers check their
//! invariants up front and report misuse as descriptive error values.

use vstd::prelude::*;

mod buffer;
mod context;
mod debug;
mod error;
mod framebuffer;
pub mod math;
mod profiling;
mod random;
mod shader;
mod texture;
mod traits;
mod utils;

pub use buffer::lemma_upload_read_back_round_trip;
pub use buffer::spec_attribs_size;
pub use buffer::spec_configure_calls;
pub use buffer::spec_disable_calls;
pub use buffer::spec_enable_calls;
pub use buffer::AttribPtr;
pub use buffer::AttribPtrType;
pub use buffer::AttribPtrTypeName;
pub use buffer::BufferIndex;
pub use buffer::BufferUsageHint;
pub use buffer::CorrespondingAttribPtrType;
pub use buffer::DrawElementsType;
pub use buffer::DrawPrimitive;
pub use buffer::ElementBuffer;
pub use buffer::ElementBufferBinding;
pub use buffer::VertexBuffer;
pub use buffer::VertexBufferBinding;
pub use context::bind_call;
pub use context::lemma_bind_cycle_issues_one_bind;
pub use context::lemma_overlapping_binding_rejected;
pub use context::lemma_rebind_appends_nothing;
pub use context::spec_bind_call;
pub use context::BindBufferTarget;
pub use context::BindFramebufferTarget;
pub use context::BindTargetKind;
pub use context::BindTextureTarget;
pub use context::BindingTarget;
pub use context::BlendingEquation;
pub use context::BlendingFactor;
pub use context::ClearFlags;
pub use context::ColorMask;
pub use context::Context;
pub use context::ContextCapabilities;
pub use context::ContextExtensions;
pub use context::DepthFunction;
pub use context::DriverReplies;
pub use context::FaceCullingMode;
pub use context::Feature;
pub use context::FrontFaceWinding;
pub use context::GlCall;
pub use context::TextureUnit;
pub use debug::get_object_debug_label;
pub use debug::set_object_debug_label;
pub use debug::spec_label_lookup;
pub use debug::unset_object_debug_label;
pub use debug::ObjectNamespace;
pub use error::decimal_string;
pub use error::spec_decimal_digits;
pub use error::spec_decimal_i32;
pub use error::decimal_string_i32;
pub use error::OoglError;
pub use framebuffer::Framebuffer;
pub use framebuffer::FramebufferBinding;
pub use framebuffer::FramebufferStatus;
pub use profiling::spec_saturating_add;
pub use profiling::spec_total_nanos;
pub use profiling::AverageTimeSampler;
pub use random::spec_u128_from_le_bytes;
pub use random::spec_u64_le_byte;
pub use random::GlobalRandom;
pub use random::RandomInitError;
pub use shader::reflect_block;
pub use shader::spec_attrib_handle_ok;
pub use shader::spec_attrib_mismatch;
pub use shader::spec_attrib_mismatch_error;
pub use shader::spec_glsl_type_string;
pub use shader::spec_reflected_entry_error;
pub use shader::spec_reflected_entry_mismatch;
pub use shader::spec_reflected_entry_ok;
pub use shader::spec_type_list_string;
pub use shader::spec_uniform_handle_ok;
pub use shader::spec_uniform_mismatch;
pub use shader::spec_uniform_mismatch_error;
pub use shader::type_list_string;
pub use shader::spec_is_array_name;
pub use shader::spec_lookup;
pub use shader::spec_strip_array_marker;
pub use shader::ActiveAttrib;
pub use shader::ActiveUniform;
pub use shader::Attrib;
pub use shader::AttribDescriptor;
pub use shader::CorrespondingAttribType;
pub use shader::CorrespondingUniformType;
pub use shader::GlslType;
pub use shader::GlslTypeName;
pub use shader::Program;
pub use shader::ProgramBinding;
pub use shader::ReflectedHandle;
pub use shader::ReflectionEntry;
pub use shader::ReflectionKind;
pub use shader::SetToUniform;
pub use shader::Shader;
pub use shader::ShaderType;
pub use shader::Uniform;
pub use shader::UniformDescriptor;
pub use shader::INACTIVE_ATTRIB_LOCATION;
pub use shader::INACTIVE_UNIFORM_LOCATION;
pub use texture::lemma_size_at_extreme_lods;
pub use texture::lemma_texture_rebind_appends_nothing;
pub use texture::spec_bit_len;
pub use texture::spec_resolved_unit;
pub use texture::spec_size_at_lod;
pub use texture::spec_texture_bind_calls;
pub use texture::Texture2D;
pub use texture::Texture2DBinding;
pub use texture::TextureDataType;
pub use texture::TextureFilter;
pub use texture::TextureInputDataType;
pub use texture::TextureInputFormat;
pub use texture::TextureInternalFormat;
pub use texture::TextureMinFilter;
pub use texture::TextureWrappingMode;
pub use traits::get_debug_label;
pub use traits::set_debug_label;
pub use traits::Object;
pub use utils::result_map_both;

verus! {

/// The greatest number of texture units the context will ever hand out, no
/// matter how many the driver reports.
pub const MAX_USABLE_TEXTURE_UNITS: u16 = 16;

} // verus!
