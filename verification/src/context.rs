//! The context: the recorded command stream, the capability probe result, the
//! binding-target state machines and the texture-unit free list.
//!
//! The underlying API is a single-threaded stream of commands issued against
//! global binding points. The [`Context`] models that stream explicitly: every
//! command that would reach the driver is appended to [`Context::calls`], and
//! one [`BindingTarget`] per binding point records which handle is currently
//! bound there and whether a scoped binding is alive for it. Redundant rebinds
//! of the already-bound handle append nothing.

use vstd::prelude::*;

use crate::buffer::AttribPtrTypeName;
use crate::buffer::BufferUsageHint;
use crate::buffer::DrawElementsType;
use crate::buffer::DrawPrimitive;
use crate::error::OoglError;

verus! {

/// The binding point a buffer handle can be bound to.
#[derive(Debug, Copy, Clone, PartialEq, Eq, Structural)]
pub enum BindBufferTarget {
    Vertex,
    Element,
}

/// The binding point a texture handle can be bound to.
#[derive(Debug, Copy, Clone, PartialEq, Eq, Structural)]
pub enum BindTextureTarget {
    Texture2D,
    CubeMap,
}

/// The binding point a framebuffer handle can be bound to.
#[derive(Debug, Copy, Clone, PartialEq, Eq, Structural)]
pub enum BindFramebufferTarget {
    Default,
}

/// The kind of binding point a [`BindingTarget`] tracks, which determines the
/// command issued when a handle is bound there.
#[derive(Debug, Copy, Clone, PartialEq, Eq, Structural)]
pub enum BindTargetKind {
    Program,
    VertexBuffer,
    ElementBuffer,
    Texture2D,
    Framebuffer,
}

/// One command of the underlying API, as the context would issue it.
#[derive(Debug, Clone, PartialEq, Eq)]
pub enum GlCall {
    CreateShader { shader_type: crate::shader::ShaderType, addr: u32 },
    DeleteShader { addr: u32 },
    /// Uploads `byte_len` bytes of source text to the shader `addr`.
    ShaderSource { addr: u32, byte_len: usize },
    CompileShader { addr: u32 },
    CreateProgram { addr: u32 },
    DeleteProgram { addr: u32 },
    AttachShader { program_addr: u32, shader_addr: u32 },
    DetachShader { program_addr: u32, shader_addr: u32 },
    LinkProgram { addr: u32 },
    /// Requests `location` for the attribute named `name` before linking.
    BindAttribLocation { program_addr: u32, location: u32, name: String },
    /// Sets one integer (or sampler-unit or boolean) uniform value.
    Uniform1i { location: i32, x: i32 },
    /// Sets one two-component integer (or boolean-pair) uniform value.
    Uniform2i { location: i32, x: i32, y: i32 },
    GenBuffer { addr: u32 },
    DeleteBuffer { addr: u32 },
    BindBuffer { target: BindBufferTarget, addr: u32 },
    UseProgram { addr: u32 },
    GenTexture { addr: u32 },
    DeleteTexture { addr: u32 },
    ActiveTexture { unit: u16 },
    BindTexture { target: BindTextureTarget, addr: u32 },
    GenFramebuffer { addr: u32 },
    DeleteFramebuffer { addr: u32 },
    BindFramebuffer { target: BindFramebufferTarget, addr: u32 },
    /// (Re)allocates the storage of the buffer bound at `target`, with or
    /// without uploading data into it.
    BufferData { target: BindBufferTarget, byte_len: usize, usage: BufferUsageHint, with_data: bool },
    /// Overwrites a byte sub-range of the storage of the buffer bound at
    /// `target`.
    BufferSubData { target: BindBufferTarget, byte_offset: usize, byte_len: usize },
    DrawArrays { mode: DrawPrimitive, first: usize, count: usize },
    DrawElements { mode: DrawPrimitive, count: usize, element_type: DrawElementsType, byte_offset: usize },
    VertexAttribPointer {
        location: u32,
        size: u32,
        scalar_type: AttribPtrTypeName,
        normalize: bool,
        stride: u32,
        offset: u32,
    },
    EnableVertexAttribArray { location: u32 },
    DisableVertexAttribArray { location: u32 },
    /// (Re)allocates the storage of one detail level of the texture bound at
    /// the 2D-texture binding point, with or without uploading texels.
    TexImage2D {
        level: u32,
        internal_format: crate::texture::TextureInternalFormat,
        width: u32,
        height: u32,
        input_format: crate::texture::TextureInputFormat,
        input_data_type: crate::texture::TextureInputDataType,
        with_data: bool,
    },
    /// Overwrites a rectangle of one detail level of the texture bound at
    /// the 2D-texture binding point.
    TexSubImage2D {
        level: u32,
        x: u32,
        y: u32,
        width: u32,
        height: u32,
        input_format: crate::texture::TextureInputFormat,
        input_data_type: crate::texture::TextureInputDataType,
    },
    GenerateMipmap { target: BindTextureTarget },
    TexWrapS { target: BindTextureTarget, mode: crate::texture::TextureWrappingMode },
    TexWrapT { target: BindTextureTarget, mode: crate::texture::TextureWrappingMode },
    TexMinFilter { target: BindTextureTarget, filter: crate::texture::TextureMinFilter },
    TexMagFilter { target: BindTextureTarget, filter: crate::texture::TextureFilter },
    Enable { feature: Feature },
    Disable { feature: Feature },
    BlendFunc { src: BlendingFactor, dest: BlendingFactor },
    BlendEquation { equation: BlendingEquation },
    Clear { flags: ClearFlags },
    Viewport { x: i32, y: i32, width: i32, height: i32 },
    FrontFace { winding: FrontFaceWinding },
    CullFace { mode: FaceCullingMode },
    DepthFunc { function: DepthFunction },
    DepthMask { writable: bool },
    ColorMask { mask: ColorMask },
    ReleaseShaderCompiler,
    /// Attaches `label_len` bytes of debug label to the object `addr` of
    /// `namespace`; zero bytes detach it.
    ObjectLabel { namespace: crate::debug::ObjectNamespace, addr: u32, label_len: usize },
}

/// A switchable capability of the pipeline.
#[derive(Debug, Copy, Clone, PartialEq, Eq, Structural)]
pub enum Feature {
    Blend,
    CullFace,
    DepthTest,
}

/// A blending factor for source or destination color.
#[derive(Debug, Copy, Clone, PartialEq, Eq, Structural)]
pub enum BlendingFactor {
    Zero,
    One,
    SrcColor,
    SrcAlpha,
    OneMinusSrcColor,
    OneMinusSrcAlpha,
    DestColor,
    DestAlpha,
    OneMinusDestColor,
    OneMinusDestAlpha,
    ConstColor,
    ConstAlpha,
    OneMinusConstColor,
    OneMinusConstAlpha,
}

/// How source and destination colors are combined when blending.
#[derive(Debug, Copy, Clone, PartialEq, Eq, Structural)]
pub enum BlendingEquation {
    Add,
    Sub,
    SubRev,
}

/// Which buffers a clear command clears.
#[derive(Debug, Copy, Clone, PartialEq, Eq, Structural)]
pub struct ClearFlags {
    pub color: bool,
    pub depth: bool,
    pub stencil: bool,
}

/// The winding order that makes a face front-facing.
#[derive(Debug, Copy, Clone, PartialEq, Eq, Structural)]
pub enum FrontFaceWinding {
    Clockwise,
    CounterClockwise,
}

impl FrontFaceWinding {
    /// The other winding order.
    pub fn opposite(self) -> (winding: FrontFaceWinding)
        ensures
            winding == (match self {
                FrontFaceWinding::Clockwise => FrontFaceWinding::CounterClockwise,
                FrontFaceWinding::CounterClockwise => FrontFaceWinding::Clockwise,
            }),
    {
        match self {
            FrontFaceWinding::Clockwise => FrontFaceWinding::CounterClockwise,
            FrontFaceWinding::CounterClockwise => FrontFaceWinding::Clockwise,
        }
    }
}

/// Which faces culling removes.
#[derive(Debug, Copy, Clone, PartialEq, Eq, Structural)]
pub enum FaceCullingMode {
    Front,
    Back,
    FrontAndBack,
}

/// The comparison the depth test applies.
#[derive(Debug, Copy, Clone, PartialEq, Eq, Structural)]
pub enum DepthFunction {
    Never,
    Less,
    Equal,
    LessOrEqual,
    Greater,
    NotEqual,
    GreaterOrEqual,
    Always,
}

/// Which color channels rendering may write.
#[derive(Debug, Copy, Clone, PartialEq, Eq, Structural)]
pub struct ColorMask {
    pub red: bool,
    pub green: bool,
    pub blue: bool,
    pub alpha: bool,
}

/// The command that binds `addr` to the binding point tracked as `kind`.
pub open spec fn spec_bind_call(kind: BindTargetKind, addr: u32) -> GlCall {
    match kind {
        BindTargetKind::Program => GlCall::UseProgram { addr },
        BindTargetKind::VertexBuffer => GlCall::BindBuffer {
            target: BindBufferTarget::Vertex,
            addr,
        },
        BindTargetKind::ElementBuffer => GlCall::BindBuffer {
            target: BindBufferTarget::Element,
            addr,
        },
        BindTargetKind::Texture2D => GlCall::BindTexture {
            target: BindTextureTarget::Texture2D,
            addr,
        },
        BindTargetKind::Framebuffer => GlCall::BindFramebuffer {
            target: BindFramebufferTarget::Default,
            addr,
        },
    }
}

/// Builds the bind command for `kind` and `addr`.
pub fn bind_call(kind: BindTargetKind, addr: u32) -> (call: GlCall)
    ensures
        call == spec_bind_call(kind, addr),
{
    match kind {
        BindTargetKind::Program => GlCall::UseProgram { addr },
        BindTargetKind::VertexBuffer => GlCall::BindBuffer {
            target: BindBufferTarget::Vertex,
            addr,
        },
        BindTargetKind::ElementBuffer => GlCall::BindBuffer {
            target: BindBufferTarget::Element,
            addr,
        },
        BindTargetKind::Texture2D => GlCall::BindTexture {
            target: BindTextureTarget::Texture2D,
            addr,
        },
        BindTargetKind::Framebuffer => GlCall::BindFramebuffer {
            target: BindFramebufferTarget::Default,
            addr,
        },
    }
}

/// The state machine of one binding point: which handle is currently bound
/// there, and whether a scoped binding is currently alive for it.
///
/// The central invariant of the layer: a new scoped binding may not be
/// created while `is_binding_alive` is set. This is what catches two
/// overlapping logical operations stepping on each other through the same
/// binding point. The `bound_addr` field persists across binding drops, so
/// rebinding the same handle later appends no command.
#[derive(Debug, Copy, Clone, PartialEq, Eq, Structural)]
pub struct BindingTarget {
    pub kind: BindTargetKind,
    pub bound_addr: u32,
    pub is_binding_alive: bool,
}

impl BindingTarget {
    /// The commands a `bind_if_needed` of `addr` appends: one bind command if
    /// a different handle is bound, nothing otherwise.
    pub open spec fn spec_bind_calls(self, addr: u32) -> Seq<GlCall> {
        if self.bound_addr == addr {
            Seq::<GlCall>::empty()
        } else {
            seq![spec_bind_call(self.kind, addr)]
        }
    }

    /// Whether a new scoped binding may be created: only while no other
    /// scoped binding is alive for this binding point.
    pub open spec fn spec_accepts_binding(self) -> bool {
        !self.is_binding_alive
    }

    /// The tracker state a successful scoped bind of `addr` leaves behind:
    /// `addr` bound, the binding alive.
    pub open spec fn spec_after_scoped_bind(self, addr: u32) -> BindingTarget {
        BindingTarget { kind: self.kind, bound_addr: addr, is_binding_alive: true }
    }

    /// The tracker state dropping the scoped binding leaves behind: the
    /// binding no longer alive, the bound handle kept.
    pub open spec fn spec_after_binding_dropped(self) -> BindingTarget {
        BindingTarget { is_binding_alive: false, ..self }
    }

    /// A fresh tracker: nothing bound (handle 0), no binding alive.
    pub fn new(kind: BindTargetKind) -> (target: BindingTarget)
        ensures
            target == (BindingTarget { kind, bound_addr: 0u32, is_binding_alive: false }),
    {
        BindingTarget { kind, bound_addr: 0, is_binding_alive: false }
    }

    /// The kind of binding point this tracker watches.
    pub fn target(&self) -> (kind: BindTargetKind)
        ensures
            kind == self.kind,
    {
        self.kind
    }

    /// The handle currently bound at this binding point, 0 for none.
    pub fn bound_addr(&self) -> (addr: u32)
        ensures
            addr == self.bound_addr,
    {
        self.bound_addr
    }

    /// Whether any handle (other than 0) is bound at this binding point.
    pub fn is_anything_bound(&self) -> (bound: bool)
        ensures
            bound == (self.bound_addr != 0),
    {
        self.bound_addr != 0
    }

    /// Whether a scoped binding is currently alive for this binding point.
    pub fn is_binding_alive(&self) -> (alive: bool)
        ensures
            alive == self.is_binding_alive,
    {
        self.is_binding_alive
    }

    /// Marks a scoped binding of `addr` as created. Fails, changing nothing,
    /// if a scoped binding is already alive for this binding point.
    pub fn on_binding_created(&mut self, addr: u32) -> (result: Result<(), OoglError>)
        ensures
            !old(self).spec_accepts_binding() ==> result == Err::<(), OoglError>(
                OoglError::OverlappingBinding { new_addr: addr, old_addr: old(self).bound_addr },
            ) && *final(self) == *old(self),
            old(self).spec_accepts_binding() ==> result == Ok::<(), OoglError>(()) && *final(self)
                == (BindingTarget { is_binding_alive: true, ..*old(self) }),
    {
        if self.is_binding_alive {
            Err(OoglError::OverlappingBinding { new_addr: addr, old_addr: self.bound_addr })
        } else {
            self.is_binding_alive = true;
            Ok(())
        }
    }

    /// Marks the live scoped binding as dropped. The bound handle persists,
    /// so a later rebind of the same handle is free.
    pub fn on_binding_dropped(&mut self)
        ensures
            *final(self) == old(self).spec_after_binding_dropped(),
    {
        self.is_binding_alive = false;
    }

    /// Issues the bind command for `addr` unconditionally and records it as
    /// bound.
    pub fn bind_unconditionally(&mut self, calls: &mut Vec<GlCall>, addr: u32)
        ensures
            *final(self) == (BindingTarget { bound_addr: addr, ..*old(self) }),
            final(calls)@ == old(calls)@.push(spec_bind_call(old(self).kind, addr)),
    {
        let call = bind_call(self.kind, addr);
        calls.push(call);
        self.bound_addr = addr;
    }

    /// Issues the bind command that leaves handle 0 bound, so that the object
    /// previously bound here leaves no trace of itself.
    pub fn unbind_unconditionally(&mut self, calls: &mut Vec<GlCall>)
        ensures
            *final(self) == (BindingTarget { bound_addr: 0u32, ..*old(self) }),
            final(calls)@ == old(calls)@.push(spec_bind_call(old(self).kind, 0)),
    {
        self.bind_unconditionally(calls, 0)
    }

    /// Issues the bind command for `addr` only if a different handle is
    /// currently bound; always records `addr` as bound.
    pub fn bind_if_needed(&mut self, calls: &mut Vec<GlCall>, addr: u32)
        ensures
            *final(self) == (BindingTarget { bound_addr: addr, ..*old(self) }),
            final(calls)@ == old(calls)@ + old(self).spec_bind_calls(addr),
    {
        if self.bound_addr != addr {
            self.bind_unconditionally(calls, addr);
            assert(final(calls)@ =~= old(calls)@ + old(self).spec_bind_calls(addr));
        } else {
            assert(final(calls)@ =~= old(calls)@ + old(self).spec_bind_calls(addr));
        }
    }
}

/// Idempotent rebinding: binding a handle to a binding point where that same
/// handle is already bound appends no command at all.
pub proof fn lemma_rebind_appends_nothing(target: BindingTarget, addr: u32)
    requires
        target.bound_addr == addr,
    ensures
        target.spec_bind_calls(addr) == Seq::<GlCall>::empty(),
{
}

/// Idempotent rebinding across a whole bind-drop-bind sequence: binding a
/// handle to a binding point where a different handle is bound issues exactly
/// one bind command, and after the scoped binding is dropped, binding the
/// same handle again issues none.
pub proof fn lemma_bind_cycle_issues_one_bind(target: BindingTarget, addr: u32)
    requires
        target.spec_accepts_binding(),
        target.bound_addr != addr,
    ensures
        target.spec_bind_calls(addr).len() == 1,
        ({
            let rested = target.spec_after_scoped_bind(addr).spec_after_binding_dropped();
            rested.spec_bind_calls(addr) == Seq::<GlCall>::empty() && rested.spec_accepts_binding()
        }),
{
}

/// Overlapping scoped bindings are rejected: a binding point that accepts a
/// scoped bind no longer accepts one after it, until that binding is dropped
/// — so of two overlapping scoped bindings on the same binding point, the
/// second is refused.
pub proof fn lemma_overlapping_binding_rejected(target: BindingTarget, first_addr: u32)
    requires
        target.spec_accepts_binding(),
    ensures
        !target.spec_after_scoped_bind(first_addr).spec_accepts_binding(),
        target.spec_after_scoped_bind(
            first_addr,
        ).spec_after_binding_dropped().spec_accepts_binding(),
{
}

/// The optional features the capability probe looks for.
#[derive(Debug, Copy, Clone, PartialEq, Eq, Structural)]
pub struct ContextExtensions {
    /// Debug labels and debug message callbacks are available.
    pub gl_khr_debug: bool,
    /// Textures with non-power-of-two sizes are fully supported.
    pub gl_oes_texture_npot: bool,
}

impl ContextExtensions {
    /// Collects the supported optional features out of the driver-reported
    /// extension name list.
    pub fn new(extension_names: &Vec<String>) -> (extensions: ContextExtensions)
        ensures
            extensions.gl_khr_debug == (exists|i: int|
                0 <= i < extension_names@.len() && extension_names@[i]@ == "GL_KHR_debug"@),
            extensions.gl_oes_texture_npot == (exists|i: int|
                0 <= i < extension_names@.len() && extension_names@[i]@ == "GL_OES_texture_npot"@),
    {
        let khr_debug_name: String = String::from_str("GL_KHR_debug");
        let texture_npot_name: String = String::from_str("GL_OES_texture_npot");
        let mut extensions = ContextExtensions { gl_khr_debug: false, gl_oes_texture_npot: false };
        let mut pos: usize = 0;
        while pos < extension_names.len()
            invariant
                0 <= pos <= extension_names@.len(),
                khr_debug_name@ == "GL_KHR_debug"@,
                texture_npot_name@ == "GL_OES_texture_npot"@,
                extensions.gl_khr_debug == (exists|i: int|
                    0 <= i < pos && extension_names@[i]@ == "GL_KHR_debug"@),
                extensions.gl_oes_texture_npot == (exists|i: int|
                    0 <= i < pos && extension_names@[i]@ == "GL_OES_texture_npot"@),
            decreases extension_names@.len() - pos,
        {
            let name = &extension_names[pos];
            let is_khr_debug: bool = name.eq(&khr_debug_name);
            let is_texture_npot: bool = name.eq(&texture_npot_name);
            if is_khr_debug {
                extensions.gl_khr_debug = true;
            }
            if is_texture_npot {
                extensions.gl_oes_texture_npot = true;
            }
            proof {
                if is_khr_debug {
                    assert(extension_names@[pos as int]@ == "GL_KHR_debug"@);
                } else {
                    assert(extension_names@[pos as int]@ != "GL_KHR_debug"@);
                }
                if is_texture_npot {
                    assert(extension_names@[pos as int]@ == "GL_OES_texture_npot"@);
                } else {
                    assert(extension_names@[pos as int]@ != "GL_OES_texture_npot"@);
                }
            }
            pos = pos + 1;
        }
        extensions
    }
}

/// What the capability probe reads from the driver once, at context creation:
/// identification strings, optional features and numeric limits.
#[derive(Debug, Clone)]
pub struct ContextCapabilities {
    pub renderer: String,
    pub vendor: String,
    pub gl_version: String,
    pub glsl_version: String,
    pub extensions: ContextExtensions,
    pub max_texture_units: u16,
    pub max_texture_size: u32,
    pub max_vertex_attribs: u32,
    pub max_debug_object_label_len: i32,
}

/// The replies the driver would give to the status queries the layer issues:
/// compile and link status, the current info log, the framebuffer status.
///
/// The embedder decides them, as the loaded function table would; the layer
/// only forwards them, so they are plain data here.
#[derive(Debug, Clone)]
pub struct DriverReplies {
    pub compile_status: bool,
    pub link_status: bool,
    pub info_log: Vec<u8>,
    pub framebuffer_status: crate::framebuffer::FramebufferStatus,
}

impl DriverReplies {
    /// The replies of a driver that accepts everything and has nothing to
    /// report.
    pub fn new() -> (replies: DriverReplies)
        ensures
            replies.compile_status,
            replies.link_status,
            replies.info_log@ == Seq::<u8>::empty(),
            replies.framebuffer_status == crate::framebuffer::FramebufferStatus::Complete,
    {
        DriverReplies {
            compile_status: true,
            link_status: true,
            info_log: Vec::new(),
            framebuffer_status: crate::framebuffer::FramebufferStatus::Complete,
        }
    }
}

/// The owner of the recorded command stream, the capability probe result, one
/// binding-target tracker per binding point and the texture-unit free list.
///
/// All state is plain data: the commands the layer would issue stand in
/// `calls` in program order, and every operation's contract says exactly
/// which commands it appends and how the trackers change.
#[derive(Debug)]
pub struct Context {
    /// What the capability probe found at creation.
    pub capabilities: ContextCapabilities,
    /// The driver's replies to status queries, decided by the embedder.
    pub replies: DriverReplies,
    /// Every command issued so far, in program order.
    pub calls: Vec<GlCall>,
    pub bound_program: BindingTarget,
    pub bound_vertex_buffer: BindingTarget,
    pub bound_element_buffer: BindingTarget,
    pub bound_texture_2d: BindingTarget,
    pub bound_framebuffer: BindingTarget,
    /// The texture unit that is currently active.
    pub active_texture_unit: u16,
    /// The texture units not currently owned by a [`TextureUnit`] value, as a
    /// stack: acquiring pops, releasing pushes.
    pub free_texture_units: Vec<u16>,
    /// The debug labels currently attached to objects, keyed by namespace and
    /// handle; empty when the debug-label extension is absent.
    pub debug_labels: Vec<(crate::debug::ObjectNamespace, u32, Vec<u8>)>,
    /// The next fresh handle; handles are never reused.
    pub next_addr: u32,
}

impl Context {
    /// Well-formedness: handles start at 1 and are never reused, so the next
    /// fresh handle is never 0; each tracker watches its own binding point;
    /// and the texture-unit free list holds only units below the usable
    /// count, each at most once, so no unit can be handed out twice.
    pub open spec fn wf(self) -> bool {
        &&& self.next_addr >= 1
        &&& self.bound_program.kind == BindTargetKind::Program
        &&& self.bound_vertex_buffer.kind == BindTargetKind::VertexBuffer
        &&& self.bound_element_buffer.kind == BindTargetKind::ElementBuffer
        &&& self.bound_texture_2d.kind == BindTargetKind::Texture2D
        &&& self.bound_framebuffer.kind == BindTargetKind::Framebuffer
        &&& forall|i: int|
            0 <= i < self.free_texture_units@.len() ==> #[trigger] self.free_texture_units@[i]
                < self.spec_usable_texture_units()
        &&& forall|i: int, j: int|
            0 <= i < j < self.free_texture_units@.len() ==> self.free_texture_units@[i]
                != self.free_texture_units@[j]
    }

    /// How many texture units this context hands out: what the driver
    /// reports, bounded by [`crate::MAX_USABLE_TEXTURE_UNITS`].
    pub open spec fn spec_usable_texture_units(self) -> u16 {
        if self.capabilities.max_texture_units <= crate::MAX_USABLE_TEXTURE_UNITS {
            self.capabilities.max_texture_units
        } else {
            crate::MAX_USABLE_TEXTURE_UNITS
        }
    }

    /// Creates a context over the given capability probe result, with nothing
    /// bound anywhere, texture unit 0 active, the full texture-unit free
    /// list, an empty command stream, and a driver that accepts everything.
    ///
    /// Fails, as context loading does, when the non-power-of-two-texture
    /// extension the layer unconditionally needs is absent.
    pub fn new(capabilities: ContextCapabilities) -> (result: Result<Context, OoglError>)
        ensures
            match result {
                Ok(ctx) => {
                    &&& capabilities.extensions.gl_oes_texture_npot
                    &&& ctx.capabilities == capabilities
                    &&& ctx.replies.compile_status
                    &&& ctx.replies.link_status
                    &&& ctx.replies.info_log@ == Seq::<u8>::empty()
                    &&& ctx.calls@ == Seq::<GlCall>::empty()
                    &&& ctx.bound_program == (BindingTarget {
                        kind: BindTargetKind::Program,
                        bound_addr: 0u32,
                        is_binding_alive: false,
                    })
                    &&& ctx.bound_vertex_buffer == (BindingTarget {
                        kind: BindTargetKind::VertexBuffer,
                        bound_addr: 0u32,
                        is_binding_alive: false,
                    })
                    &&& ctx.bound_element_buffer == (BindingTarget {
                        kind: BindTargetKind::ElementBuffer,
                        bound_addr: 0u32,
                        is_binding_alive: false,
                    })
                    &&& ctx.bound_texture_2d == (BindingTarget {
                        kind: BindTargetKind::Texture2D,
                        bound_addr: 0u32,
                        is_binding_alive: false,
                    })
                    &&& ctx.bound_framebuffer == (BindingTarget {
                        kind: BindTargetKind::Framebuffer,
                        bound_addr: 0u32,
                        is_binding_alive: false,
                    })
                    &&& ctx.active_texture_unit == 0u16
                    &&& ctx.free_texture_units@.len() == ctx.spec_usable_texture_units()
                    &&& forall|i: int|
                        0 <= i < ctx.free_texture_units@.len()
                            ==> ctx.free_texture_units@[i] as int
                            == ctx.spec_usable_texture_units() - 1 - i
                    &&& ctx.debug_labels@ == Seq::<
                        (crate::debug::ObjectNamespace, u32, Vec<u8>),
                    >::empty()
                    &&& ctx.next_addr == 1u32
                    &&& ctx.wf()
                },
                Err(e) => {
                    &&& e == OoglError::RequiredExtensionMissing
                    &&& !capabilities.extensions.gl_oes_texture_npot
                },
            },
    {
        if !capabilities.extensions.gl_oes_texture_npot {
            return Err(OoglError::RequiredExtensionMissing);
        }
        let usable: u16 = if capabilities.max_texture_units <= crate::MAX_USABLE_TEXTURE_UNITS {
            capabilities.max_texture_units
        } else {
            crate::MAX_USABLE_TEXTURE_UNITS
        };
        let mut free_texture_units: Vec<u16> = Vec::new();
        let mut remaining: u16 = usable;
        while remaining > 0
            invariant
                0 <= remaining <= usable,
                free_texture_units@.len() == usable - remaining,
                forall|i: int|
                    0 <= i < free_texture_units@.len() ==> free_texture_units@[i] as int == usable
                        - 1 - i,
            decreases remaining,
        {
            free_texture_units.push(remaining - 1);
            remaining = remaining - 1;
        }
        Ok(
            Context {
                capabilities,
                replies: DriverReplies::new(),
                calls: Vec::new(),
                bound_program: BindingTarget::new(BindTargetKind::Program),
                bound_vertex_buffer: BindingTarget::new(BindTargetKind::VertexBuffer),
                bound_element_buffer: BindingTarget::new(BindTargetKind::ElementBuffer),
                bound_texture_2d: BindingTarget::new(BindTargetKind::Texture2D),
                bound_framebuffer: BindingTarget::new(BindTargetKind::Framebuffer),
                active_texture_unit: 0,
                free_texture_units,
                debug_labels: Vec::new(),
                next_addr: 1,
            },
        )
    }

    /// The capability probe result.
    pub fn capabilities(&self) -> (capabilities: &ContextCapabilities)
        ensures
            capabilities == self.capabilities,
    {
        &self.capabilities
    }

    /// The commands issued so far, in program order.
    pub fn calls(&self) -> (calls: &Vec<GlCall>)
        ensures
            calls == self.calls,
    {
        &self.calls
    }

    /// The texture unit that is currently active.
    pub fn active_texture_unit(&self) -> (unit: u16)
        ensures
            unit == self.active_texture_unit,
    {
        self.active_texture_unit
    }

    /// Issues the command that makes `unit` the active texture unit and
    /// records it as active.
    pub(crate) fn set_active_texture_unit(&mut self, unit: u16)
        ensures
            *final(self) == (Context {
                active_texture_unit: unit,
                calls: final (self).calls,
                ..*old(self)
            }),
            final (self).calls@ == old(self).calls@.push(GlCall::ActiveTexture { unit }),
    {
        self.calls.push(GlCall::ActiveTexture { unit });
        self.active_texture_unit = unit;
    }

    /// Hands out a fresh, never-reused server-side handle.
    pub(crate) fn fresh_addr(&mut self) -> (addr: u32)
        requires
            old(self).wf(),
            old(self).next_addr < u32::MAX,
        ensures
            addr == old(self).next_addr,
            addr != 0,
            final (self).wf(),
            *final(self) == (Context { next_addr: final (self).next_addr, ..*old(self) }),
            final (self).next_addr == old(self).next_addr + 1,
    {
        let addr: u32 = self.next_addr;
        self.next_addr = self.next_addr + 1;
        addr
    }
    /// Switches blending on or off.
    pub fn set_blending_enabled(&mut self, enabled: bool)
        ensures
            *final(self) == (Context { calls: final (self).calls, ..*old(self) }),
            final (self).calls@ == old(self).calls@.push(if enabled { GlCall::Enable { feature: Feature::Blend } } else { GlCall::Disable { feature: Feature::Blend } }),
    {
        self.calls.push(if enabled { GlCall::Enable { feature: Feature::Blend } } else { GlCall::Disable { feature: Feature::Blend } });
    }

    /// Sets the blending factors.
    pub fn set_blending_factors(&mut self, src: BlendingFactor, dest: BlendingFactor)
        ensures
            *final(self) == (Context { calls: final (self).calls, ..*old(self) }),
            final (self).calls@ == old(self).calls@.push(GlCall::BlendFunc { src, dest }),
    {
        self.calls.push(GlCall::BlendFunc { src, dest });
    }

    /// Sets the blending equation.
    pub fn set_blending_equation(&mut self, equation: BlendingEquation)
        ensures
            *final(self) == (Context { calls: final (self).calls, ..*old(self) }),
            final (self).calls@ == old(self).calls@.push(GlCall::BlendEquation { equation }),
    {
        self.calls.push(GlCall::BlendEquation { equation });
    }

    /// Clears the selected buffers of the current render target.
    pub fn clear(&mut self, flags: ClearFlags)
        ensures
            *final(self) == (Context { calls: final (self).calls, ..*old(self) }),
            final (self).calls@ == old(self).calls@.push(GlCall::Clear { flags }),
    {
        self.calls.push(GlCall::Clear { flags });
    }

    /// Tells the driver the shader compiler will not be needed for a while.
    pub fn release_shader_compiler(&mut self)
        ensures
            *final(self) == (Context { calls: final (self).calls, ..*old(self) }),
            final (self).calls@ == old(self).calls@.push(GlCall::ReleaseShaderCompiler),
    {
        self.calls.push(GlCall::ReleaseShaderCompiler);
    }

    /// Switches face culling on or off.
    pub fn set_face_culling_enabled(&mut self, enabled: bool)
        ensures
            *final(self) == (Context { calls: final (self).calls, ..*old(self) }),
            final (self).calls@ == old(self).calls@.push(if enabled { GlCall::Enable { feature: Feature::CullFace } } else { GlCall::Disable { feature: Feature::CullFace } }),
    {
        self.calls.push(if enabled { GlCall::Enable { feature: Feature::CullFace } } else { GlCall::Disable { feature: Feature::CullFace } });
    }

    /// Sets which winding order is front-facing.
    pub fn set_front_face_winding(&mut self, winding: FrontFaceWinding)
        ensures
            *final(self) == (Context { calls: final (self).calls, ..*old(self) }),
            final (self).calls@ == old(self).calls@.push(GlCall::FrontFace { winding }),
    {
        self.calls.push(GlCall::FrontFace { winding });
    }

    /// Sets which faces culling removes.
    pub fn set_face_culling_mode(&mut self, mode: FaceCullingMode)
        ensures
            *final(self) == (Context { calls: final (self).calls, ..*old(self) }),
            final (self).calls@ == old(self).calls@.push(GlCall::CullFace { mode }),
    {
        self.calls.push(GlCall::CullFace { mode });
    }

    /// Switches the depth test on or off.
    pub fn set_depth_test_enabled(&mut self, enabled: bool)
        ensures
            *final(self) == (Context { calls: final (self).calls, ..*old(self) }),
            final (self).calls@ == old(self).calls@.push(if enabled { GlCall::Enable { feature: Feature::DepthTest } } else { GlCall::Disable { feature: Feature::DepthTest } }),
    {
        self.calls.push(if enabled { GlCall::Enable { feature: Feature::DepthTest } } else { GlCall::Disable { feature: Feature::DepthTest } });
    }

    /// Switches depth-buffer writes on or off.
    pub fn set_depth_buffer_writable(&mut self, writable: bool)
        ensures
            *final(self) == (Context { calls: final (self).calls, ..*old(self) }),
            final (self).calls@ == old(self).calls@.push(GlCall::DepthMask { writable }),
    {
        self.calls.push(GlCall::DepthMask { writable });
    }

    /// Sets the comparison the depth test applies.
    pub fn set_depth_function(&mut self, function: DepthFunction)
        ensures
            *final(self) == (Context { calls: final (self).calls, ..*old(self) }),
            final (self).calls@ == old(self).calls@.push(GlCall::DepthFunc { function }),
    {
        self.calls.push(GlCall::DepthFunc { function });
    }

    /// Sets which color channels rendering may write.
    pub fn set_color_mask(&mut self, mask: ColorMask)
        ensures
            *final(self) == (Context { calls: final (self).calls, ..*old(self) }),
            final (self).calls@ == old(self).calls@.push(GlCall::ColorMask { mask }),
    {
        self.calls.push(GlCall::ColorMask { mask });
    }

    /// Sets the rendered viewport: its lower-left corner and its size.
    pub fn set_viewport(&mut self, pos: crate::math::Vec2<i32>, size: crate::math::Vec2<i32>)
        ensures
            *final(self) == (Context { calls: final (self).calls, ..*old(self) }),
            final (self).calls@ == old(self).calls@.push(
                GlCall::Viewport { x: pos.x, y: pos.y, width: size.x, height: size.y },
            ),
    {
        self.calls.push(GlCall::Viewport { x: pos.x, y: pos.y, width: size.x, height: size.y });
    }
}



/// Exclusive ownership of one texture unit, taken from the context's free
/// list and returned to it with [`TextureUnit::free`].
#[derive(Debug)]
pub struct TextureUnit {
    id: u16,
}

impl TextureUnit {
    /// The index of the owned unit.
    pub closed spec fn spec_id(self) -> u16 {
        self.id
    }

    /// The index of the owned unit.
    pub fn id(&self) -> (id: u16)
        ensures
            id == self.spec_id(),
    {
        self.id
    }

    /// Takes ownership of a free texture unit, popping the context's free
    /// list. Fails, changing nothing, when no unit is left. The unit handed
    /// out is below the usable count and is no longer in the free list, so no
    /// two live units share an index.
    pub fn new(ctx: &mut Context) -> (result: Result<TextureUnit, OoglError>)
        requires
            old(ctx).wf(),
        ensures
            final (ctx).wf(),
            match result {
                Ok(unit) => {
                    &&& old(ctx).free_texture_units@.len() > 0
                    &&& unit.spec_id() == old(ctx).free_texture_units@.last()
                    &&& unit.spec_id() < old(ctx).spec_usable_texture_units()
                    &&& !final (ctx).free_texture_units@.contains(unit.spec_id())
                    &&& *final(ctx) == (Context {
                        free_texture_units: final (ctx).free_texture_units,
                        ..*old(ctx)
                    })
                    &&& final (ctx).free_texture_units@ == old(ctx).free_texture_units@.drop_last()
                },
                Err(e) => {
                    &&& e == OoglError::NoFreeTextureUnits
                    &&& old(ctx).free_texture_units@.len() == 0
                    &&& *final(ctx) == (Context {
                        free_texture_units: final (ctx).free_texture_units,
                        ..*old(ctx)
                    })
                    &&& final (ctx).free_texture_units@ == old(ctx).free_texture_units@
                },
            },
    {
        let popped: Option<u16> = ctx.free_texture_units.pop();
        match popped {
            Some(id) => {
                proof {
                    assert(ctx.free_texture_units@ =~= old(ctx).free_texture_units@.drop_last());
                    assert forall|i: int|
                        0 <= i < ctx.free_texture_units@.len() implies ctx.free_texture_units@[i]
                        != id by {
                        assert(old(ctx).free_texture_units@[i] != old(
                            ctx,
                        ).free_texture_units@[old(ctx).free_texture_units@.len() - 1]);
                    }
                }
                Ok(TextureUnit { id })
            },
            None => Err(OoglError::NoFreeTextureUnits),
        }
    }

    /// Returns the owned unit to the context's free list. The unit must be
    /// one this context handed out and still owes: below the usable count and
    /// not in the free list, as every unit taken from [`TextureUnit::new`]
    /// and not yet returned is.
    pub fn free(self, ctx: &mut Context)
        requires
            old(ctx).wf(),
            self.spec_id() < old(ctx).spec_usable_texture_units(),
            !old(ctx).free_texture_units@.contains(self.spec_id()),
        ensures
            final (ctx).wf(),
            *final(ctx) == (Context {
                free_texture_units: final (ctx).free_texture_units,
                ..*old(ctx)
            }),
            final (ctx).free_texture_units@ == old(ctx).free_texture_units@.push(self.spec_id()),
    {
        ctx.free_texture_units.push(self.id);
    }
}

} // verus!
