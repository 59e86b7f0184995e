//! Vertex and index buffers: typed storage objects with declared attribute
//! layouts, scoped bindings, uploads and draws.
//!
//! A buffer owns one server-side handle and tracks, client-side, how many
//! elements its storage currently holds, plus a mirror of the uploaded
//! elements for the read-back path. All uploads translate to one of two
//! commands: "(re)allocate storage of N bytes" ([`GlCall::BufferData`]) or
//! "overwrite a byte sub-range" ([`GlCall::BufferSubData`]); which one is
//! issued depends only on whether the call changes the allocated length.

use vstd::prelude::*;

use crate::context::BindBufferTarget;
use crate::context::BindingTarget;
use crate::context::Context;
use crate::context::GlCall;
use crate::error::OoglError;
use crate::shader::INACTIVE_ATTRIB_LOCATION;

verus! {

/// How the driver should optimize the buffer's storage.
#[derive(Debug, Copy, Clone, PartialEq, Eq, Structural)]
pub enum BufferUsageHint {
    StreamDraw,
    StaticDraw,
    DynamicDraw,
}

/// The primitive a draw call assembles out of consecutive elements.
#[derive(Debug, Copy, Clone, PartialEq, Eq, Structural)]
pub enum DrawPrimitive {
    Points,
    LineStrip,
    LineLoop,
    Lines,
    TriangleStrip,
    TriangleFan,
    Triangles,
}

/// The scalar width of index-buffer elements, as an indexed draw declares it.
#[derive(Debug, Copy, Clone, PartialEq, Eq, Structural)]
pub enum DrawElementsType {
    U8,
    U16,
}

/// The scalar types an index buffer can be keyed by; the type selects the
/// matching draw call's element-type token at compile time.
pub trait BufferIndex: Copy {
    /// The element-type token of `Self`.
    spec fn spec_draw_elements_type() -> DrawElementsType;

    /// The element-type token of `Self`.
    fn draw_elements_type() -> (element_type: DrawElementsType)
        ensures
            element_type == Self::spec_draw_elements_type(),
    ;
}

impl BufferIndex for u8 {
    open spec fn spec_draw_elements_type() -> DrawElementsType {
        DrawElementsType::U8
    }

    fn draw_elements_type() -> (element_type: DrawElementsType) {
        DrawElementsType::U8
    }
}

impl BufferIndex for u16 {
    open spec fn spec_draw_elements_type() -> DrawElementsType {
        DrawElementsType::U16
    }

    fn draw_elements_type() -> (element_type: DrawElementsType) {
        DrawElementsType::U16
    }
}

/// The scalar type of the values one vertex attribute is read from.
#[derive(Debug, Copy, Clone, PartialEq, Eq, Structural)]
pub enum AttribPtrTypeName {
    I8,
    U8,
    I16,
    U16,
    F32,
}

impl AttribPtrTypeName {
    /// The byte size of one scalar of this type.
    pub open spec fn spec_size(self) -> u8 {
        match self {
            AttribPtrTypeName::I8 => 1u8,
            AttribPtrTypeName::U8 => 1u8,
            AttribPtrTypeName::I16 => 2u8,
            AttribPtrTypeName::U16 => 2u8,
            AttribPtrTypeName::F32 => 4u8,
        }
    }

    /// The byte size of one scalar of this type.
    pub fn size(self) -> (size: u8)
        ensures
            size == self.spec_size(),
    {
        match self {
            AttribPtrTypeName::I8 => 1,
            AttribPtrTypeName::U8 => 1,
            AttribPtrTypeName::I16 => 2,
            AttribPtrTypeName::U16 => 2,
            AttribPtrTypeName::F32 => 4,
        }
    }
}

/// How the values of one vertex attribute are laid out: scalar type, number
/// of scalars per vertex, and whether integer values are normalized into the
/// unit interval when read.
#[derive(Debug, Copy, Clone, PartialEq, Eq, Structural)]
pub struct AttribPtrType {
    pub name: AttribPtrTypeName,
    pub len: u32,
    pub normalize: bool,
}

/// One vertex-attribute pointer: the attribute location it feeds, the layout
/// of its values, and the derived byte size of one vertex's worth of values.
#[derive(Debug, Copy, Clone, PartialEq, Eq, Structural)]
pub struct AttribPtr {
    pub location: u32,
    pub type_: AttribPtrType,
    pub size: u32,
}

impl AttribPtr {
    /// Builds a pointer for `location` with layout `type_`; the byte size is
    /// derived. The component count must be 1 to 4.
    pub fn new(location: u32, type_: AttribPtrType) -> (attrib: AttribPtr)
        requires
            1 <= type_.len <= 4,
        ensures
            attrib == (AttribPtr {
                location,
                type_,
                size: (type_.name.spec_size() * type_.len) as u32,
            }),
    {
        let size: u32 = type_.name.size() as u32 * type_.len;
        AttribPtr { location, type_, size }
    }

    /// The attribute location this pointer feeds.
    pub fn location(&self) -> (location: u32)
        ensures
            location == self.location,
    {
        self.location
    }

    /// Whether the attribute is active in the linked program; pointers for
    /// optimized-away attributes are skipped without error.
    pub fn is_active(&self) -> (active: bool)
        ensures
            active == (self.location != INACTIVE_ATTRIB_LOCATION),
    {
        self.location != INACTIVE_ATTRIB_LOCATION
    }

    /// The layout of the attribute's values.
    pub fn type_(&self) -> (type_: &AttribPtrType)
        ensures
            type_ == self.type_,
    {
        &self.type_
    }

    /// The byte size of one vertex's worth of values.
    pub fn size(&self) -> (size: u32)
        ensures
            size == self.size,
    {
        self.size
    }
}

/// The summed byte size of a list of attribute pointers.
pub open spec fn spec_attribs_size(attribs: Seq<AttribPtr>) -> int
    decreases attribs.len(),
{
    if attribs.len() == 0 {
        0
    } else {
        attribs.first().size + spec_attribs_size(attribs.drop_first())
    }
}

/// Every summed attribute size is nonnegative.
pub proof fn lemma_attribs_size_nonneg(attribs: Seq<AttribPtr>)
    ensures
        spec_attribs_size(attribs) >= 0,
    decreases attribs.len(),
{
    if attribs.len() > 0 {
        lemma_attribs_size_nonneg(attribs.drop_first());
    }
}

/// The layout commands that configuring `attribs` issues, one per active
/// attribute in declaration order, with `offset` bytes of preceding
/// attributes already accumulated.
pub open spec fn spec_configure_calls(attribs: Seq<AttribPtr>, stride: u32, offset: int) -> Seq<
    GlCall,
>
    decreases attribs.len(),
{
    if attribs.len() == 0 {
        Seq::<GlCall>::empty()
    } else {
        let attrib = attribs.first();
        let rest = spec_configure_calls(attribs.drop_first(), stride, offset + attrib.size);
        if attrib.location != INACTIVE_ATTRIB_LOCATION {
            seq![
                GlCall::VertexAttribPointer {
                    location: attrib.location,
                    size: attrib.type_.len,
                    scalar_type: attrib.type_.name,
                    normalize: attrib.type_.normalize,
                    stride,
                    offset: offset as u32,
                },
            ] + rest
        } else {
            rest
        }
    }
}

/// The commands that enabling the active attributes of `attribs` issues.
pub open spec fn spec_enable_calls(attribs: Seq<AttribPtr>) -> Seq<GlCall>
    decreases attribs.len(),
{
    if attribs.len() == 0 {
        Seq::<GlCall>::empty()
    } else {
        let attrib = attribs.first();
        let rest = spec_enable_calls(attribs.drop_first());
        if attrib.location != INACTIVE_ATTRIB_LOCATION {
            seq![GlCall::EnableVertexAttribArray { location: attrib.location }] + rest
        } else {
            rest
        }
    }
}

/// The commands that disabling the active attributes of `attribs` issues.
pub open spec fn spec_disable_calls(attribs: Seq<AttribPtr>) -> Seq<GlCall>
    decreases attribs.len(),
{
    if attribs.len() == 0 {
        Seq::<GlCall>::empty()
    } else {
        let attrib = attribs.first();
        let rest = spec_disable_calls(attribs.drop_first());
        if attrib.location != INACTIVE_ATTRIB_LOCATION {
            seq![GlCall::DisableVertexAttribArray { location: attrib.location }] + rest
        } else {
            rest
        }
    }
}

/// A typed vertex buffer: owns one server-side handle, a usage hint, the
/// declared attribute-pointer list with its derived stride, the client-side
/// element count, and the mirror the read-back path answers from.
#[derive(Debug)]
pub struct VertexBuffer<T> {
    pub addr: u32,
    pub usage_hint: BufferUsageHint,
    pub attribs: Vec<AttribPtr>,
    pub stride: u32,
    pub len: usize,
    pub contents: Vec<T>,
    pub contents_valid: bool,
}

impl<T: Copy> VertexBuffer<T> {
    /// Well-formedness: the stride is the sum of the declared attribute sizes
    /// and equals the byte size of the vertex type, the tracked length's byte
    /// size stays addressable, and a valid mirror has exactly `len` elements.
    pub open spec fn wf(self) -> bool {
        &&& self.stride as int == spec_attribs_size(self.attribs@)
        &&& self.stride as nat == vstd::layout::size_of::<T>()
        &&& self.stride <= i32::MAX
        &&& self.len * vstd::layout::size_of::<T>() <= isize::MAX
        &&& self.contents_valid ==> self.contents@.len() == self.len
    }

    /// What the read-back path reproduces: the uploaded elements, where the
    /// whole storage has been uploaded since the last plain allocation.
    pub open spec fn spec_read_back(self) -> Option<Seq<T>> {
        if self.contents_valid {
            Some(self.contents@)
        } else {
            None
        }
    }

    /// Creates a vertex buffer for vertex type `T` with the given attribute
    /// layout, allocating a fresh handle and binding it once so its
    /// bookkeeping is consistent from the start.
    ///
    /// Fails, issuing no command, exactly when the summed byte size of
    /// `attribs` differs from the byte size of `T`; the error names both.
    pub fn new(ctx: &mut Context, usage_hint: BufferUsageHint, attribs: Vec<AttribPtr>) -> (result:
        Result<VertexBuffer<T>, OoglError>)
        requires
            old(ctx).wf(),
            old(ctx).next_addr < u32::MAX,
            !old(ctx).bound_vertex_buffer.is_binding_alive,
            spec_attribs_size(attribs@) <= i32::MAX,
        ensures
            match result {
                Ok(buffer) => {
                    &&& spec_attribs_size(attribs@) == vstd::layout::size_of::<T>()
                    &&& buffer.wf()
                    &&& buffer == (VertexBuffer {
                        addr: old(ctx).next_addr,
                        usage_hint,
                        attribs: buffer.attribs,
                        stride: (spec_attribs_size(attribs@)) as u32,
                        len: 0usize,
                        contents: buffer.contents,
                        contents_valid: false,
                    })
                    &&& buffer.attribs@ == attribs@
                    &&& buffer.contents@ == Seq::<T>::empty()
                    &&& *final(ctx) == (Context {
                        calls: final (ctx).calls,
                        bound_vertex_buffer: final (ctx).bound_vertex_buffer,
                        next_addr: final (ctx).next_addr,
                        ..*old(ctx)
                    })
                    &&& final (ctx).next_addr == old(ctx).next_addr + 1
                    &&& final (ctx).bound_vertex_buffer == (BindingTarget {
                        kind: old(ctx).bound_vertex_buffer.kind,
                        bound_addr: buffer.addr,
                        is_binding_alive: false,
                    })
                    &&& final (ctx).calls@ == old(ctx).calls@.push(
                        GlCall::GenBuffer { addr: buffer.addr },
                    ) + old(ctx).bound_vertex_buffer.spec_bind_calls(buffer.addr)
                    &&& final (ctx).wf()
                },
                Err(e) => {
                    &&& spec_attribs_size(attribs@) != vstd::layout::size_of::<T>()
                    &&& e == (OoglError::StrideMismatch {
                        stride: (spec_attribs_size(attribs@)) as u32,
                        vertex_size: vstd::layout::size_of_as_usize::<T>(),
                    })
                    &&& *final(ctx) == *old(ctx)
                },
            },
    {
        let ghost all_attribs = attribs@;
        let mut stride: u32 = 0;
        let mut pos: usize = 0;
        proof {
            assert(attribs@.skip(0) =~= attribs@);
        }
        while pos < attribs.len()
            invariant
                0 <= pos <= attribs@.len(),
                attribs@ == all_attribs,
                stride as int + spec_attribs_size(attribs@.skip(pos as int)) == spec_attribs_size(
                    attribs@,
                ),
                spec_attribs_size(attribs@) <= i32::MAX,
            decreases attribs@.len() - pos,
        {
            proof {
                assert(attribs@.skip(pos as int).first() == attribs@[pos as int]);
                assert(attribs@.skip(pos as int).drop_first() =~= attribs@.skip(pos as int + 1));
                lemma_attribs_size_nonneg(attribs@.skip(pos as int + 1));
            }
            stride = stride + attribs[pos].size;
            pos = pos + 1;
        }
        proof {
            assert(attribs@.skip(attribs@.len() as int) =~= Seq::<AttribPtr>::empty());
        }
        let vertex_size: usize = core::mem::size_of::<T>();
        if stride as usize != vertex_size {
            return Err(OoglError::StrideMismatch { stride, vertex_size });
        }
        let addr: u32 = ctx.fresh_addr();
        ctx.calls.push(GlCall::GenBuffer { addr });
        let created = ctx.bound_vertex_buffer.on_binding_created(addr);
        match created {
            Ok(_) => {},
            Err(_) => {
                proof {
                    assert(false);
                }
            },
        }
        ctx.bound_vertex_buffer.bind_if_needed(&mut ctx.calls, addr);
        ctx.bound_vertex_buffer.on_binding_dropped();
        Ok(
            VertexBuffer {
                addr,
                usage_hint,
                attribs,
                stride,
                len: 0,
                contents: Vec::new(),
                contents_valid: false,
            },
        )
    }

    /// The declared attribute pointers.
    pub fn attribs(&self) -> (attribs: &Vec<AttribPtr>)
        ensures
            attribs == self.attribs,
    {
        &self.attribs
    }

    /// The byte stride between consecutive vertices.
    pub fn stride(&self) -> (stride: u32)
        ensures
            stride == self.stride,
    {
        self.stride
    }

    /// The server-side handle.
    pub fn addr(&self) -> (addr: u32)
        ensures
            addr == self.addr,
    {
        self.addr
    }

    /// The usage hint the buffer was created with.
    pub fn usage_hint(&self) -> (usage_hint: BufferUsageHint)
        ensures
            usage_hint == self.usage_hint,
    {
        self.usage_hint
    }

    /// The number of elements the storage currently holds, as tracked
    /// client-side.
    pub fn len(&self) -> (len: usize)
        ensures
            len == self.len,
    {
        self.len
    }

    /// Whether the storage currently holds no elements.
    pub fn is_empty(&self) -> (empty: bool)
        ensures
            empty == (self.len == 0),
    {
        self.len == 0
    }

    /// The read-back path: reproduces the uploaded elements, where the whole
    /// storage has been uploaded since the last plain allocation.
    pub fn read_back(&self) -> (result: Option<Vec<T>>)
        ensures
            match result {
                Some(data) => self.spec_read_back() == Some(data@),
                None => self.spec_read_back() is None,
            },
    {
        if self.contents_valid {
            Some(vstd::slice::slice_to_vec(self.contents.as_slice()))
        } else {
            None
        }
    }

    /// Creates the scoped binding for this buffer: marks the vertex-buffer
    /// binding point as in use and binds the handle there if it is not bound
    /// already.
    ///
    /// Fails, issuing no command and changing nothing, exactly when a scoped
    /// binding for the vertex-buffer binding point is still alive.
    pub fn bind(&self, ctx: &mut Context) -> (result: Result<VertexBufferBinding, OoglError>)
        ensures
            match result {
                Ok(binding) => {
                    &&& old(ctx).bound_vertex_buffer.spec_accepts_binding()
                    &&& binding.spec_addr() == self.addr
                    &&& *final(ctx) == (Context {
                        calls: final (ctx).calls,
                        bound_vertex_buffer: final (ctx).bound_vertex_buffer,
                        ..*old(ctx)
                    })
                    &&& final (ctx).bound_vertex_buffer == old(ctx).bound_vertex_buffer.spec_after_scoped_bind(
                        self.addr,
                    )
                    &&& final (ctx).calls@ == old(ctx).calls@ + old(ctx).bound_vertex_buffer.spec_bind_calls(self.addr)
                },
                Err(e) => {
                    &&& !old(ctx).bound_vertex_buffer.spec_accepts_binding()
                    &&& e == (OoglError::OverlappingBinding {
                        new_addr: self.addr,
                        old_addr: old(ctx).bound_vertex_buffer.bound_addr,
                    })
                    &&& *final(ctx) == *old(ctx)
                },
            },
    {
        let created = ctx.bound_vertex_buffer.on_binding_created(self.addr);
        match created {
            Ok(_) => {
                ctx.bound_vertex_buffer.bind_if_needed(&mut ctx.calls, self.addr);
                Ok(VertexBufferBinding { addr: self.addr })
            },
            Err(e) => Err(e),
        }
    }

    /// Issues the command that deletes the handle. The owner is consumed:
    /// a deleted buffer cannot be touched again.
    pub fn delete(self, ctx: &mut Context)
        ensures
            *final(ctx) == (Context { calls: final (ctx).calls, ..*old(ctx) }),
            final (ctx).calls@ == old(ctx).calls@.push(GlCall::DeleteBuffer { addr: self.addr }),
    {
        ctx.calls.push(GlCall::DeleteBuffer { addr: self.addr });
    }
}

/// The scoped binding of a vertex buffer: while it is alive, the
/// vertex-buffer binding point is marked in use and holds the buffer's
/// handle, and the buffer's storage operations are available through it.
#[derive(Debug)]
pub struct VertexBufferBinding {
    addr: u32,
}

impl VertexBufferBinding {
    /// The handle of the buffer this binding was created for.
    pub closed spec fn spec_addr(self) -> u32 {
        self.addr
    }

    /// The handle of the buffer this binding was created for.
    pub fn addr(&self) -> (addr: u32)
        ensures
            addr == self.spec_addr(),
    {
        self.addr
    }

    /// The binding is live for `buffer_addr` in `ctx`: it was created for
    /// that handle, the handle is still the one bound at the vertex-buffer
    /// binding point, and the binding point is still marked in use.
    pub open spec fn is_live(self, ctx: Context, buffer_addr: u32) -> bool {
        &&& self.spec_addr() == buffer_addr
        &&& ctx.bound_vertex_buffer.bound_addr == buffer_addr
        &&& ctx.bound_vertex_buffer.is_binding_alive
    }

    /// Drops the scoped binding: the binding point is free again, but the
    /// handle stays bound, so rebinding the same buffer later is free.
    pub fn unbind(self, ctx: &mut Context)
        ensures
            *final(ctx) == (Context {
                bound_vertex_buffer: final (ctx).bound_vertex_buffer,
                ..*old(ctx)
            }),
            final (ctx).bound_vertex_buffer == old(ctx).bound_vertex_buffer.spec_after_binding_dropped(),
    {
        ctx.bound_vertex_buffer.on_binding_dropped();
    }

    /// (Re)allocates the storage to hold exactly `data` and uploads it in the
    /// same command.
    pub fn alloc_and_set<T: Copy>(
        &self,
        ctx: &mut Context,
        buffer: &mut VertexBuffer<T>,
        data: &[T],
    )
        requires
            old(buffer).wf(),
            self.is_live(*old(ctx), old(buffer).addr),
            data@.len() * vstd::layout::size_of::<T>() <= isize::MAX,
        ensures
            final (buffer).wf(),
            *final(buffer) == (VertexBuffer {
                len: data@.len() as usize,
                contents: final (buffer).contents,
                contents_valid: true,
                ..*old(buffer)
            }),
            final (buffer).contents@ == data@,
            final (buffer).spec_read_back() == Some(data@),
            self.is_live(*final(ctx), final (buffer).addr),
            *final(ctx) == (Context { calls: final (ctx).calls, ..*old(ctx) }),
            final (ctx).calls@ == old(ctx).calls@.push(
                GlCall::BufferData {
                    target: BindBufferTarget::Vertex,
                    byte_len: (data@.len() * vstd::layout::size_of::<T>()) as usize,
                    usage: old(buffer).usage_hint,
                    with_data: true,
                },
            ),
    {
        let byte_len: usize = data.len() * core::mem::size_of::<T>();
        ctx.calls.push(
            GlCall::BufferData {
                target: BindBufferTarget::Vertex,
                byte_len,
                usage: buffer.usage_hint,
                with_data: true,
            },
        );
        buffer.len = data.len();
        buffer.contents = vstd::slice::slice_to_vec(data);
        buffer.contents_valid = true;
    }

    /// (Re)allocates the storage to hold `data_len` elements with undefined
    /// contents.
    pub fn reserve_data<T: Copy>(&self, ctx: &mut Context, buffer: &mut VertexBuffer<T>, data_len: usize)
        requires
            old(buffer).wf(),
            self.is_live(*old(ctx), old(buffer).addr),
            data_len * vstd::layout::size_of::<T>() <= isize::MAX,
        ensures
            final (buffer).wf(),
            *final(buffer) == (VertexBuffer {
                len: data_len,
                contents_valid: false,
                ..*old(buffer)
            }),
            final (buffer).spec_read_back() is None,
            self.is_live(*final(ctx), final (buffer).addr),
            *final(ctx) == (Context { calls: final (ctx).calls, ..*old(ctx) }),
            final (ctx).calls@ == old(ctx).calls@.push(
                GlCall::BufferData {
                    target: BindBufferTarget::Vertex,
                    byte_len: (data_len * vstd::layout::size_of::<T>()) as usize,
                    usage: old(buffer).usage_hint,
                    with_data: false,
                },
            ),
    {
        let byte_len: usize = data_len * core::mem::size_of::<T>();
        ctx.calls.push(
            GlCall::BufferData {
                target: BindBufferTarget::Vertex,
                byte_len,
                usage: buffer.usage_hint,
                with_data: false,
            },
        );
        buffer.len = data_len;
        buffer.contents_valid = false;
    }

    /// Reallocates the storage at its current length with undefined contents,
    /// telling the driver the old contents are no longer needed.
    pub fn orphan_data<T: Copy>(&self, ctx: &mut Context, buffer: &mut VertexBuffer<T>)
        requires
            old(buffer).wf(),
            self.is_live(*old(ctx), old(buffer).addr),
        ensures
            final (buffer).wf(),
            *final(buffer) == (VertexBuffer { contents_valid: false, ..*old(buffer) }),
            self.is_live(*final(ctx), final (buffer).addr),
            *final(ctx) == (Context { calls: final (ctx).calls, ..*old(ctx) }),
            final (ctx).calls@ == old(ctx).calls@.push(
                GlCall::BufferData {
                    target: BindBufferTarget::Vertex,
                    byte_len: (old(buffer).len * vstd::layout::size_of::<T>()) as usize,
                    usage: old(buffer).usage_hint,
                    with_data: false,
                },
            ),
    {
        let byte_len: usize = buffer.len * core::mem::size_of::<T>();
        ctx.calls.push(
            GlCall::BufferData {
                target: BindBufferTarget::Vertex,
                byte_len,
                usage: buffer.usage_hint,
                with_data: false,
            },
        );
        buffer.contents_valid = false;
    }

    /// Overwrites the whole storage with `data`.
    ///
    /// Fails, issuing no command and changing nothing, exactly when
    /// `data.len()` differs from the storage's current length; the error
    /// names both lengths.
    pub fn set<T: Copy>(&self, ctx: &mut Context, buffer: &mut VertexBuffer<T>, data: &[T]) -> (result:
        Result<(), OoglError>)
        requires
            old(buffer).wf(),
            self.is_live(*old(ctx), old(buffer).addr),
        ensures
            final (buffer).wf(),
            self.is_live(*final(ctx), final (buffer).addr),
            match result {
                Ok(_) => {
                    &&& data@.len() == old(buffer).len
                    &&& *final(buffer) == (VertexBuffer {
                        contents: final (buffer).contents,
                        contents_valid: true,
                        ..*old(buffer)
                    })
                    &&& final (buffer).contents@ == data@
                    &&& final (buffer).spec_read_back() == Some(data@)
                    &&& *final(ctx) == (Context { calls: final (ctx).calls, ..*old(ctx) })
                    &&& final (ctx).calls@ == old(ctx).calls@.push(
                        GlCall::BufferSubData {
                            target: BindBufferTarget::Vertex,
                            byte_offset: 0usize,
                            byte_len: (data@.len() * vstd::layout::size_of::<T>()) as usize,
                        },
                    )
                },
                Err(e) => {
                    &&& data@.len() != old(buffer).len
                    &&& e == (OoglError::DataLengthMismatch {
                        slice_len: data@.len() as usize,
                        range_len: old(buffer).len,
                    })
                    &&& *final(buffer) == *old(buffer)
                    &&& *final(ctx) == *old(ctx)
                },
            },
    {
        if data.len() != buffer.len {
            return Err(
                OoglError::DataLengthMismatch { slice_len: data.len(), range_len: buffer.len },
            );
        }
        let byte_len: usize = data.len() * core::mem::size_of::<T>();
        ctx.calls.push(
            GlCall::BufferSubData {
                target: BindBufferTarget::Vertex,
                byte_offset: 0,
                byte_len,
            },
        );
        buffer.contents = vstd::slice::slice_to_vec(data);
        buffer.contents_valid = true;
        Ok(())
    }

    /// Overwrites the element range `range` of the storage with `data`.
    ///
    /// Fails, issuing no command and changing nothing, when the range does
    /// not lie inside the storage, or when `data.len()` differs from the
    /// range's length; each error names the offending values.
    pub fn set_slice<T: Copy>(
        &self,
        ctx: &mut Context,
        buffer: &mut VertexBuffer<T>,
        range: core::ops::Range<usize>,
        data: &[T],
    ) -> (result: Result<(), OoglError>)
        requires
            old(buffer).wf(),
            self.is_live(*old(ctx), old(buffer).addr),
        ensures
            final (buffer).wf(),
            self.is_live(*final(ctx), final (buffer).addr),
            match result {
                Ok(_) => {
                    &&& range.start <= range.end <= old(buffer).len
                    &&& data@.len() == range.end - range.start
                    &&& *final(buffer) == (VertexBuffer {
                        contents: final (buffer).contents,
                        contents_valid: final (buffer).contents_valid,
                        ..*old(buffer)
                    })
                    &&& final (buffer).contents_valid == (old(buffer).contents_valid || (
                    range.start == 0 && range.end == old(buffer).len))
                    &&& old(buffer).contents_valid ==> final (buffer).contents@ == old(
                        buffer,
                    ).contents@.subrange(0, range.start as int) + data@ + old(
                        buffer,
                    ).contents@.subrange(range.end as int, old(buffer).len as int)
                    &&& (!old(buffer).contents_valid && range.start == 0 && range.end == old(
                        buffer,
                    ).len) ==> final (buffer).contents@ == data@
                    &&& (!old(buffer).contents_valid && !(range.start == 0 && range.end == old(
                        buffer,
                    ).len)) ==> final (buffer).contents@ == old(buffer).contents@
                    &&& *final(ctx) == (Context { calls: final (ctx).calls, ..*old(ctx) })
                    &&& final (ctx).calls@ == old(ctx).calls@.push(
                        GlCall::BufferSubData {
                            target: BindBufferTarget::Vertex,
                            byte_offset: (range.start * vstd::layout::size_of::<T>()) as usize,
                            byte_len: (data@.len() * vstd::layout::size_of::<T>()) as usize,
                        },
                    )
                },
                Err(e) => {
                    &&& *final(buffer) == *old(buffer)
                    &&& *final(ctx) == *old(ctx)
                    &&& if !(range.start <= range.end <= old(buffer).len) {
                        e == (OoglError::RangeOutOfBounds {
                            start: range.start,
                            end: range.end,
                            len: old(buffer).len,
                        })
                    } else {
                        &&& data@.len() != range.end - range.start
                        &&& e == (OoglError::DataLengthMismatch {
                            slice_len: data@.len() as usize,
                            range_len: (range.end - range.start) as usize,
                        })
                    }
                },
            },
    {
        let start: usize = range.start;
        let end: usize = range.end;
        if start > end || end > buffer.len {
            return Err(OoglError::RangeOutOfBounds { start, end, len: buffer.len });
        }
        let range_len: usize = end - start;
        if data.len() != range_len {
            return Err(OoglError::DataLengthMismatch { slice_len: data.len(), range_len });
        }
        proof {
            vstd::arithmetic::mul::lemma_mul_inequality(
                start as int,
                old(buffer).len as int,
                vstd::layout::size_of::<T>() as int,
            );
            vstd::arithmetic::mul::lemma_mul_inequality(
                data@.len() as int,
                old(buffer).len as int,
                vstd::layout::size_of::<T>() as int,
            );
        }
        let elem_size: usize = core::mem::size_of::<T>();
        let byte_offset: usize = start * elem_size;
        let byte_len: usize = data.len() * elem_size;
        ctx.calls.push(
            GlCall::BufferSubData { target: BindBufferTarget::Vertex, byte_offset, byte_len },
        );
        if buffer.contents_valid {
            let ghost ctx_snapshot = *ctx;
            let mut pos: usize = 0;
            while pos < data.len()
                invariant
                    0 <= pos <= data@.len(),
                    start + data@.len() <= usize::MAX,
                    start + data@.len() <= buffer.contents@.len(),
                    *ctx == ctx_snapshot,
                    *buffer == (VertexBuffer { contents: buffer.contents, ..*old(buffer) }),
                    buffer.contents@.len() == old(buffer).contents@.len(),
                    forall|i: int|
                        0 <= i < buffer.contents@.len() && !(start <= i < start + pos)
                            ==> buffer.contents@[i] == old(buffer).contents@[i],
                    forall|i: int|
                        0 <= i < pos ==> buffer.contents@[start + i] == data@[i],
                decreases data@.len() - pos,
            {
                buffer.contents[start + pos] = data[pos];
                pos = pos + 1;
            }
            proof {
                assert(buffer.contents@ =~= old(buffer).contents@.subrange(0, start as int)
                    + data@ + old(buffer).contents@.subrange(end as int, old(buffer).len as int));
            }
        } else if start == 0 && end == buffer.len {
            buffer.contents = vstd::slice::slice_to_vec(data);
            buffer.contents_valid = true;
        }
        Ok(())
    }

    /// Describes the memory layout of every active attribute to the driver:
    /// one layout command per active attribute, in declaration order, each at
    /// its accumulated byte offset inside the vertex. Attributes the linked
    /// shader optimized away are skipped without error.
    pub fn configure_attribs<T: Copy>(&self, ctx: &mut Context, buffer: &VertexBuffer<T>)
        requires
            buffer.wf(),
            self.is_live(*old(ctx), buffer.addr),
        ensures
            self.is_live(*final(ctx), buffer.addr),
            *final(ctx) == (Context { calls: final (ctx).calls, ..*old(ctx) }),
            final (ctx).calls@ == old(ctx).calls@ + spec_configure_calls(
                buffer.attribs@,
                buffer.stride,
                0,
            ),
    {
        let ghost ctx_snapshot_calls = ctx.calls@;
        let mut offset: u32 = 0;
        let mut pos: usize = 0;
        proof {
            assert(buffer.attribs@.skip(0) =~= buffer.attribs@);
        }
        while pos < buffer.attribs.len()
            invariant
                0 <= pos <= buffer.attribs@.len(),
                buffer.wf(),
                offset as int + spec_attribs_size(buffer.attribs@.skip(pos as int))
                    == buffer.stride,
                *ctx == (Context { calls: ctx.calls, ..*old(ctx) }),
                ctx.calls@ + spec_configure_calls(
                    buffer.attribs@.skip(pos as int),
                    buffer.stride,
                    offset as int,
                ) == ctx_snapshot_calls + spec_configure_calls(buffer.attribs@, buffer.stride, 0),
            decreases buffer.attribs@.len() - pos,
        {
            proof {
                assert(buffer.attribs@.skip(pos as int).first() == buffer.attribs@[pos as int]);
                assert(buffer.attribs@.skip(pos as int).drop_first() =~= buffer.attribs@.skip(
                    pos as int + 1,
                ));
                lemma_attribs_size_nonneg(buffer.attribs@.skip(pos as int + 1));
            }
            let attrib = &buffer.attribs[pos];
            if attrib.is_active() {
                ctx.calls.push(
                    GlCall::VertexAttribPointer {
                        location: attrib.location,
                        size: attrib.type_.len,
                        scalar_type: attrib.type_.name,
                        normalize: attrib.type_.normalize,
                        stride: buffer.stride,
                        offset,
                    },
                );
            }
            offset = offset + attrib.size;
            pos = pos + 1;
        }
        proof {
            assert(buffer.attribs@.skip(buffer.attribs@.len() as int) =~= Seq::<
                AttribPtr,
            >::empty());
            assert(ctx.calls@ =~= ctx_snapshot_calls + spec_configure_calls(
                buffer.attribs@,
                buffer.stride,
                0,
            ));
        }
    }

    /// Enables the input slot of every active attribute.
    pub fn enable_attribs<T: Copy>(&self, ctx: &mut Context, buffer: &VertexBuffer<T>)
        requires
            self.is_live(*old(ctx), buffer.addr),
        ensures
            self.is_live(*final(ctx), buffer.addr),
            *final(ctx) == (Context { calls: final (ctx).calls, ..*old(ctx) }),
            final (ctx).calls@ == old(ctx).calls@ + spec_enable_calls(buffer.attribs@),
    {
        let ghost ctx_snapshot_calls = ctx.calls@;
        let mut pos: usize = 0;
        proof {
            assert(buffer.attribs@.skip(0) =~= buffer.attribs@);
        }
        while pos < buffer.attribs.len()
            invariant
                0 <= pos <= buffer.attribs@.len(),
                *ctx == (Context { calls: ctx.calls, ..*old(ctx) }),
                ctx.calls@ + spec_enable_calls(buffer.attribs@.skip(pos as int))
                    == ctx_snapshot_calls + spec_enable_calls(buffer.attribs@),
            decreases buffer.attribs@.len() - pos,
        {
            proof {
                assert(buffer.attribs@.skip(pos as int).first() == buffer.attribs@[pos as int]);
                assert(buffer.attribs@.skip(pos as int).drop_first() =~= buffer.attribs@.skip(
                    pos as int + 1,
                ));
            }
            let attrib = &buffer.attribs[pos];
            if attrib.is_active() {
                ctx.calls.push(GlCall::EnableVertexAttribArray { location: attrib.location });
            }
            pos = pos + 1;
        }
        proof {
            assert(buffer.attribs@.skip(buffer.attribs@.len() as int) =~= Seq::<
                AttribPtr,
            >::empty());
            assert(ctx.calls@ =~= ctx_snapshot_calls + spec_enable_calls(buffer.attribs@));
        }
    }

    /// Disables the input slot of every active attribute.
    pub fn disable_attribs<T: Copy>(&self, ctx: &mut Context, buffer: &VertexBuffer<T>)
        requires
            self.is_live(*old(ctx), buffer.addr),
        ensures
            self.is_live(*final(ctx), buffer.addr),
            *final(ctx) == (Context { calls: final (ctx).calls, ..*old(ctx) }),
            final (ctx).calls@ == old(ctx).calls@ + spec_disable_calls(buffer.attribs@),
    {
        let ghost ctx_snapshot_calls = ctx.calls@;
        let mut pos: usize = 0;
        proof {
            assert(buffer.attribs@.skip(0) =~= buffer.attribs@);
        }
        while pos < buffer.attribs.len()
            invariant
                0 <= pos <= buffer.attribs@.len(),
                *ctx == (Context { calls: ctx.calls, ..*old(ctx) }),
                ctx.calls@ + spec_disable_calls(buffer.attribs@.skip(pos as int))
                    == ctx_snapshot_calls + spec_disable_calls(buffer.attribs@),
            decreases buffer.attribs@.len() - pos,
        {
            proof {
                assert(buffer.attribs@.skip(pos as int).first() == buffer.attribs@[pos as int]);
                assert(buffer.attribs@.skip(pos as int).drop_first() =~= buffer.attribs@.skip(
                    pos as int + 1,
                ));
            }
            let attrib = &buffer.attribs[pos];
            if attrib.is_active() {
                ctx.calls.push(GlCall::DisableVertexAttribArray { location: attrib.location });
            }
            pos = pos + 1;
        }
        proof {
            assert(buffer.attribs@.skip(buffer.attribs@.len() as int) =~= Seq::<
                AttribPtr,
            >::empty());
            assert(ctx.calls@ =~= ctx_snapshot_calls + spec_disable_calls(buffer.attribs@));
        }
    }

    /// Draws all elements of the buffer as primitives of kind `mode`. The
    /// program binding is not read: its existence is the type-level proof
    /// that a program is currently bound.
    pub fn draw<T: Copy>(
        &self,
        ctx: &mut Context,
        buffer: &VertexBuffer<T>,
        _program_binding: &crate::shader::ProgramBinding,
        mode: DrawPrimitive,
    )
        requires
            buffer.wf(),
            self.is_live(*old(ctx), buffer.addr),
            buffer.len <= i32::MAX,
        ensures
            self.is_live(*final(ctx), buffer.addr),
            *final(ctx) == (Context { calls: final (ctx).calls, ..*old(ctx) }),
            final (ctx).calls@ == old(ctx).calls@.push(
                GlCall::DrawArrays { mode, first: 0usize, count: buffer.len },
            ),
    {
        ctx.calls.push(GlCall::DrawArrays { mode, first: 0, count: buffer.len });
    }

    /// Draws the element range `range` of the buffer as primitives of kind
    /// `mode`.
    ///
    /// Fails, issuing no command, when the range does not lie inside the
    /// buffer's tracked length; the error names the range and the length.
    pub fn draw_slice<T: Copy>(
        &self,
        ctx: &mut Context,
        buffer: &VertexBuffer<T>,
        _program_binding: &crate::shader::ProgramBinding,
        mode: DrawPrimitive,
        range: core::ops::Range<usize>,
    ) -> (result: Result<(), OoglError>)
        requires
            buffer.wf(),
            self.is_live(*old(ctx), buffer.addr),
            buffer.len <= i32::MAX,
        ensures
            self.is_live(*final(ctx), buffer.addr),
            *final(ctx) == (Context { calls: final (ctx).calls, ..*old(ctx) }),
            match result {
                Ok(_) => {
                    &&& range.start <= range.end <= buffer.len
                    &&& final (ctx).calls@ == old(ctx).calls@.push(
                        GlCall::DrawArrays {
                            mode,
                            first: range.start,
                            count: (range.end - range.start) as usize,
                        },
                    )
                },
                Err(e) => {
                    &&& !(range.start <= range.end <= buffer.len)
                    &&& e == (OoglError::RangeOutOfBounds {
                        start: range.start,
                        end: range.end,
                        len: buffer.len,
                    })
                    &&& final (ctx).calls@ == old(ctx).calls@
                },
            },
    {
        let start: usize = range.start;
        let end: usize = range.end;
        if start > end || end > buffer.len {
            return Err(OoglError::RangeOutOfBounds { start, end, len: buffer.len });
        }
        ctx.calls.push(GlCall::DrawArrays { mode, first: start, count: end - start });
        Ok(())
    }

    /// Drops the scoped binding and leaves handle 0 bound, so the buffer
    /// leaves no trace of itself at the binding point.
    pub fn unbind_completely(self, ctx: &mut Context)
        ensures
            *final(ctx) == (Context {
                calls: final (ctx).calls,
                bound_vertex_buffer: final (ctx).bound_vertex_buffer,
                ..*old(ctx)
            }),
            final (ctx).bound_vertex_buffer == (BindingTarget {
                bound_addr: 0u32,
                is_binding_alive: false,
                ..old(ctx).bound_vertex_buffer
            }),
            final (ctx).calls@ == old(ctx).calls@.push(
                crate::context::spec_bind_call(old(ctx).bound_vertex_buffer.kind, 0),
            ),
    {
        ctx.bound_vertex_buffer.unbind_unconditionally(&mut ctx.calls);
        ctx.bound_vertex_buffer.on_binding_dropped();
    }
}

/// An index buffer: owns one server-side handle, a usage hint, the
/// client-side element count, and the mirror the read-back path answers from.
/// It is keyed by the index scalar width `T`, which selects the matching draw
/// call's element-type token at compile time.
#[derive(Debug)]
pub struct ElementBuffer<T> {
    pub addr: u32,
    pub usage_hint: BufferUsageHint,
    pub len: usize,
    pub contents: Vec<T>,
    pub contents_valid: bool,
}

impl<T: BufferIndex> ElementBuffer<T> {
    /// Well-formedness: the tracked length's byte size stays addressable, and
    /// a valid mirror has exactly `len` elements.
    pub open spec fn wf(self) -> bool {
        &&& self.len * vstd::layout::size_of::<T>() <= isize::MAX
        &&& self.contents_valid ==> self.contents@.len() == self.len
    }

    /// What the read-back path reproduces: the uploaded elements, where the
    /// whole storage has been uploaded since the last plain allocation.
    pub open spec fn spec_read_back(self) -> Option<Seq<T>> {
        if self.contents_valid {
            Some(self.contents@)
        } else {
            None
        }
    }

    /// Creates an index buffer, allocating a fresh handle and binding it once
    /// so its bookkeeping is consistent from the start.
    pub fn new(ctx: &mut Context, usage_hint: BufferUsageHint) -> (buffer: ElementBuffer<T>)
        requires
            old(ctx).wf(),
            old(ctx).next_addr < u32::MAX,
            !old(ctx).bound_element_buffer.is_binding_alive,
        ensures
            buffer.wf(),
            buffer == (ElementBuffer {
                addr: old(ctx).next_addr,
                usage_hint,
                len: 0usize,
                contents: buffer.contents,
                contents_valid: false,
            }),
            buffer.contents@ == Seq::<T>::empty(),
            *final(ctx) == (Context {
                calls: final (ctx).calls,
                bound_element_buffer: final (ctx).bound_element_buffer,
                next_addr: final (ctx).next_addr,
                ..*old(ctx)
            }),
            final (ctx).next_addr == old(ctx).next_addr + 1,
            final (ctx).bound_element_buffer == (BindingTarget {
                kind: old(ctx).bound_element_buffer.kind,
                bound_addr: buffer.addr,
                is_binding_alive: false,
            }),
            final (ctx).calls@ == old(ctx).calls@.push(GlCall::GenBuffer { addr: buffer.addr })
                + old(ctx).bound_element_buffer.spec_bind_calls(buffer.addr),
            final (ctx).wf(),
    {
        let addr: u32 = ctx.fresh_addr();
        ctx.calls.push(GlCall::GenBuffer { addr });
        let created = ctx.bound_element_buffer.on_binding_created(addr);
        match created {
            Ok(_) => {},
            Err(_) => {
                proof {
                    assert(false);
                }
            },
        }
        ctx.bound_element_buffer.bind_if_needed(&mut ctx.calls, addr);
        ctx.bound_element_buffer.on_binding_dropped();
        ElementBuffer { addr, usage_hint, len: 0, contents: Vec::new(), contents_valid: false }
    }

    /// The server-side handle.
    pub fn addr(&self) -> (addr: u32)
        ensures
            addr == self.addr,
    {
        self.addr
    }

    /// The usage hint the buffer was created with.
    pub fn usage_hint(&self) -> (usage_hint: BufferUsageHint)
        ensures
            usage_hint == self.usage_hint,
    {
        self.usage_hint
    }

    /// The number of elements the storage currently holds, as tracked
    /// client-side.
    pub fn len(&self) -> (len: usize)
        ensures
            len == self.len,
    {
        self.len
    }

    /// Whether the storage currently holds no elements.
    pub fn is_empty(&self) -> (empty: bool)
        ensures
            empty == (self.len == 0),
    {
        self.len == 0
    }

    /// The read-back path: reproduces the uploaded elements, where the whole
    /// storage has been uploaded since the last plain allocation.
    pub fn read_back(&self) -> (result: Option<Vec<T>>)
        ensures
            match result {
                Some(data) => self.spec_read_back() == Some(data@),
                None => self.spec_read_back() is None,
            },
    {
        if self.contents_valid {
            Some(vstd::slice::slice_to_vec(self.contents.as_slice()))
        } else {
            None
        }
    }

    /// Creates the scoped binding for this buffer: marks the index-buffer
    /// binding point as in use and binds the handle there if it is not bound
    /// already.
    ///
    /// Fails, issuing no command and changing nothing, exactly when a scoped
    /// binding for the index-buffer binding point is still alive.
    pub fn bind(&self, ctx: &mut Context) -> (result: Result<ElementBufferBinding, OoglError>)
        ensures
            match result {
                Ok(binding) => {
                    &&& old(ctx).bound_element_buffer.spec_accepts_binding()
                    &&& binding.spec_addr() == self.addr
                    &&& *final(ctx) == (Context {
                        calls: final (ctx).calls,
                        bound_element_buffer: final (ctx).bound_element_buffer,
                        ..*old(ctx)
                    })
                    &&& final (ctx).bound_element_buffer == old(ctx).bound_element_buffer.spec_after_scoped_bind(
                        self.addr,
                    )
                    &&& final (ctx).calls@ == old(ctx).calls@ + old(ctx).bound_element_buffer.spec_bind_calls(self.addr)
                },
                Err(e) => {
                    &&& !old(ctx).bound_element_buffer.spec_accepts_binding()
                    &&& e == (OoglError::OverlappingBinding {
                        new_addr: self.addr,
                        old_addr: old(ctx).bound_element_buffer.bound_addr,
                    })
                    &&& *final(ctx) == *old(ctx)
                },
            },
    {
        let created = ctx.bound_element_buffer.on_binding_created(self.addr);
        match created {
            Ok(_) => {
                ctx.bound_element_buffer.bind_if_needed(&mut ctx.calls, self.addr);
                Ok(ElementBufferBinding { addr: self.addr })
            },
            Err(e) => Err(e),
        }
    }

    /// Issues the command that deletes the handle. The owner is consumed:
    /// a deleted buffer cannot be touched again.
    pub fn delete(self, ctx: &mut Context)
        ensures
            *final(ctx) == (Context { calls: final (ctx).calls, ..*old(ctx) }),
            final (ctx).calls@ == old(ctx).calls@.push(GlCall::DeleteBuffer { addr: self.addr }),
    {
        ctx.calls.push(GlCall::DeleteBuffer { addr: self.addr });
    }
}

/// The scoped binding of an index buffer: while it is alive, the index-buffer
/// binding point is marked in use and holds the buffer's handle, and the
/// buffer's storage operations are available through it.
#[derive(Debug)]
pub struct ElementBufferBinding {
    addr: u32,
}

impl ElementBufferBinding {
    /// The handle of the buffer this binding was created for.
    pub closed spec fn spec_addr(self) -> u32 {
        self.addr
    }

    /// The handle of the buffer this binding was created for.
    pub fn addr(&self) -> (addr: u32)
        ensures
            addr == self.spec_addr(),
    {
        self.addr
    }

    /// The binding is live for `buffer_addr` in `ctx`: it was created for
    /// that handle, the handle is still the one bound at the index-buffer
    /// binding point, and the binding point is still marked in use.
    pub open spec fn is_live(self, ctx: Context, buffer_addr: u32) -> bool {
        &&& self.spec_addr() == buffer_addr
        &&& ctx.bound_element_buffer.bound_addr == buffer_addr
        &&& ctx.bound_element_buffer.is_binding_alive
    }

    /// (Re)allocates the storage to hold exactly `data` and uploads it in the
    /// same command.
    pub fn alloc_and_set<T: BufferIndex>(
        &self,
        ctx: &mut Context,
        buffer: &mut ElementBuffer<T>,
        data: &[T],
    )
        requires
            old(buffer).wf(),
            self.is_live(*old(ctx), old(buffer).addr),
            data@.len() * vstd::layout::size_of::<T>() <= isize::MAX,
        ensures
            final (buffer).wf(),
            *final(buffer) == (ElementBuffer {
                len: data@.len() as usize,
                contents: final (buffer).contents,
                contents_valid: true,
                ..*old(buffer)
            }),
            final (buffer).contents@ == data@,
            final (buffer).spec_read_back() == Some(data@),
            self.is_live(*final(ctx), final (buffer).addr),
            *final(ctx) == (Context { calls: final (ctx).calls, ..*old(ctx) }),
            final (ctx).calls@ == old(ctx).calls@.push(
                GlCall::BufferData {
                    target: BindBufferTarget::Element,
                    byte_len: (data@.len() * vstd::layout::size_of::<T>()) as usize,
                    usage: old(buffer).usage_hint,
                    with_data: true,
                },
            ),
    {
        let byte_len: usize = data.len() * core::mem::size_of::<T>();
        ctx.calls.push(
            GlCall::BufferData {
                target: BindBufferTarget::Element,
                byte_len,
                usage: buffer.usage_hint,
                with_data: true,
            },
        );
        buffer.len = data.len();
        buffer.contents = vstd::slice::slice_to_vec(data);
        buffer.contents_valid = true;
    }

    /// (Re)allocates the storage to hold `data_len` elements with undefined
    /// contents.
    pub fn reserve_data<T: BufferIndex>(
        &self,
        ctx: &mut Context,
        buffer: &mut ElementBuffer<T>,
        data_len: usize,
    )
        requires
            old(buffer).wf(),
            self.is_live(*old(ctx), old(buffer).addr),
            data_len * vstd::layout::size_of::<T>() <= isize::MAX,
        ensures
            final (buffer).wf(),
            *final(buffer) == (ElementBuffer {
                len: data_len,
                contents_valid: false,
                ..*old(buffer)
            }),
            self.is_live(*final(ctx), final (buffer).addr),
            *final(ctx) == (Context { calls: final (ctx).calls, ..*old(ctx) }),
            final (ctx).calls@ == old(ctx).calls@.push(
                GlCall::BufferData {
                    target: BindBufferTarget::Element,
                    byte_len: (data_len * vstd::layout::size_of::<T>()) as usize,
                    usage: old(buffer).usage_hint,
                    with_data: false,
                },
            ),
    {
        let byte_len: usize = data_len * core::mem::size_of::<T>();
        ctx.calls.push(
            GlCall::BufferData {
                target: BindBufferTarget::Element,
                byte_len,
                usage: buffer.usage_hint,
                with_data: false,
            },
        );
        buffer.len = data_len;
        buffer.contents_valid = false;
    }

    /// Overwrites the whole storage with `data`.
    ///
    /// Fails, issuing no command and changing nothing, exactly when
    /// `data.len()` differs from the storage's current length; the error
    /// names both lengths.
    pub fn set<T: BufferIndex>(
        &self,
        ctx: &mut Context,
        buffer: &mut ElementBuffer<T>,
        data: &[T],
    ) -> (result: Result<(), OoglError>)
        requires
            old(buffer).wf(),
            self.is_live(*old(ctx), old(buffer).addr),
        ensures
            final (buffer).wf(),
            self.is_live(*final(ctx), final (buffer).addr),
            match result {
                Ok(_) => {
                    &&& data@.len() == old(buffer).len
                    &&& *final(buffer) == (ElementBuffer {
                        contents: final (buffer).contents,
                        contents_valid: true,
                        ..*old(buffer)
                    })
                    &&& final (buffer).contents@ == data@
                    &&& final (buffer).spec_read_back() == Some(data@)
                    &&& *final(ctx) == (Context { calls: final (ctx).calls, ..*old(ctx) })
                    &&& final (ctx).calls@ == old(ctx).calls@.push(
                        GlCall::BufferSubData {
                            target: BindBufferTarget::Element,
                            byte_offset: 0usize,
                            byte_len: (data@.len() * vstd::layout::size_of::<T>()) as usize,
                        },
                    )
                },
                Err(e) => {
                    &&& data@.len() != old(buffer).len
                    &&& e == (OoglError::DataLengthMismatch {
                        slice_len: data@.len() as usize,
                        range_len: old(buffer).len,
                    })
                    &&& *final(buffer) == *old(buffer)
                    &&& *final(ctx) == *old(ctx)
                },
            },
    {
        if data.len() != buffer.len {
            return Err(
                OoglError::DataLengthMismatch { slice_len: data.len(), range_len: buffer.len },
            );
        }
        let byte_len: usize = data.len() * core::mem::size_of::<T>();
        ctx.calls.push(
            GlCall::BufferSubData {
                target: BindBufferTarget::Element,
                byte_offset: 0,
                byte_len,
            },
        );
        buffer.contents = vstd::slice::slice_to_vec(data);
        buffer.contents_valid = true;
        Ok(())
    }

    /// Reallocates the storage at its current length with undefined contents,
    /// telling the driver the old contents are no longer needed.
    pub fn orphan_data<T: BufferIndex>(&self, ctx: &mut Context, buffer: &mut ElementBuffer<T>)
        requires
            old(buffer).wf(),
            self.is_live(*old(ctx), old(buffer).addr),
        ensures
            final (buffer).wf(),
            *final(buffer) == (ElementBuffer { contents_valid: false, ..*old(buffer) }),
            self.is_live(*final(ctx), final (buffer).addr),
            *final(ctx) == (Context { calls: final (ctx).calls, ..*old(ctx) }),
            final (ctx).calls@ == old(ctx).calls@.push(
                GlCall::BufferData {
                    target: BindBufferTarget::Element,
                    byte_len: (old(buffer).len * vstd::layout::size_of::<T>()) as usize,
                    usage: old(buffer).usage_hint,
                    with_data: false,
                },
            ),
    {
        let byte_len: usize = buffer.len * core::mem::size_of::<T>();
        ctx.calls.push(
            GlCall::BufferData {
                target: BindBufferTarget::Element,
                byte_len,
                usage: buffer.usage_hint,
                with_data: false,
            },
        );
        buffer.contents_valid = false;
    }

    /// Overwrites the element range `range` of the storage with `data`.
    ///
    /// Fails, issuing no command and changing nothing, when the range does
    /// not lie inside the storage, or when `data.len()` differs from the
    /// range's length; each error names the offending values.
    pub fn set_slice<T: BufferIndex>(
        &self,
        ctx: &mut Context,
        buffer: &mut ElementBuffer<T>,
        range: core::ops::Range<usize>,
        data: &[T],
    ) -> (result: Result<(), OoglError>)
        requires
            old(buffer).wf(),
            self.is_live(*old(ctx), old(buffer).addr),
        ensures
            final (buffer).wf(),
            self.is_live(*final(ctx), final (buffer).addr),
            match result {
                Ok(_) => {
                    &&& range.start <= range.end <= old(buffer).len
                    &&& data@.len() == range.end - range.start
                    &&& *final(buffer) == (ElementBuffer {
                        contents: final (buffer).contents,
                        contents_valid: final (buffer).contents_valid,
                        ..*old(buffer)
                    })
                    &&& final (buffer).contents_valid == (old(buffer).contents_valid || (
                    range.start == 0 && range.end == old(buffer).len))
                    &&& old(buffer).contents_valid ==> final (buffer).contents@ == old(
                        buffer,
                    ).contents@.subrange(0, range.start as int) + data@ + old(
                        buffer,
                    ).contents@.subrange(range.end as int, old(buffer).len as int)
                    &&& (!old(buffer).contents_valid && range.start == 0 && range.end == old(
                        buffer,
                    ).len) ==> final (buffer).contents@ == data@
                    &&& (!old(buffer).contents_valid && !(range.start == 0 && range.end == old(
                        buffer,
                    ).len)) ==> final (buffer).contents@ == old(buffer).contents@
                    &&& *final(ctx) == (Context { calls: final (ctx).calls, ..*old(ctx) })
                    &&& final (ctx).calls@ == old(ctx).calls@.push(
                        GlCall::BufferSubData {
                            target: BindBufferTarget::Element,
                            byte_offset: (range.start * vstd::layout::size_of::<T>()) as usize,
                            byte_len: (data@.len() * vstd::layout::size_of::<T>()) as usize,
                        },
                    )
                },
                Err(e) => {
                    &&& *final(buffer) == *old(buffer)
                    &&& *final(ctx) == *old(ctx)
                    &&& if !(range.start <= range.end <= old(buffer).len) {
                        e == (OoglError::RangeOutOfBounds {
                            start: range.start,
                            end: range.end,
                            len: old(buffer).len,
                        })
                    } else {
                        &&& data@.len() != range.end - range.start
                        &&& e == (OoglError::DataLengthMismatch {
                            slice_len: data@.len() as usize,
                            range_len: (range.end - range.start) as usize,
                        })
                    }
                },
            },
    {
        let start: usize = range.start;
        let end: usize = range.end;
        if start > end || end > buffer.len {
            return Err(OoglError::RangeOutOfBounds { start, end, len: buffer.len });
        }
        let range_len: usize = end - start;
        if data.len() != range_len {
            return Err(OoglError::DataLengthMismatch { slice_len: data.len(), range_len });
        }
        proof {
            vstd::arithmetic::mul::lemma_mul_inequality(
                start as int,
                old(buffer).len as int,
                vstd::layout::size_of::<T>() as int,
            );
            vstd::arithmetic::mul::lemma_mul_inequality(
                data@.len() as int,
                old(buffer).len as int,
                vstd::layout::size_of::<T>() as int,
            );
        }
        let elem_size: usize = core::mem::size_of::<T>();
        let byte_offset: usize = start * elem_size;
        let byte_len: usize = data.len() * elem_size;
        ctx.calls.push(
            GlCall::BufferSubData { target: BindBufferTarget::Element, byte_offset, byte_len },
        );
        if buffer.contents_valid {
            let ghost ctx_snapshot = *ctx;
            let mut pos: usize = 0;
            while pos < data.len()
                invariant
                    0 <= pos <= data@.len(),
                    start + data@.len() <= usize::MAX,
                    start + data@.len() <= buffer.contents@.len(),
                    *ctx == ctx_snapshot,
                    *buffer == (ElementBuffer { contents: buffer.contents, ..*old(buffer) }),
                    buffer.contents@.len() == old(buffer).contents@.len(),
                    forall|i: int|
                        0 <= i < buffer.contents@.len() && !(start <= i < start + pos)
                            ==> buffer.contents@[i] == old(buffer).contents@[i],
                    forall|i: int|
                        0 <= i < pos ==> buffer.contents@[start + i] == data@[i],
                decreases data@.len() - pos,
            {
                buffer.contents[start + pos] = data[pos];
                pos = pos + 1;
            }
            proof {
                assert(buffer.contents@ =~= old(buffer).contents@.subrange(0, start as int)
                    + data@ + old(buffer).contents@.subrange(end as int, old(buffer).len as int));
            }
        } else if start == 0 && end == buffer.len {
            buffer.contents = vstd::slice::slice_to_vec(data);
            buffer.contents_valid = true;
        }
        Ok(())
    }

    /// Drops the scoped binding: the binding point is free again, but the
    /// handle stays bound, so rebinding the same buffer later is free.
    pub fn unbind(self, ctx: &mut Context)
        ensures
            *final(ctx) == (Context {
                bound_element_buffer: final (ctx).bound_element_buffer,
                ..*old(ctx)
            }),
            final (ctx).bound_element_buffer == old(ctx).bound_element_buffer.spec_after_binding_dropped(),
    {
        ctx.bound_element_buffer.on_binding_dropped();
    }

    /// Draws all elements of the buffer, reading indices of the buffer's
    /// scalar width. The program binding is not read: its existence is the
    /// type-level proof that a program is currently bound.
    pub fn draw<T: BufferIndex>(
        &self,
        ctx: &mut Context,
        buffer: &ElementBuffer<T>,
        _program_binding: &crate::shader::ProgramBinding,
        mode: DrawPrimitive,
    )
        requires
            buffer.wf(),
            self.is_live(*old(ctx), buffer.addr),
            buffer.len <= i32::MAX,
        ensures
            self.is_live(*final(ctx), buffer.addr),
            *final(ctx) == (Context { calls: final (ctx).calls, ..*old(ctx) }),
            final (ctx).calls@ == old(ctx).calls@.push(
                GlCall::DrawElements {
                    mode,
                    count: buffer.len,
                    element_type: T::spec_draw_elements_type(),
                    byte_offset: 0usize,
                },
            ),
    {
        ctx.calls.push(
            GlCall::DrawElements {
                mode,
                count: buffer.len,
                element_type: T::draw_elements_type(),
                byte_offset: 0,
            },
        );
    }

    /// Draws the element range `range` of the buffer.
    ///
    /// Fails, issuing no command, when the range does not lie inside the
    /// buffer's tracked length; the error names the range and the length.
    pub fn draw_slice<T: BufferIndex>(
        &self,
        ctx: &mut Context,
        buffer: &ElementBuffer<T>,
        _program_binding: &crate::shader::ProgramBinding,
        mode: DrawPrimitive,
        range: core::ops::Range<usize>,
    ) -> (result: Result<(), OoglError>)
        requires
            buffer.wf(),
            self.is_live(*old(ctx), buffer.addr),
            buffer.len <= i32::MAX,
        ensures
            self.is_live(*final(ctx), buffer.addr),
            *final(ctx) == (Context { calls: final (ctx).calls, ..*old(ctx) }),
            match result {
                Ok(_) => {
                    &&& range.start <= range.end <= buffer.len
                    &&& final (ctx).calls@ == old(ctx).calls@.push(
                        GlCall::DrawElements {
                            mode,
                            count: (range.end - range.start) as usize,
                            element_type: T::spec_draw_elements_type(),
                            byte_offset: (range.start * vstd::layout::size_of::<T>()) as usize,
                        },
                    )
                },
                Err(e) => {
                    &&& !(range.start <= range.end <= buffer.len)
                    &&& e == (OoglError::RangeOutOfBounds {
                        start: range.start,
                        end: range.end,
                        len: buffer.len,
                    })
                    &&& final (ctx).calls@ == old(ctx).calls@
                },
            },
    {
        let start: usize = range.start;
        let end: usize = range.end;
        if start > end || end > buffer.len {
            return Err(OoglError::RangeOutOfBounds { start, end, len: buffer.len });
        }
        proof {
            vstd::arithmetic::mul::lemma_mul_inequality(
                start as int,
                buffer.len as int,
                vstd::layout::size_of::<T>() as int,
            );
        }
        let byte_offset: usize = start * core::mem::size_of::<T>();
        ctx.calls.push(
            GlCall::DrawElements {
                mode,
                count: end - start,
                element_type: T::draw_elements_type(),
                byte_offset,
            },
        );
        Ok(())
    }

    /// Drops the scoped binding and leaves handle 0 bound, so the buffer
    /// leaves no trace of itself at the binding point.
    pub fn unbind_completely(self, ctx: &mut Context)
        ensures
            *final(ctx) == (Context {
                calls: final (ctx).calls,
                bound_element_buffer: final (ctx).bound_element_buffer,
                ..*old(ctx)
            }),
            final (ctx).bound_element_buffer == (BindingTarget {
                bound_addr: 0u32,
                is_binding_alive: false,
                ..old(ctx).bound_element_buffer
            }),
            final (ctx).calls@ == old(ctx).calls@.push(
                crate::context::spec_bind_call(old(ctx).bound_element_buffer.kind, 0),
            ),
    {
        ctx.bound_element_buffer.unbind_unconditionally(&mut ctx.calls);
        ctx.bound_element_buffer.on_binding_dropped();
    }
}

/// The value types a vertex buffer can hold per attribute, each with its
/// natural attribute-pointer layout.
pub trait CorrespondingAttribPtrType: Sized {
    /// The natural layout of attribute values of `Self`.
    spec fn spec_corresponding_attrib_ptr_type() -> AttribPtrType;

    /// The natural layout of attribute values of `Self`.
    fn corresponding_attrib_ptr_type() -> (type_: AttribPtrType)
        ensures
            type_ == Self::spec_corresponding_attrib_ptr_type(),
            1 <= type_.len <= 4,
    ;
}

impl CorrespondingAttribPtrType for u8 {
    open spec fn spec_corresponding_attrib_ptr_type() -> AttribPtrType {
        AttribPtrType { name: AttribPtrTypeName::U8, len: 1u32, normalize: false }
    }

    fn corresponding_attrib_ptr_type() -> (type_: AttribPtrType) {
        AttribPtrType { name: AttribPtrTypeName::U8, len: 1, normalize: false }
    }
}

impl CorrespondingAttribPtrType for i8 {
    open spec fn spec_corresponding_attrib_ptr_type() -> AttribPtrType {
        AttribPtrType { name: AttribPtrTypeName::I8, len: 1u32, normalize: false }
    }

    fn corresponding_attrib_ptr_type() -> (type_: AttribPtrType) {
        AttribPtrType { name: AttribPtrTypeName::I8, len: 1, normalize: false }
    }
}

impl CorrespondingAttribPtrType for u16 {
    open spec fn spec_corresponding_attrib_ptr_type() -> AttribPtrType {
        AttribPtrType { name: AttribPtrTypeName::U16, len: 1u32, normalize: false }
    }

    fn corresponding_attrib_ptr_type() -> (type_: AttribPtrType) {
        AttribPtrType { name: AttribPtrTypeName::U16, len: 1, normalize: false }
    }
}

impl CorrespondingAttribPtrType for i16 {
    open spec fn spec_corresponding_attrib_ptr_type() -> AttribPtrType {
        AttribPtrType { name: AttribPtrTypeName::I16, len: 1u32, normalize: false }
    }

    fn corresponding_attrib_ptr_type() -> (type_: AttribPtrType) {
        AttribPtrType { name: AttribPtrTypeName::I16, len: 1, normalize: false }
    }
}

impl CorrespondingAttribPtrType for crate::math::Vec2<u8> {
    open spec fn spec_corresponding_attrib_ptr_type() -> AttribPtrType {
        AttribPtrType { name: AttribPtrTypeName::U8, len: 2u32, normalize: false }
    }

    fn corresponding_attrib_ptr_type() -> (type_: AttribPtrType) {
        AttribPtrType { name: AttribPtrTypeName::U8, len: 2, normalize: false }
    }
}

impl CorrespondingAttribPtrType for crate::math::Vec2<i16> {
    open spec fn spec_corresponding_attrib_ptr_type() -> AttribPtrType {
        AttribPtrType { name: AttribPtrTypeName::I16, len: 2u32, normalize: false }
    }

    fn corresponding_attrib_ptr_type() -> (type_: AttribPtrType) {
        AttribPtrType { name: AttribPtrTypeName::I16, len: 2, normalize: false }
    }
}

impl CorrespondingAttribPtrType for crate::math::Vec3<u8> {
    open spec fn spec_corresponding_attrib_ptr_type() -> AttribPtrType {
        AttribPtrType { name: AttribPtrTypeName::U8, len: 3u32, normalize: false }
    }

    fn corresponding_attrib_ptr_type() -> (type_: AttribPtrType) {
        AttribPtrType { name: AttribPtrTypeName::U8, len: 3, normalize: false }
    }
}

impl CorrespondingAttribPtrType for crate::math::Vec4<u8> {
    open spec fn spec_corresponding_attrib_ptr_type() -> AttribPtrType {
        AttribPtrType { name: AttribPtrTypeName::U8, len: 4u32, normalize: false }
    }

    fn corresponding_attrib_ptr_type() -> (type_: AttribPtrType) {
        AttribPtrType { name: AttribPtrTypeName::U8, len: 4, normalize: false }
    }
}

impl CorrespondingAttribPtrType for crate::math::Color<u8> {
    open spec fn spec_corresponding_attrib_ptr_type() -> AttribPtrType {
        AttribPtrType { name: AttribPtrTypeName::U8, len: 4u32, normalize: false }
    }

    fn corresponding_attrib_ptr_type() -> (type_: AttribPtrType) {
        AttribPtrType { name: AttribPtrTypeName::U8, len: 4, normalize: false }
    }
}

impl<T: crate::shader::CorrespondingAttribType + CorrespondingAttribPtrType> crate::shader::Attrib<
    T,
> {
    /// Builds the attribute pointer that feeds this attribute with values
    /// laid out as `type_`.
    ///
    /// For an active attribute this fails, as a misuse, when `type_.len`
    /// differs from the total number of scalar components the attribute's
    /// declared shading-language type requires (components times declared
    /// array length); the error names the location and both counts. An
    /// inactive attribute accepts any layout: the resulting pointer is
    /// skipped by every layout, enable and disable walk.
    pub fn to_pointer(&self, type_: AttribPtrType) -> (result: Result<AttribPtr, OoglError>)
        requires
            1 <= type_.len <= 4,
        ensures
            match result {
                Ok(attrib_ptr) => {
                    &&& (self.data_type matches Some(declared)
                        ==> type_.len == declared.name.spec_components() * (
                    match declared.array_len {
                        Some(array_len) => array_len,
                        None => 1u32,
                    }))
                    &&& attrib_ptr == (AttribPtr {
                        location: self.location,
                        type_,
                        size: (type_.name.spec_size() * type_.len) as u32,
                    })
                },
                Err(e) => {
                    &&& self.data_type matches Some(declared) && type_.len
                        != declared.name.spec_components() * (match declared.array_len {
                        Some(array_len) => array_len,
                        None => 1u32,
                    }) && e == (OoglError::AttribPtrLenMismatch {
                        location: self.location,
                        specified_len: type_.len,
                        required_len: (declared.name.spec_components() * (
                        match declared.array_len {
                            Some(array_len) => array_len,
                            None => 1u32,
                        })) as u64,
                    })
                },
            },
    {
        match self.data_type() {
            Some(declared) => {
                let components: u8 = declared.name.components();
                let array_len: u32 = match declared.array_len {
                    Some(array_len) => array_len,
                    None => 1,
                };
                proof {
                    vstd::arithmetic::mul::lemma_mul_upper_bound(
                        components as int,
                        16,
                        array_len as int,
                        u32::MAX as int,
                    );
                }
                let required_len: u64 = (components as u64) * (array_len as u64);
                if (type_.len as u64) != required_len {
                    return Err(
                        OoglError::AttribPtrLenMismatch {
                            location: self.location,
                            specified_len: type_.len,
                            required_len,
                        },
                    );
                }
            },
            None => {},
        }
        Ok(AttribPtr::new(self.location(), type_))
    }

    /// Builds the attribute pointer with the value type's natural layout.
    pub fn to_pointer_simple(&self) -> (result: Result<AttribPtr, OoglError>)
        ensures
            match result {
                Ok(attrib_ptr) => {
                    &&& (self.data_type matches Some(declared)
                        ==> T::spec_corresponding_attrib_ptr_type().len
                        == declared.name.spec_components() * (match declared.array_len {
                        Some(array_len) => array_len,
                        None => 1u32,
                    }))
                    &&& attrib_ptr == (AttribPtr {
                        location: self.location,
                        type_: T::spec_corresponding_attrib_ptr_type(),
                        size: (T::spec_corresponding_attrib_ptr_type().name.spec_size()
                            * T::spec_corresponding_attrib_ptr_type().len) as u32,
                    })
                },
                Err(e) => {
                    &&& self.data_type matches Some(declared)
                        && T::spec_corresponding_attrib_ptr_type().len
                        != declared.name.spec_components() * (match declared.array_len {
                        Some(array_len) => array_len,
                        None => 1u32,
                    }) && e == (OoglError::AttribPtrLenMismatch {
                        location: self.location,
                        specified_len: T::spec_corresponding_attrib_ptr_type().len,
                        required_len: (declared.name.spec_components() * (
                        match declared.array_len {
                            Some(array_len) => array_len,
                            None => 1u32,
                        })) as u64,
                    })
                },
            },
    {
        self.to_pointer(T::corresponding_attrib_ptr_type())
    }

    /// Builds the attribute pointer with the value type's natural layout, but
    /// reading scalars of `name` instead.
    pub fn to_pointer_simple_with_cast(&self, name: AttribPtrTypeName) -> (result: Result<
        AttribPtr,
        OoglError,
    >)
        ensures
            match result {
                Ok(attrib_ptr) => {
                    &&& (self.data_type matches Some(declared)
                        ==> T::spec_corresponding_attrib_ptr_type().len
                        == declared.name.spec_components() * (match declared.array_len {
                        Some(array_len) => array_len,
                        None => 1u32,
                    }))
                    &&& attrib_ptr == (AttribPtr {
                        location: self.location,
                        type_: AttribPtrType {
                            name,
                            ..T::spec_corresponding_attrib_ptr_type()
                        },
                        size: (name.spec_size() * T::spec_corresponding_attrib_ptr_type().len)
                            as u32,
                    })
                },
                Err(e) => {
                    &&& self.data_type matches Some(declared)
                        && T::spec_corresponding_attrib_ptr_type().len
                        != declared.name.spec_components() * (match declared.array_len {
                        Some(array_len) => array_len,
                        None => 1u32,
                    }) && e == (OoglError::AttribPtrLenMismatch {
                        location: self.location,
                        specified_len: T::spec_corresponding_attrib_ptr_type().len,
                        required_len: (declared.name.spec_components() * (
                        match declared.array_len {
                            Some(array_len) => array_len,
                            None => 1u32,
                        })) as u64,
                    })
                },
            },
    {
        let natural: AttribPtrType = T::corresponding_attrib_ptr_type();
        self.to_pointer(AttribPtrType { name, len: natural.len, normalize: natural.normalize })
    }
}

/// Round trip: a buffer freshly uploaded with `alloc_and_set(data)` reads
/// back exactly `data` through the read-back path.
pub proof fn lemma_upload_read_back_round_trip<T: Copy>(buffer: VertexBuffer<T>, data: Seq<T>)
    requires
        buffer.contents_valid,
        buffer.contents@ == data,
    ensures
        buffer.spec_read_back() == Some(data),
{
}

} // verus!
