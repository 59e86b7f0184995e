//! The common face of every server-side object: its handle and its debug
//! namespace, with the best-effort debug-label helpers built on them.

use vstd::prelude::*;

use crate::context::Context;
use crate::debug::spec_label_lookup;
use crate::debug::ObjectNamespace;
use crate::error::OoglError;

verus! {

/// A server-side object: the exclusive owner of one handle in one namespace.
pub trait Object {
    /// The owned handle.
    spec fn spec_object_addr(&self) -> u32;

    /// The owned handle.
    fn object_addr(&self) -> (addr: u32)
        ensures
            addr == self.spec_object_addr(),
    ;

    /// The namespace the handle lives in.
    spec fn spec_namespace() -> ObjectNamespace;

    /// The namespace the handle lives in.
    fn namespace() -> (namespace: ObjectNamespace)
        ensures
            namespace == Self::spec_namespace(),
    ;
}

impl<T: Copy> Object for crate::buffer::VertexBuffer<T> {
    open spec fn spec_object_addr(&self) -> u32 {
        self.addr
    }

    fn object_addr(&self) -> (addr: u32) {
        self.addr
    }

    open spec fn spec_namespace() -> ObjectNamespace {
        ObjectNamespace::Buffer
    }

    fn namespace() -> (namespace: ObjectNamespace) {
        ObjectNamespace::Buffer
    }
}

impl<T: crate::buffer::BufferIndex> Object for crate::buffer::ElementBuffer<T> {
    open spec fn spec_object_addr(&self) -> u32 {
        self.addr
    }

    fn object_addr(&self) -> (addr: u32) {
        self.addr
    }

    open spec fn spec_namespace() -> ObjectNamespace {
        ObjectNamespace::Buffer
    }

    fn namespace() -> (namespace: ObjectNamespace) {
        ObjectNamespace::Buffer
    }
}

impl Object for crate::shader::Shader {
    open spec fn spec_object_addr(&self) -> u32 {
        self.addr
    }

    fn object_addr(&self) -> (addr: u32) {
        self.addr
    }

    open spec fn spec_namespace() -> ObjectNamespace {
        ObjectNamespace::Shader
    }

    fn namespace() -> (namespace: ObjectNamespace) {
        ObjectNamespace::Shader
    }
}

impl Object for crate::shader::Program {
    open spec fn spec_object_addr(&self) -> u32 {
        self.addr
    }

    fn object_addr(&self) -> (addr: u32) {
        self.addr
    }

    open spec fn spec_namespace() -> ObjectNamespace {
        ObjectNamespace::Program
    }

    fn namespace() -> (namespace: ObjectNamespace) {
        ObjectNamespace::Program
    }
}

impl<T: crate::texture::TextureDataType> Object for crate::texture::Texture2D<T> {
    open spec fn spec_object_addr(&self) -> u32 {
        self.addr
    }

    fn object_addr(&self) -> (addr: u32) {
        self.addr
    }

    open spec fn spec_namespace() -> ObjectNamespace {
        ObjectNamespace::Texture
    }

    fn namespace() -> (namespace: ObjectNamespace) {
        ObjectNamespace::Texture
    }
}

impl Object for crate::framebuffer::Framebuffer {
    open spec fn spec_object_addr(&self) -> u32 {
        self.addr
    }

    fn object_addr(&self) -> (addr: u32) {
        self.addr
    }

    open spec fn spec_namespace() -> ObjectNamespace {
        ObjectNamespace::Framebuffer
    }

    fn namespace() -> (namespace: ObjectNamespace) {
        ObjectNamespace::Framebuffer
    }
}

/// Attaches a debug label to `object`, as
/// [`crate::debug::set_object_debug_label`] does.
pub fn set_debug_label<O: Object>(ctx: &mut Context, object: &O, label: &[u8]) -> (result: Result<
    (),
    OoglError,
>)
    ensures
        !old(ctx).capabilities.extensions.gl_khr_debug ==> result == Ok::<(), OoglError>(())
            && *final(ctx) == *old(ctx),
        old(ctx).capabilities.extensions.gl_khr_debug && result is Ok ==> spec_label_lookup(
            final (ctx).debug_labels@,
            O::spec_namespace(),
            object.spec_object_addr(),
        ) == Some(label@),
        result is Err ==> *final(ctx) == *old(ctx),
{
    crate::debug::set_object_debug_label(ctx, O::namespace(), object.object_addr(), label)
}

/// Reads the debug label of `object` back, as
/// [`crate::debug::get_object_debug_label`] does.
pub fn get_debug_label<O: Object>(ctx: &Context, object: &O) -> (label: Vec<u8>)
    ensures
        !ctx.capabilities.extensions.gl_khr_debug ==> label@ == Seq::<u8>::empty(),
        ctx.capabilities.extensions.gl_khr_debug ==> label@ == (match spec_label_lookup(
            ctx.debug_labels@,
            O::spec_namespace(),
            object.spec_object_addr(),
        ) {
            Some(stored) => stored,
            None => Seq::<u8>::empty(),
        }),
{
    crate::debug::get_object_debug_label(ctx, O::namespace(), object.object_addr())
}

} // verus!
