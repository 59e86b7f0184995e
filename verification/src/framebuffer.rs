//! Framebuffers: render-target objects with a scoped binding and a
//! completeness query.

use vstd::prelude::*;

use crate::context::BindFramebufferTarget;
use crate::context::BindingTarget;
use crate::context::Context;
use crate::context::GlCall;
use crate::error::OoglError;

verus! {

/// What the driver reports about a framebuffer's completeness.
#[derive(Debug, Copy, Clone, PartialEq, Eq, Structural)]
pub enum FramebufferStatus {
    Complete,
    IncompleteAttachment,
    IncompleteDimensions,
    IncompleteMissingAttachment,
    IncompleteUnsupported,
}

/// A framebuffer object: owns one server-side handle.
#[derive(Debug)]
pub struct Framebuffer {
    pub addr: u32,
}

impl Framebuffer {
    /// Creates a framebuffer object with a fresh handle.
    pub fn new(ctx: &mut Context) -> (framebuffer: Framebuffer)
        requires
            old(ctx).wf(),
            old(ctx).next_addr < u32::MAX,
        ensures
            framebuffer.addr == old(ctx).next_addr,
            *final(ctx) == (Context {
                calls: final (ctx).calls,
                next_addr: final (ctx).next_addr,
                ..*old(ctx)
            }),
            final (ctx).next_addr == old(ctx).next_addr + 1,
            final (ctx).calls@ == old(ctx).calls@.push(
                GlCall::GenFramebuffer { addr: framebuffer.addr },
            ),
            final (ctx).wf(),
    {
        let addr: u32 = ctx.fresh_addr();
        ctx.calls.push(GlCall::GenFramebuffer { addr });
        Framebuffer { addr }
    }

    /// The server-side handle.
    pub fn addr(&self) -> (addr: u32)
        ensures
            addr == self.addr,
    {
        self.addr
    }

    /// Creates the scoped binding for this framebuffer: marks the framebuffer
    /// binding point as in use and binds the handle there if it is not bound
    /// already.
    ///
    /// Fails, issuing no command and changing nothing, exactly when a scoped
    /// binding for the framebuffer binding point is still alive.
    pub fn bind(&self, ctx: &mut Context) -> (result: Result<FramebufferBinding, OoglError>)
        ensures
            match result {
                Ok(binding) => {
                    &&& old(ctx).bound_framebuffer.spec_accepts_binding()
                    &&& binding.spec_addr() == self.addr
                    &&& *final(ctx) == (Context {
                        calls: final (ctx).calls,
                        bound_framebuffer: final (ctx).bound_framebuffer,
                        ..*old(ctx)
                    })
                    &&& final (ctx).bound_framebuffer == old(
                        ctx,
                    ).bound_framebuffer.spec_after_scoped_bind(self.addr)
                    &&& final (ctx).calls@ == old(ctx).calls@ + old(
                        ctx,
                    ).bound_framebuffer.spec_bind_calls(self.addr)
                },
                Err(e) => {
                    &&& !old(ctx).bound_framebuffer.spec_accepts_binding()
                    &&& e == (OoglError::OverlappingBinding {
                        new_addr: self.addr,
                        old_addr: old(ctx).bound_framebuffer.bound_addr,
                    })
                    &&& *final(ctx) == *old(ctx)
                },
            },
    {
        let created = ctx.bound_framebuffer.on_binding_created(self.addr);
        match created {
            Ok(_) => {
                ctx.bound_framebuffer.bind_if_needed(&mut ctx.calls, self.addr);
                Ok(FramebufferBinding { addr: self.addr })
            },
            Err(e) => Err(e),
        }
    }

    /// Issues the command that deletes the handle. The owner is consumed:
    /// a deleted framebuffer cannot be touched again.
    pub fn delete(self, ctx: &mut Context)
        ensures
            *final(ctx) == (Context { calls: final (ctx).calls, ..*old(ctx) }),
            final (ctx).calls@ == old(ctx).calls@.push(
                GlCall::DeleteFramebuffer { addr: self.addr },
            ),
    {
        ctx.calls.push(GlCall::DeleteFramebuffer { addr: self.addr });
    }
}

/// The scoped binding of a framebuffer.
#[derive(Debug)]
pub struct FramebufferBinding {
    addr: u32,
}

impl FramebufferBinding {
    /// The handle of the framebuffer this binding was created for.
    pub closed spec fn spec_addr(self) -> u32 {
        self.addr
    }

    /// The handle of the framebuffer this binding was created for.
    pub fn addr(&self) -> (addr: u32)
        ensures
            addr == self.spec_addr(),
    {
        self.addr
    }

    /// The binding is live for `framebuffer_addr` in `ctx`.
    pub open spec fn is_live(self, ctx: Context, framebuffer_addr: u32) -> bool {
        &&& self.spec_addr() == framebuffer_addr
        &&& ctx.bound_framebuffer.bound_addr == framebuffer_addr
        &&& ctx.bound_framebuffer.is_binding_alive
    }

    /// The driver's completeness report for the bound framebuffer, as the
    /// embedder decided it.
    pub fn status(&self, ctx: &Context) -> (status: FramebufferStatus)
        ensures
            status == ctx.replies.framebuffer_status,
    {
        ctx.replies.framebuffer_status
    }

    /// Drops the scoped binding: the binding point is free again, but the
    /// handle stays bound, so rebinding the same framebuffer later is free.
    pub fn unbind(self, ctx: &mut Context)
        ensures
            *final(ctx) == (Context {
                bound_framebuffer: final (ctx).bound_framebuffer,
                ..*old(ctx)
            }),
            final (ctx).bound_framebuffer == old(ctx).bound_framebuffer.spec_after_binding_dropped(),
    {
        ctx.bound_framebuffer.on_binding_dropped();
    }

    /// Drops the scoped binding and leaves handle 0 bound, so the framebuffer
    /// leaves no trace of itself at the binding point.
    pub fn unbind_completely(self, ctx: &mut Context)
        ensures
            *final(ctx) == (Context {
                calls: final (ctx).calls,
                bound_framebuffer: final (ctx).bound_framebuffer,
                ..*old(ctx)
            }),
            final (ctx).bound_framebuffer == (BindingTarget {
                bound_addr: 0u32,
                is_binding_alive: false,
                ..old(ctx).bound_framebuffer
            }),
            final (ctx).calls@ == old(ctx).calls@.push(
                crate::context::spec_bind_call(old(ctx).bound_framebuffer.kind, 0),
            ),
    {
        ctx.bound_framebuffer.unbind_unconditionally(&mut ctx.calls);
        ctx.bound_framebuffer.on_binding_dropped();
    }
}

} // verus!
