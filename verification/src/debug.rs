//! Best-effort debug labels for server-side objects.
//!
//! Labeling is gated on the debug extension: where the capability probe found
//! it absent, attaching is a silent no-op and reading returns empty data.
//! Where it is present, an oversized label or one with an embedded terminator
//! byte is a misuse error, reported before any command is issued.

use vstd::prelude::*;

use crate::context::Context;
use crate::context::GlCall;
use crate::error::OoglError;

verus! {

/// The namespace a labeled object handle lives in.
#[derive(Debug, Copy, Clone, PartialEq, Eq, Structural)]
pub enum ObjectNamespace {
    Buffer,
    Shader,
    Program,
    Texture,
    Framebuffer,
}

/// The label currently attached to the object `addr` of `namespace`: the
/// last entry stored under that key, if any.
pub open spec fn spec_label_lookup(
    labels: Seq<(ObjectNamespace, u32, Vec<u8>)>,
    namespace: ObjectNamespace,
    addr: u32,
) -> Option<Seq<u8>>
    decreases labels.len(),
{
    if labels.len() == 0 {
        None
    } else if labels.last().0 == namespace && labels.last().1 == addr {
        Some(labels.last().2@)
    } else {
        spec_label_lookup(labels.drop_last(), namespace, addr)
    }
}

/// Attaches a debug label to the object `addr` of `namespace`.
///
/// Where the debug extension is absent this is a silent no-op. Where it is
/// present, the call fails, issuing no command, when the label is longer than
/// the driver-reported maximum or holds an embedded terminator byte; the
/// errors name the offending values.
pub fn set_object_debug_label(
    ctx: &mut Context,
    namespace: ObjectNamespace,
    addr: u32,
    label: &[u8],
) -> (result: Result<(), OoglError>)
    ensures
        !old(ctx).capabilities.extensions.gl_khr_debug ==> result == Ok::<(), OoglError>(())
            && *final(ctx) == *old(ctx),
        old(ctx).capabilities.extensions.gl_khr_debug ==> match result {
            Ok(_) => {
                &&& label@.len() <= old(ctx).capabilities.max_debug_object_label_len
                &&& !label@.contains(0u8)
                &&& *final(ctx) == (Context {
                    calls: final (ctx).calls,
                    debug_labels: final (ctx).debug_labels,
                    ..*old(ctx)
                })
                &&& final (ctx).calls@ == old(ctx).calls@.push(
                    GlCall::ObjectLabel { namespace, addr, label_len: label@.len() as usize },
                )
                &&& spec_label_lookup(final (ctx).debug_labels@, namespace, addr) == Some(label@)
                &&& forall|other_namespace: ObjectNamespace, other_addr: u32|
                    !(other_namespace == namespace && other_addr == addr) ==> spec_label_lookup(
                        final (ctx).debug_labels@,
                        other_namespace,
                        other_addr,
                    ) == spec_label_lookup(old(ctx).debug_labels@, other_namespace, other_addr)
            },
            Err(e) => {
                &&& *final(ctx) == *old(ctx)
                &&& if label@.len() > old(ctx).capabilities.max_debug_object_label_len {
                    e == (OoglError::LabelTooLong {
                        len: label@.len() as usize,
                        max_len: old(ctx).capabilities.max_debug_object_label_len,
                    })
                } else {
                    &&& label@.contains(0u8)
                    &&& e == OoglError::LabelHasNulByte
                }
            },
        },
{
    if !ctx.capabilities.extensions.gl_khr_debug {
        return Ok(());
    }
    let max_len: i32 = ctx.capabilities.max_debug_object_label_len;
    if max_len < 0 || label.len() > (max_len as usize) {
        proof {
            assert(label@.len() > old(ctx).capabilities.max_debug_object_label_len);
        }
        return Err(OoglError::LabelTooLong { len: label.len(), max_len });
    }
    if contains_nul(label) {
        return Err(OoglError::LabelHasNulByte);
    }
    ctx.calls.push(GlCall::ObjectLabel { namespace, addr, label_len: label.len() });
    store_label(&mut ctx.debug_labels, namespace, addr, vstd::slice::slice_to_vec(label));
    Ok(())
}

/// Detaches any debug label from the object `addr` of `namespace`; a silent
/// no-op where the debug extension is absent.
pub fn unset_object_debug_label(ctx: &mut Context, namespace: ObjectNamespace, addr: u32)
    ensures
        !old(ctx).capabilities.extensions.gl_khr_debug ==> *final(ctx) == *old(ctx),
        old(ctx).capabilities.extensions.gl_khr_debug ==> {
            &&& *final(ctx) == (Context {
                calls: final (ctx).calls,
                debug_labels: final (ctx).debug_labels,
                ..*old(ctx)
            })
            &&& final (ctx).calls@ == old(ctx).calls@.push(
                GlCall::ObjectLabel { namespace, addr, label_len: 0usize },
            )
            &&& spec_label_lookup(final (ctx).debug_labels@, namespace, addr) == Some(
                Seq::<u8>::empty(),
            )
            &&& forall|other_namespace: ObjectNamespace, other_addr: u32|
                !(other_namespace == namespace && other_addr == addr) ==> spec_label_lookup(
                    final (ctx).debug_labels@,
                    other_namespace,
                    other_addr,
                ) == spec_label_lookup(old(ctx).debug_labels@, other_namespace, other_addr)
        },
{
    if !ctx.capabilities.extensions.gl_khr_debug {
        return ;
    }
    ctx.calls.push(GlCall::ObjectLabel { namespace, addr, label_len: 0 });
    store_label(&mut ctx.debug_labels, namespace, addr, Vec::new());
}

/// Reads the debug label of the object `addr` of `namespace` back: the
/// attached label, or empty data where none is attached or the debug
/// extension is absent.
pub fn get_object_debug_label(ctx: &Context, namespace: ObjectNamespace, addr: u32) -> (label: Vec<
    u8,
>)
    ensures
        !ctx.capabilities.extensions.gl_khr_debug ==> label@ == Seq::<u8>::empty(),
        ctx.capabilities.extensions.gl_khr_debug ==> label@ == (match spec_label_lookup(
            ctx.debug_labels@,
            namespace,
            addr,
        ) {
            Some(stored) => stored,
            None => Seq::<u8>::empty(),
        }),
{
    if !ctx.capabilities.extensions.gl_khr_debug {
        return Vec::new();
    }
    let mut pos: usize = ctx.debug_labels.len();
    proof {
        assert(ctx.debug_labels@.take(pos as int) =~= ctx.debug_labels@);
    }
    while pos > 0
        invariant
            ctx.capabilities.extensions.gl_khr_debug,
            0 <= pos <= ctx.debug_labels@.len(),
            spec_label_lookup(ctx.debug_labels@.take(pos as int), namespace, addr)
                == spec_label_lookup(ctx.debug_labels@, namespace, addr),
        decreases pos,
    {
        proof {
            assert(ctx.debug_labels@.take(pos as int).last() == ctx.debug_labels@[pos - 1]);
            assert(ctx.debug_labels@.take(pos as int).drop_last() =~= ctx.debug_labels@.take(
                pos - 1,
            ));
        }
        pos = pos - 1;
        let entry = &ctx.debug_labels[pos];
        if entry.0 == namespace && entry.1 == addr {
            return vstd::slice::slice_to_vec(entry.2.as_slice());
        }
    }
    proof {
        assert(ctx.debug_labels@.take(0) =~= Seq::<(ObjectNamespace, u32, Vec<u8>)>::empty());
    }
    Vec::new()
}

/// Whether the byte slice holds a terminator byte.
fn contains_nul(bytes: &[u8]) -> (found: bool)
    ensures
        found == bytes@.contains(0u8),
{
    let mut pos: usize = 0;
    while pos < bytes.len()
        invariant
            0 <= pos <= bytes@.len(),
            forall|i: int| 0 <= i < pos ==> bytes@[i] != 0u8,
        decreases bytes@.len() - pos,
    {
        if bytes[pos] == 0 {
            return true;
        }
        pos = pos + 1;
    }
    false
}

/// Stores `label` as the label of the object `addr` of `namespace`: a new
/// entry is appended, and lookups find the latest entry of each key.
fn store_label(
    labels: &mut Vec<(ObjectNamespace, u32, Vec<u8>)>,
    namespace: ObjectNamespace,
    addr: u32,
    label: Vec<u8>,
)
    ensures
        spec_label_lookup(final (labels)@, namespace, addr) == Some(label@),
        forall|other_namespace: ObjectNamespace, other_addr: u32|
            !(other_namespace == namespace && other_addr == addr) ==> spec_label_lookup(
                final (labels)@,
                other_namespace,
                other_addr,
            ) == spec_label_lookup(old(labels)@, other_namespace, other_addr),
{
    let ghost original = labels@;
    labels.push((namespace, addr, label));
    proof {
        assert(labels@.last() == labels@[original.len() as int]);
        assert(labels@.drop_last() =~= original);
    }
}

} // verus!
