//! The output listener: sole owner of one device handle and one context
//! handle, activated into the process-wide current-context register when
//! opened, and destroyed exactly once — deactivating, freeing the context,
//! then closing the device, in that order.

use vstd::prelude::*;

use crate::attributes::{encoded, Attributes};
use crate::error::Error;
use crate::native::{killed, killed_ctx, ContextSlot, DeviceSlot, Native};

verus! {

/// Owns one native device handle and the context created from it. Opening a
/// listener makes its context current, superseding whichever listener was
/// current before; the superseded listener itself is unchanged, it is merely
/// no longer the target of contextless calls.
#[derive(Debug)]
pub struct Listener {
    device: u32,
    context: u32,
}

impl Listener {
    /// The context handle this listener owns.
    pub closed spec fn spec_context(&self) -> u32 {
        self.context
    }

    /// The device handle this listener owns.
    pub closed spec fn spec_device(&self) -> u32 {
        self.device
    }

    /// The listener's handles are live in `n` and tied to each other.
    pub open spec fn attached(&self, n: &Native) -> bool {
        &&& n.ctx_ok(self.spec_context())
        &&& n.dev_ok(self.spec_device())
        &&& n.ctxs()[self.spec_context() - 1].device == self.spec_device()
    }

    /// The context handle, as the native layer knows it.
    pub fn context(&self) -> (c: u32)
        ensures
            c == self.spec_context(),
    {
        self.context
    }

    /// The device handle, as the native layer knows it.
    pub fn device(&self) -> (d: u32)
        ensures
            d == self.spec_device(),
    {
        self.device
    }

    /// Whether this listener's context is the current one.
    pub fn is_current(&self, n: &Native) -> (b: bool)
        ensures
            b == (n.cur() == self.spec_context() && n.cur() != 0),
    {
        let cur = n.current_handle();
        cur == self.context && cur != 0
    }

    /// Destroys the listener: if it is current, the current-context register
    /// is cleared first; then the context is freed — taking every buffer
    /// handle it owned with it — and the device closed, in that order. The
    /// listener is consumed: destruction happens exactly once, and no
    /// operation is possible on it afterwards.
    pub fn destroy(self, n: &mut Native)
        requires
            old(n).ready(),
            self.attached(old(n)),
        ensures
            final(n).ready(),
            final(n).cur() == (if old(n).cur() == self.spec_context() {
                0u32
            } else {
                old(n).cur()
            }),
            !final(n).ctx_ok(self.spec_context()),
            !final(n).dev_ok(self.spec_device()),
            final(n).ctxs() == old(n).ctxs().update(
                self.spec_context() - 1,
                killed_ctx(old(n).ctxs()[self.spec_context() - 1]),
            ),
            final(n).devs() == old(n).devs().update(
                self.spec_device() - 1,
                DeviceSlot { alive: false },
            ),
            final(n).bufs().len() == old(n).bufs().len(),
            forall|j: int|
                0 <= j < old(n).bufs().len() ==> #[trigger] final(n).bufs()[j] == (if old(
                    n,
                ).bufs()[j].owner == self.spec_context() {
                    killed(old(n).bufs()[j])
                } else {
                    old(n).bufs()[j]
                }),
            final(n).live_bufs() <= old(n).live_bufs(),
            final(n).cap() == old(n).cap(),
            final(n).can_enum() == old(n).can_enum(),
            final(n).block() == old(n).block(),
    {
        let cur = n.current_handle();
        if cur == self.context {
            n.make_current(0);
        }
        n.destroy_context(self.context);
        proof {
            assert forall|i: int|
                0 <= i < n.ctxs().len() && (#[trigger] n.ctxs()[i]).alive implies n.ctxs()[i].device
                != self.spec_device() by {
                assert(old(n).ctxs()[i].alive);
                assert(i != self.spec_context() - 1);
            }
        }
        n.close_device(self.device);
        // A native error after a cleanup call would be an unrecoverable
        // defect; the proof shows this path never produces one.
        let code = n.last_error();
        assert(code == 0);
    }
}

/// Opens the default output device with the given attributes, creates a
/// context from it and makes that context current, superseding whichever
/// listener was current before.
pub fn default(n: &mut Native, attributes: &Attributes) -> (r: Result<Listener, Error>)
    requires
        old(n).ready(),
        old(n).dev_space(),
        old(n).ctx_space(),
        attributes.spec_pairs().len() * 2 + 1 <= usize::MAX,
    ensures
        final(n).ready(),
        r is Ok,
        match r {
            Ok(l) => opened(old(n), final(n), l, attributes),
            Err(_) => false,
        },
{
    open_device_with(n, None, attributes)
}

/// Opens the named output device with the given attributes, creates a
/// context from it and makes that context current. Fails with `InvalidName`,
/// changing nothing, when the name is not one the native layer knows.
pub fn open(n: &mut Native, name: &Vec<u8>, attributes: &Attributes) -> (r: Result<
    Listener,
    Error,
>)
    requires
        old(n).ready(),
        old(n).dev_space(),
        old(n).ctx_space(),
        attributes.spec_pairs().len() * 2 + 1 <= usize::MAX,
    ensures
        final(n).ready(),
        r is Ok <==> old(n).names().contains(name@),
        match r {
            Ok(l) => opened(old(n), final(n), l, attributes),
            Err(e) => {
                &&& e == Error::InvalidName
                &&& final(n).bufs() == old(n).bufs()
                &&& final(n).live_bufs() == old(n).live_bufs()
                &&& final(n).ctxs() == old(n).ctxs()
                &&& final(n).devs() == old(n).devs()
                &&& final(n).cur() == old(n).cur()
                &&& final(n).cap() == old(n).cap()
                &&& final(n).can_enum() == old(n).can_enum()
                &&& final(n).block() == old(n).block()
            },
        },
{
    open_device_with(n, Some(name), attributes)
}

/// What a successful open did: a fresh device and a fresh context exist, the
/// context sits on the device and carries the attribute encoding verbatim,
/// the new context is current, and everything that was there before — the
/// previously current listener included — is untouched.
pub open spec fn opened(pre: &Native, post: &Native, l: Listener, attributes: &Attributes) -> bool {
    &&& l.spec_device() == pre.devs().len() + 1
    &&& l.spec_context() == pre.ctxs().len() + 1
    &&& post.devs() == pre.devs().push(DeviceSlot { alive: true })
    &&& post.ctxs() == pre.ctxs().push(
        ContextSlot { alive: true, device: l.spec_device(), attrs: Ghost(encoded(attributes.spec_pairs())) },
    )
    &&& l.attached(post)
    &&& post.cur() == l.spec_context()
    &&& pre.cur() != 0 ==> post.ctx_ok(pre.cur()) && post.cur() != pre.cur()
    &&& post.bufs() == pre.bufs()
    &&& post.live_bufs() == pre.live_bufs()
    &&& post.cap() == pre.cap()
    &&& post.can_enum() == pre.can_enum()
    &&& post.block() == pre.block()
}

/// Shared body of the two open paths.
fn open_device_with(n: &mut Native, name: Option<&Vec<u8>>, attributes: &Attributes) -> (r: Result<
    Listener,
    Error,
>)
    requires
        old(n).ready(),
        old(n).dev_space(),
        old(n).ctx_space(),
        attributes.spec_pairs().len() * 2 + 1 <= usize::MAX,
    ensures
        final(n).ready(),
        r is Ok <==> (name matches Some(nm) ==> old(n).names().contains(nm@)),
        match r {
            Ok(l) => opened(old(n), final(n), l, attributes),
            Err(e) => {
                &&& e == Error::InvalidName
                &&& final(n).bufs() == old(n).bufs()
                &&& final(n).live_bufs() == old(n).live_bufs()
                &&& final(n).ctxs() == old(n).ctxs()
                &&& final(n).devs() == old(n).devs()
                &&& final(n).cur() == old(n).cur()
                &&& final(n).cap() == old(n).cap()
                &&& final(n).can_enum() == old(n).can_enum()
                &&& final(n).block() == old(n).block()
            },
        },
{
    let list = attributes.to_list();
    let dev = n.open_device(name);
    match n.check_error() {
        Ok(()) => {},
        Err(e) => {
            return Err(e);
        },
    }
    let ctx = n.create_context(dev, &list);
    n.make_current(ctx);
    Ok(Listener { device: dev, context: ctx })
}

/// The available output device names, in order; the empty sequence — not a
/// failure — when the enumeration capability is absent.
pub fn devices(n: &Native) -> (r: Vec<Vec<u8>>)
    ensures
        n.can_enum() ==> crate::native::views_of(r@) == n.names(),
        !n.can_enum() ==> r@.len() == 0,
{
    if n.enumeration_supported() {
        crate::native::parse_names(n.name_block_ref())
    } else {
        Vec::new()
    }
}

} // verus!
