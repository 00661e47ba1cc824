//! A buffer holding sample data: one native handle, allocated, filled,
//! queried and released against the native state it came from.

use vstd::prelude::*;

use crate::error::Error;
use crate::format::{format_of, supported, Samples};
use crate::native::{fresh_slot, killed, valid_rate, BufferSlot, Native};

verus! {

/// Owns one native buffer handle. The handle is only as alive as the native
/// cell behind it: releasing the buffer, or destroying the listener that
/// owned the cell, leaves every later query degrading to the zero sentinel.
#[derive(Clone, Copy, Debug, PartialEq, Eq, Structural)]
pub struct Buffer {
    id: u32,
}

/// A live snapshot of a buffer's identity and metadata, taken at the moment
/// it is rendered, not at creation time.
#[derive(Clone, Copy, Debug, PartialEq, Eq, Structural)]
pub struct BufferInfo {
    pub id: u32,
    pub rate: u32,
    pub bits: u16,
    pub channels: u16,
    pub len: usize,
}

impl Buffer {
    /// The native handle this buffer owns.
    pub closed spec fn spec_id(&self) -> u32 {
        self.id
    }

    /// Requests one fresh native handle, unfilled. Fails with
    /// `InvalidOperation` when no listener is current, and with `OutOfMemory`
    /// when the native allocator or the handle space is exhausted; on failure
    /// the allocated-handle count is unchanged.
    pub fn empty(n: &mut Native) -> (r: Result<Buffer, Error>)
        requires
            old(n).ready(),
        ensures
            final(n).ready(),
            final(n).same_surroundings(old(n)),
            r is Ok <==> old(n).cur() != 0 && !old(n).exhausted(),
            match r {
                Ok(b) => {
                    &&& b.spec_id() == old(n).bufs().len() + 1
                    &&& final(n).buf_ok(b.spec_id())
                    &&& final(n).bufs() == old(n).bufs().push(fresh_slot(old(n).cur()))
                    &&& final(n).live_bufs() == old(n).live_bufs() + 1
                },
                Err(e) => {
                    &&& final(n).bufs() == old(n).bufs()
                    &&& final(n).live_bufs() == old(n).live_bufs()
                    &&& e == (if old(n).cur() == 0 {
                        Error::InvalidOperation
                    } else {
                        Error::OutOfMemory
                    })
                },
            },
    {
        let h = n.gen_buffer();
        match n.check_error() {
            Ok(()) => Ok(Buffer { id: h }),
            Err(e) => Err(e),
        }
    }

    /// Allocates a handle and immediately fills it. If the fill step fails,
    /// the already-allocated handle is released again before the failure is
    /// returned: construction never leaks a native handle, and the
    /// allocated-handle count returns to its pre-call baseline.
    pub fn new(n: &mut Native, channels: u16, data: &Samples, rate: u32) -> (r: Result<
        Buffer,
        Error,
    >)
        requires
            old(n).ready(),
            data.spec_byte_len() <= usize::MAX,
        ensures
            final(n).ready(),
            final(n).same_surroundings(old(n)),
            r is Ok <==> old(n).cur() != 0 && !old(n).exhausted() && supported(
                channels,
                data.spec_bits(),
            ) && valid_rate(rate),
            final(n).live_bufs() == old(n).live_bufs() + if r is Ok {
                1int
            } else {
                0int
            },
            forall|h: u32| old(n).buf_ok(h) ==> #[trigger] final(n).bufs()[h - 1] == old(n).bufs()[h
                - 1],
            match r {
                Ok(b) => {
                    &&& b.spec_id() == old(n).bufs().len() + 1
                    &&& final(n).buf_ok(b.spec_id())
                    &&& final(n).q_rate(b.spec_id()) == rate
                    &&& final(n).q_bits(b.spec_id()) == data.spec_bits()
                    &&& final(n).q_channels(b.spec_id()) == channels
                    &&& final(n).q_len(b.spec_id()) == data.spec_len()
                },
                Err(e) => e == (if old(n).cur() == 0 {
                    Error::InvalidOperation
                } else if old(n).exhausted() {
                    Error::OutOfMemory
                } else if !supported(channels, data.spec_bits()) {
                    Error::UnsupportedFormat
                } else {
                    Error::InvalidValue
                }),
            },
    {
        let buffer = match Buffer::empty(n) {
            Ok(b) => b,
            Err(e) => {
                return Err(e);
            },
        };
        match buffer.fill(n, channels, data, rate) {
            Ok(()) => Ok(buffer),
            Err(e) => {
                buffer.release(n);
                Err(e)
            },
        }
    }

    /// Resolves the sample format and uploads the data's byte length and the
    /// rate to this handle, overwriting any prior content. Fails with
    /// `UnsupportedFormat` on a pair without native mapping, with
    /// `InvalidOperation` when no listener is current, with `InvalidName` on
    /// a released or foreign handle, and with `InvalidValue` on a rate
    /// outside the positive signed range; on failure nothing changes.
    pub fn fill(&self, n: &mut Native, channels: u16, data: &Samples, rate: u32) -> (r: Result<
        (),
        Error,
    >)
        requires
            old(n).ready(),
            data.spec_byte_len() <= usize::MAX,
        ensures
            final(n).ready(),
            final(n).same_surroundings(old(n)),
            final(n).bufs().len() == old(n).bufs().len(),
            final(n).live_bufs() == old(n).live_bufs(),
            r is Ok <==> supported(channels, data.spec_bits()) && old(n).cur() != 0 && old(
                n,
            ).buf_ok(self.spec_id()) && valid_rate(rate),
            match r {
                Ok(()) => {
                    &&& final(n).bufs() == old(n).bufs().update(
                        self.spec_id() - 1,
                        BufferSlot {
                            alive: true,
                            owner: old(n).bufs()[self.spec_id() - 1].owner,
                            rate,
                            bits: data.spec_bits(),
                            channels,
                            byte_len: data.spec_byte_len() as usize,
                        },
                    )
                    &&& final(n).q_rate(self.spec_id()) == rate
                    &&& final(n).q_bits(self.spec_id()) == data.spec_bits()
                    &&& final(n).q_channels(self.spec_id()) == channels
                    &&& final(n).q_len(self.spec_id()) == data.spec_len()
                },
                Err(e) => {
                    &&& final(n).bufs() == old(n).bufs()
                    &&& e == (if !supported(channels, data.spec_bits()) {
                        Error::UnsupportedFormat
                    } else if old(n).cur() == 0 {
                        Error::InvalidOperation
                    } else if !old(n).buf_ok(self.spec_id()) {
                        Error::InvalidName
                    } else {
                        Error::InvalidValue
                    })
                },
            },
    {
        let format = match format_of(channels, data.bits()) {
            Ok(f) => f,
            Err(e) => {
                return Err(e);
            },
        };
        n.buffer_data(self.id, format, data.byte_len(), rate);
        match n.check_error() {
            Ok(()) => {
                proof {
                    assert(n.q_size(self.spec_id()) == data.spec_byte_len());
                    assert(n.q_len(self.spec_id()) == data.spec_len());
                }
                Ok(())
            },
            Err(e) => Err(e),
        }
    }

    /// The raw native handle.
    pub fn id(&self) -> (i: u32)
        ensures
            i == self.spec_id(),
    {
        self.id
    }

    /// The sample rate of the data in the buffer, read live against the
    /// native handle; the zero sentinel when the handle or the query is
    /// invalid.
    pub fn rate(&self, n: &Native) -> (r: u32)
        ensures
            r == n.q_rate(self.spec_id()),
    {
        n.read_rate(self.id)
    }

    /// The bit depth of the data in the buffer, read live; zero sentinel on
    /// an invalid handle or query.
    pub fn bits(&self, n: &Native) -> (r: u16)
        ensures
            r == n.q_bits(self.spec_id()),
    {
        n.read_bits(self.id)
    }

    /// The number of channels of the data in the buffer, read live; zero
    /// sentinel on an invalid handle or query.
    pub fn channels(&self, n: &Native) -> (r: u16)
        ensures
            r == n.q_channels(self.spec_id()),
    {
        n.read_channels(self.id)
    }

    /// The number of samples in the buffer: its byte size divided by its
    /// element width, read live; zero sentinel while unfilled or invalid.
    pub fn len(&self, n: &Native) -> (r: usize)
        ensures
            r == n.q_len(self.spec_id()),
    {
        let bits = n.read_bits(self.id);
        let size = n.read_size(self.id);
        if bits < 8 {
            0
        } else {
            size / ((bits / 8) as usize)
        }
    }

    /// A live snapshot of the handle and its metadata, taken now.
    pub fn snapshot(&self, n: &Native) -> (info: BufferInfo)
        ensures
            info.id == self.spec_id(),
            info.rate == n.q_rate(self.spec_id()),
            info.bits == n.q_bits(self.spec_id()),
            info.channels == n.q_channels(self.spec_id()),
            info.len == n.q_len(self.spec_id()),
    {
        BufferInfo {
            id: self.id,
            rate: self.rate(n),
            bits: self.bits(n),
            channels: self.channels(n),
            len: self.len(n),
        }
    }

    /// Returns the handle to the native pool, exactly once: the buffer is
    /// consumed, and the allocated-handle count drops by one. Releasing is a
    /// cleanup path that can surface no failure, so the handle must still be
    /// live — releasing after the owning listener is destroyed would be a
    /// native error that nothing could receive.
    pub fn release(self, n: &mut Native)
        requires
            old(n).ready(),
            old(n).buf_ok(self.spec_id()),
        ensures
            final(n).ready(),
            final(n).same_surroundings(old(n)),
            final(n).bufs() == old(n).bufs().update(
                self.spec_id() - 1,
                killed(old(n).bufs()[self.spec_id() - 1]),
            ),
            final(n).live_bufs() == old(n).live_bufs() - 1,
    {
        n.delete_buffer(self.id);
        // The native layer reporting an error here would be an unrecoverable
        // defect; the proof shows the release path never reaches one.
        let code = n.last_error();
        assert(code == 0);
    }
}

} // verus!
