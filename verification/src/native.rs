//! An explicit image of the native audio library's state: the buffer handle
//! arena, the open devices and contexts, the process-wide current-context
//! register, and the sticky error register.
//!
//! The native layer is deterministic state behind opaque integer handles, and
//! this module holds that state in one value that every operation threads
//! through, so that tests can reset it between cases and proofs can speak of
//! it. Handles are never reused: a released slot stays dead, which is what
//! keeps a stale handle from ever aliasing a fresh resource.

use vstd::prelude::*;

use crate::error::{error_of_code, Error, ERR_INVALID_NAME, ERR_INVALID_OPERATION, ERR_INVALID_VALUE, ERR_OUT_OF_MEMORY};
use crate::format::SampleFormat;

verus! {

/// The handle space is 32 bits wide; handle 0 is reserved as "no object".
pub const MAX_HANDLES: usize = 0xFFFF_FFFF;

/// One cell of the buffer arena: its liveness, the context that owned it at
/// allocation time, and the properties readable through integer queries.
#[derive(Clone, Copy, PartialEq, Eq, Structural)]
pub struct BufferSlot {
    pub alive: bool,
    pub owner: u32,
    pub rate: u32,
    pub bits: u16,
    pub channels: u16,
    pub byte_len: usize,
}

/// One cell of the context arena: its liveness, the device it was created
/// from, and (as ghost history) the attribute list it was created with.
#[derive(Clone, Copy)]
pub struct ContextSlot {
    pub alive: bool,
    pub device: u32,
    pub attrs: Ghost<Seq<i32>>,
}

/// One cell of the device arena.
#[derive(Clone, Copy, PartialEq, Eq, Structural)]
pub struct DeviceSlot {
    pub alive: bool,
}

/// A freshly allocated, still unfilled buffer cell.
pub open spec fn fresh_slot(owner: u32) -> BufferSlot {
    BufferSlot { alive: true, owner, rate: 0, bits: 0, channels: 0, byte_len: 0 }
}

/// The same cell, released.
pub open spec fn killed(s: BufferSlot) -> BufferSlot {
    BufferSlot { alive: false, ..s }
}

/// The same context cell, destroyed.
pub open spec fn killed_ctx(s: ContextSlot) -> ContextSlot {
    ContextSlot { alive: false, ..s }
}

/// The number of live cells in a buffer arena.
pub open spec fn count_live(s: Seq<BufferSlot>) -> int
    decreases s.len(),
{
    if s.len() == 0 {
        0
    } else {
        count_live(s.drop_last()) + if s.last().alive {
            1int
        } else {
            0int
        }
    }
}

pub proof fn lemma_count_live_push(s: Seq<BufferSlot>, x: BufferSlot)
    ensures
        count_live(s.push(x)) == count_live(s) + if x.alive {
            1int
        } else {
            0int
        },
{
    assert(s.push(x).drop_last() =~= s);
}

pub proof fn lemma_count_live_update(s: Seq<BufferSlot>, i: int, x: BufferSlot)
    requires
        0 <= i < s.len(),
    ensures
        count_live(s.update(i, x)) == count_live(s) - (if s[i].alive {
            1int
        } else {
            0int
        }) + (if x.alive {
            1int
        } else {
            0int
        }),
    decreases s.len(),
{
    let t = s.update(i, x);
    if i == s.len() - 1 {
        assert(t.drop_last() =~= s.drop_last());
    } else {
        assert(t.drop_last() =~= s.drop_last().update(i, x));
        lemma_count_live_update(s.drop_last(), i, x);
    }
}

pub proof fn lemma_count_live_bounds(s: Seq<BufferSlot>)
    ensures
        0 <= count_live(s) <= s.len(),
    decreases s.len(),
{
    if s.len() > 0 {
        lemma_count_live_bounds(s.drop_last());
    }
}

/// The position at which the name starting at `i` ends: the first index at or
/// after `i` holding a terminator byte, or the end of the block.
pub open spec fn end_of_name(b: Seq<u8>, i: int) -> int
    decreases b.len() - i,
{
    if i < 0 || i >= b.len() || b[i] == 0 {
        i
    } else {
        end_of_name(b, i + 1)
    }
}

pub proof fn lemma_end_of_name_bounds(b: Seq<u8>, i: int)
    requires
        0 <= i <= b.len(),
    ensures
        i <= end_of_name(b, i) <= b.len(),
    decreases b.len() - i,
{
    if !(i >= b.len() || b[i] == 0) {
        lemma_end_of_name_bounds(b, i + 1);
    }
}

/// The device names carried by a terminator-delimited block, read from
/// position `i` on: each name runs to the next terminator byte, and an empty
/// name (or the end of the block) ends the list.
pub open spec fn names_from(b: Seq<u8>, i: int) -> Seq<Seq<u8>>
    decreases b.len() - i,
    via names_from_decreases
{
    if i < 0 || i >= b.len() || b[i] == 0 {
        Seq::empty()
    } else {
        let e = end_of_name(b, i);
        let next = if e + 1 <= b.len() {
            e + 1
        } else {
            b.len() as int
        };
        seq![b.subrange(i, e)] + names_from(b, next)
    }
}

#[via_fn]
proof fn names_from_decreases(b: Seq<u8>, i: int) {
    if !(i < 0 || i >= b.len() || b[i] == 0) {
        lemma_end_of_name_bounds(b, i);
    }
}

/// The explicit native state. All fields are private: the model is read and
/// changed only through the operations below, whose contracts say exactly
/// what each native call does.
pub struct Native {
    buffers: Vec<BufferSlot>,
    contexts: Vec<ContextSlot>,
    devices: Vec<DeviceSlot>,
    current: u32,
    error: u32,
    capacity: usize,
    can_enumerate: bool,
    name_block: Vec<u8>,
}

impl Native {
    /// The buffer arena, one cell per handle ever issued.
    pub closed spec fn bufs(&self) -> Seq<BufferSlot> {
        self.buffers@
    }

    /// The context arena.
    pub closed spec fn ctxs(&self) -> Seq<ContextSlot> {
        self.contexts@
    }

    /// The device arena.
    pub closed spec fn devs(&self) -> Seq<DeviceSlot> {
        self.devices@
    }

    /// The current-context register: 0 when no context is current.
    pub closed spec fn cur(&self) -> u32 {
        self.current
    }

    /// The sticky error register: 0 when clear.
    pub closed spec fn err(&self) -> u32 {
        self.error
    }

    /// How many buffers the native allocator can hold at once.
    pub closed spec fn cap(&self) -> int {
        self.capacity as int
    }

    /// Whether the device-enumeration capability is present.
    pub closed spec fn can_enum(&self) -> bool {
        self.can_enumerate
    }

    /// The raw terminator-delimited device name block.
    pub closed spec fn block(&self) -> Seq<u8> {
        self.name_block@
    }

    /// The device names the native layer knows.
    pub open spec fn names(&self) -> Seq<Seq<u8>> {
        names_from(self.block(), 0)
    }

    /// Whether `h` is a live buffer handle.
    pub open spec fn buf_ok(&self, h: u32) -> bool {
        1 <= h <= self.bufs().len() && self.bufs()[h - 1].alive
    }

    /// Whether `h` is a live context handle.
    pub open spec fn ctx_ok(&self, h: u32) -> bool {
        1 <= h <= self.ctxs().len() && self.ctxs()[h - 1].alive
    }

    /// Whether `h` is a live device handle.
    pub open spec fn dev_ok(&self, h: u32) -> bool {
        1 <= h <= self.devs().len() && self.devs()[h - 1].alive
    }

    /// The number of live buffer handles.
    pub open spec fn live_bufs(&self) -> int {
        count_live(self.bufs())
    }

    /// Whether the buffer allocator can hand out one more handle.
    pub open spec fn exhausted(&self) -> bool {
        self.live_bufs() >= self.cap() || self.bufs().len() >= MAX_HANDLES
    }

    /// Whether the device arena has handle space left.
    pub open spec fn dev_space(&self) -> bool {
        self.devs().len() < MAX_HANDLES
    }

    /// Whether the context arena has handle space left.
    pub open spec fn ctx_space(&self) -> bool {
        self.ctxs().len() < MAX_HANDLES
    }

    /// Whether an integer query against buffer `h` reads real properties: a
    /// context must be current and the handle must be live. Anything else
    /// degrades to the zero sentinel.
    pub open spec fn q_ok(&self, h: u32) -> bool {
        self.cur() != 0 && self.buf_ok(h)
    }

    /// What a sample-rate query against `h` reads.
    pub open spec fn q_rate(&self, h: u32) -> u32 {
        if self.q_ok(h) {
            self.bufs()[h - 1].rate
        } else {
            0
        }
    }

    /// What a bit-depth query against `h` reads.
    pub open spec fn q_bits(&self, h: u32) -> u16 {
        if self.q_ok(h) {
            self.bufs()[h - 1].bits
        } else {
            0
        }
    }

    /// What a channel-count query against `h` reads.
    pub open spec fn q_channels(&self, h: u32) -> u16 {
        if self.q_ok(h) {
            self.bufs()[h - 1].channels
        } else {
            0
        }
    }

    /// What a byte-size query against `h` reads.
    pub open spec fn q_size(&self, h: u32) -> usize {
        if self.q_ok(h) {
            self.bufs()[h - 1].byte_len
        } else {
            0
        }
    }

    /// The sample count a buffer reports: its byte size divided by its
    /// element width, or the zero sentinel while it is unfilled or unusable.
    pub open spec fn q_len(&self, h: u32) -> int {
        if self.q_bits(h) >= 8 {
            self.q_size(h) as int / (self.q_bits(h) as int / 8)
        } else {
            0
        }
    }

    /// Structural soundness of the state: the current context is live, live
    /// buffers are owned by live contexts, live contexts sit on live devices
    /// and own them exclusively, allocation respects the capacity, and every
    /// recorded bit depth is one the format table can produce.
    pub open spec fn inv(&self) -> bool {
        &&& (self.cur() == 0 || self.ctx_ok(self.cur()))
        &&& self.live_bufs() <= self.cap()
        &&& forall|i: int|
            0 <= i < self.bufs().len() && (#[trigger] self.bufs()[i]).alive ==> self.ctx_ok(
                self.bufs()[i].owner,
            )
        &&& forall|i: int|
            0 <= i < self.bufs().len() ==> ((#[trigger] self.bufs()[i]).bits == 0 || self.bufs()[
                i
            ].bits == 8 || self.bufs()[i].bits == 16)
        &&& forall|i: int|
            0 <= i < self.ctxs().len() && (#[trigger] self.ctxs()[i]).alive ==> self.dev_ok(
                self.ctxs()[i].device,
            )
        &&& forall|i: int, j: int|
            0 <= i < self.ctxs().len() && 0 <= j < self.ctxs().len() && i != j && (
            #[trigger] self.ctxs()[i]).alive && (#[trigger] self.ctxs()[j]).alive ==> self.ctxs()[
                i
            ].device != self.ctxs()[j].device
    }

    /// The state a public operation starts from and returns to: structurally
    /// sound, with the error register clear.
    pub open spec fn ready(&self) -> bool {
        self.inv() && self.err() == 0
    }

    /// Everything but the buffer arena and the error register is unchanged.
    pub open spec fn same_surroundings(&self, other: &Native) -> bool {
        &&& self.ctxs() == other.ctxs()
        &&& self.devs() == other.devs()
        &&& self.cur() == other.cur()
        &&& self.cap() == other.cap()
        &&& self.can_enum() == other.can_enum()
        &&& self.block() == other.block()
    }

    /// A fresh native state: nothing allocated, no context current, the error
    /// register clear. `capacity` bounds how many buffers can live at once,
    /// `can_enumerate` is the enumeration capability, and `name_block` is the
    /// terminator-delimited block of device names the layer knows.
    pub fn new(capacity: usize, can_enumerate: bool, name_block: Vec<u8>) -> (n: Native)
        ensures
            n.ready(),
            n.bufs().len() == 0,
            n.ctxs().len() == 0,
            n.devs().len() == 0,
            n.live_bufs() == 0,
            n.cur() == 0,
            n.err() == 0,
            n.cap() == capacity,
            n.can_enum() == can_enumerate,
            n.block() == name_block@,
    {
        Native {
            buffers: Vec::new(),
            contexts: Vec::new(),
            devices: Vec::new(),
            current: 0,
            error: 0,
            capacity,
            can_enumerate,
            name_block,
        }
    }

    /// How many buffer handles are live right now: the allocated-handle count
    /// a leak check compares against its baseline.
    pub fn alive_buffers(&self) -> (c: usize)
        ensures
            c == self.live_bufs(),
    {
        proof {
            lemma_count_live_bounds(self.bufs());
        }
        let mut c: usize = 0;
        let mut i: usize = 0;
        while i < self.buffers.len()
            invariant
                i <= self.buffers.len(),
                c == count_live(self.buffers@.take(i as int)),
                c <= i,
            decreases self.buffers.len() - i,
        {
            proof {
                assert(self.buffers@.take(i + 1).drop_last() =~= self.buffers@.take(i as int));
                assert(self.buffers@.take(i + 1).last() == self.buffers@[i as int]);
            }
            if self.buffers[i].alive {
                c = c + 1;
            }
            i = i + 1;
        }
        proof {
            assert(self.buffers@.take(self.buffers@.len() as int) =~= self.buffers@);
        }
        c
    }

    /// The current-context register, 0 when no context is current.
    pub fn current_handle(&self) -> (c: u32)
        ensures
            c == self.cur(),
    {
        self.current
    }

    /// Whether the device-enumeration capability is present.
    pub fn enumeration_supported(&self) -> (b: bool)
        ensures
            b == self.can_enum(),
    {
        self.can_enumerate
    }

    /// The raw device name block.
    pub(crate) fn name_block_ref(&self) -> (b: &Vec<u8>)
        ensures
            b@ == self.block(),
    {
        &self.name_block
    }

    /// Reads the error register without clearing it. A cleanup path calls
    /// this and proves the result zero: the native layer reporting an error
    /// after a release would be an unrecoverable defect.
    pub fn last_error(&self) -> (c: u32)
        ensures
            c == self.err(),
    {
        self.error
    }

    /// Reads and clears the error register, translating a non-zero code into
    /// the structured failure of the call that set it.
    pub(crate) fn check_error(&mut self) -> (r: Result<(), Error>)
        ensures
            final(self).err() == 0,
            final(self).bufs() == old(self).bufs(),
            final(self).same_surroundings(old(self)),
            old(self).inv() ==> final(self).inv(),
            r == if old(self).err() == 0 {
                Ok::<(), Error>(())
            } else {
                Err::<(), Error>(error_of_code(old(self).err()))
            },
    {
        let code = self.error;
        self.error = 0;
        if code == 0 {
            Ok(())
        } else {
            Err(Error::from_code(code))
        }
    }

    /// Sets the error register and changes nothing else: how a failing
    /// native call reports its code.
    pub(crate) fn set_error(&mut self, code: u32)
        requires
            old(self).inv(),
        ensures
            final(self).inv(),
            final(self).same_surroundings(old(self)),
            final(self).bufs() == old(self).bufs(),
            final(self).live_bufs() == old(self).live_bufs(),
            final(self).err() == code,
    {
        self.error = code;
        proof {
            assert forall|i: int|
                0 <= i < self.bufs().len() && (#[trigger] self.bufs()[i]).alive implies self.ctx_ok(
                self.bufs()[i].owner,
            ) by {
                assert(self.bufs()[i] == old(self).bufs()[i]);
            }
            assert forall|i: int|
                0 <= i < self.ctxs().len() && (#[trigger] self.ctxs()[i]).alive implies self.dev_ok(
                self.ctxs()[i].device,
            ) by {
                assert(self.ctxs()[i] == old(self).ctxs()[i]);
            }
            assert forall|i: int, j: int|
                0 <= i < self.ctxs().len() && 0 <= j < self.ctxs().len() && i != j && (
            #[trigger] self.ctxs()[i]).alive && (#[trigger] self.ctxs()[j]).alive implies self.ctxs()[
                i
            ].device != self.ctxs()[j].device by {
                assert(self.ctxs()[i] == old(self).ctxs()[i]);
                assert(self.ctxs()[j] == old(self).ctxs()[j]);
            }
            assert(self.inv());
        }
    }

    /// Requests one fresh buffer handle. With no current context the call is
    /// invalid; with the allocator or the handle space exhausted it reports
    /// memory exhaustion; otherwise a fresh, unfilled, live cell owned by the
    /// current context appears at the end of the arena.
    pub(crate) fn gen_buffer(&mut self) -> (h: u32)
        requires
            old(self).inv(),
            old(self).err() == 0,
        ensures
            final(self).inv(),
            final(self).same_surroundings(old(self)),
            old(self).cur() == 0 ==> h == 0 && final(self).err() == ERR_INVALID_OPERATION
                && final(self).bufs() == old(self).bufs(),
            old(self).cur() != 0 && old(self).exhausted() ==> h == 0 && final(self).err()
                == ERR_OUT_OF_MEMORY && final(self).bufs() == old(self).bufs(),
            old(self).cur() != 0 && !old(self).exhausted() ==> {
                &&& h == old(self).bufs().len() + 1
                &&& final(self).bufs() == old(self).bufs().push(fresh_slot(old(self).cur()))
                &&& final(self).live_bufs() == old(self).live_bufs() + 1
                &&& final(self).err() == 0
            },
    {
        if self.current == 0 {
            self.set_error(ERR_INVALID_OPERATION);
            return 0;
        }
        let live = self.alive_buffers();
        if live >= self.capacity || self.buffers.len() >= MAX_HANDLES {
            self.set_error(ERR_OUT_OF_MEMORY);
            return 0;
        }
        let slot = BufferSlot {
            alive: true,
            owner: self.current,
            rate: 0,
            bits: 0,
            channels: 0,
            byte_len: 0,
        };
        proof {
            lemma_count_live_push(self.buffers@, fresh_slot(self.current));
        }
        self.buffers.push(slot);
        (self.buffers.len()) as u32
    }

    /// Uploads sample properties to buffer `h`: with no current context, a
    /// dead handle, or a rate outside the positive signed range the register
    /// takes the matching code and nothing changes; otherwise the cell takes
    /// the encoding's bit depth and channel count, the byte length and the
    /// rate, overwriting any prior content.
    pub(crate) fn buffer_data(&mut self, h: u32, format: SampleFormat, byte_len: usize, rate: u32)
        requires
            old(self).inv(),
            old(self).err() == 0,
        ensures
            final(self).inv(),
            final(self).same_surroundings(old(self)),
            final(self).bufs().len() == old(self).bufs().len(),
            final(self).live_bufs() == old(self).live_bufs(),
            old(self).cur() == 0 ==> final(self).err() == ERR_INVALID_OPERATION && final(self).bufs()
                == old(self).bufs(),
            old(self).cur() != 0 && !old(self).buf_ok(h) ==> final(self).err() == ERR_INVALID_NAME
                && final(self).bufs() == old(self).bufs(),
            old(self).cur() != 0 && old(self).buf_ok(h) && !valid_rate(rate) ==> final(self).err()
                == ERR_INVALID_VALUE && final(self).bufs() == old(self).bufs(),
            old(self).cur() != 0 && old(self).buf_ok(h) && valid_rate(rate) ==> {
                &&& final(self).err() == 0
                &&& final(self).bufs() == old(self).bufs().update(
                    h - 1,
                    BufferSlot {
                        alive: true,
                        owner: old(self).bufs()[h - 1].owner,
                        rate,
                        bits: format.spec_bits(),
                        channels: format.spec_channels(),
                        byte_len,
                    },
                )
            },
    {
        if self.current == 0 {
            self.set_error(ERR_INVALID_OPERATION);
            return;
        }
        if h == 0 || (h as usize) > self.buffers.len() || !self.buffers[(h as usize) - 1].alive {
            self.set_error(ERR_INVALID_NAME);
            return;
        }
        if rate == 0 || rate > 0x7FFF_FFFF {
            self.set_error(ERR_INVALID_VALUE);
            return;
        }
        let i = (h as usize) - 1;
        let slot = BufferSlot {
            alive: true,
            owner: self.buffers[i].owner,
            rate,
            bits: format.bits(),
            channels: format.channels(),
            byte_len,
        };
        proof {
            lemma_count_live_update(self.buffers@, i as int, slot);
        }
        self.buffers[i] = slot;
    }

    /// Returns buffer handle `h` to the native pool. A dead or unknown
    /// handle leaves the register holding a name error; a live one goes dead
    /// and the allocated-handle count drops by one.
    pub(crate) fn delete_buffer(&mut self, h: u32)
        requires
            old(self).inv(),
            old(self).err() == 0,
        ensures
            final(self).inv(),
            final(self).same_surroundings(old(self)),
            !old(self).buf_ok(h) ==> final(self).err() == ERR_INVALID_NAME && final(self).bufs()
                == old(self).bufs(),
            old(self).buf_ok(h) ==> {
                &&& final(self).err() == 0
                &&& final(self).bufs() == old(self).bufs().update(
                    h - 1,
                    killed(old(self).bufs()[h - 1]),
                )
                &&& final(self).live_bufs() == old(self).live_bufs() - 1
            },
    {
        if h == 0 || (h as usize) > self.buffers.len() || !self.buffers[(h as usize) - 1].alive {
            self.set_error(ERR_INVALID_NAME);
            return;
        }
        let i = (h as usize) - 1;
        let old_slot = self.buffers[i];
        let slot = BufferSlot { alive: false, ..old_slot };
        proof {
            lemma_count_live_update(self.buffers@, i as int, killed(self.buffers@[i as int]));
        }
        self.buffers[i] = slot;
    }

    /// What an integer query of the sample rate of `h` reads.
    pub(crate) fn read_rate(&self, h: u32) -> (r: u32)
        ensures
            r == self.q_rate(h),
    {
        if self.current != 0 && h >= 1 && (h as usize) <= self.buffers.len() && self.buffers[(
        h as usize) - 1].alive {
            self.buffers[(h as usize) - 1].rate
        } else {
            0
        }
    }

    /// What an integer query of the bit depth of `h` reads.
    pub(crate) fn read_bits(&self, h: u32) -> (r: u16)
        ensures
            r == self.q_bits(h),
    {
        if self.current != 0 && h >= 1 && (h as usize) <= self.buffers.len() && self.buffers[(
        h as usize) - 1].alive {
            self.buffers[(h as usize) - 1].bits
        } else {
            0
        }
    }

    /// What an integer query of the channel count of `h` reads.
    pub(crate) fn read_channels(&self, h: u32) -> (r: u16)
        ensures
            r == self.q_channels(h),
    {
        if self.current != 0 && h >= 1 && (h as usize) <= self.buffers.len() && self.buffers[(
        h as usize) - 1].alive {
            self.buffers[(h as usize) - 1].channels
        } else {
            0
        }
    }

    /// What an integer query of the byte size of `h` reads.
    pub(crate) fn read_size(&self, h: u32) -> (r: usize)
        ensures
            r == self.q_size(h),
    {
        if self.current != 0 && h >= 1 && (h as usize) <= self.buffers.len() && self.buffers[(
        h as usize) - 1].alive {
            self.buffers[(h as usize) - 1].byte_len
        } else {
            0
        }
    }
}

impl Native {
    /// Opens an output device: the default one for `None`, the named one
    /// otherwise. An unrecognized name leaves the register holding a name
    /// error; exhausted handle space reports memory exhaustion; otherwise a
    /// fresh live device cell appears at the end of the arena.
    pub(crate) fn open_device(&mut self, name: Option<&Vec<u8>>) -> (h: u32)
        requires
            old(self).inv(),
            old(self).err() == 0,
        ensures
            final(self).inv(),
            final(self).bufs() == old(self).bufs(),
            final(self).live_bufs() == old(self).live_bufs(),
            final(self).ctxs() == old(self).ctxs(),
            final(self).cur() == old(self).cur(),
            final(self).cap() == old(self).cap(),
            final(self).can_enum() == old(self).can_enum(),
            final(self).block() == old(self).block(),
            !old(self).dev_space() ==> h == 0 && final(self).err() == ERR_OUT_OF_MEMORY && final(self).devs() == old(self).devs(),
            old(self).dev_space() && (name matches Some(nm) && !old(self).names().contains(nm@))
                ==> h == 0 && final(self).err() == ERR_INVALID_NAME && final(self).devs() == old(self).devs(),
            old(self).dev_space() && (name matches Some(nm) ==> old(self).names().contains(nm@))
                ==> {
                &&& h == old(self).devs().len() + 1
                &&& final(self).devs() == old(self).devs().push(DeviceSlot { alive: true })
                &&& final(self).err() == 0
            },
    {
        if self.devices.len() >= MAX_HANDLES {
            self.set_error(ERR_OUT_OF_MEMORY);
            return 0;
        }
        let known = match name {
            None => true,
            Some(nm) => {
                let list = parse_names(&self.name_block);
                contains_name(&list, nm)
            },
        };
        if !known {
            self.set_error(ERR_INVALID_NAME);
            return 0;
        }
        self.devices.push(DeviceSlot { alive: true });
        proof {
            assert(self.inv());
        }
        (self.devices.len()) as u32
    }

    /// Creates a context on an open device, recording the attribute list it
    /// was created with. The device must be live and not yet tied to a live
    /// context; exhausted handle space reports memory exhaustion.
    pub(crate) fn create_context(&mut self, dev: u32, attrs: &Vec<i32>) -> (h: u32)
        requires
            old(self).inv(),
            old(self).err() == 0,
            old(self).dev_ok(dev),
            forall|i: int|
                0 <= i < old(self).ctxs().len() && (#[trigger] old(self).ctxs()[i]).alive ==> old(self).ctxs()[i].device != dev,
        ensures
            final(self).inv(),
            final(self).bufs() == old(self).bufs(),
            final(self).live_bufs() == old(self).live_bufs(),
            final(self).devs() == old(self).devs(),
            final(self).cur() == old(self).cur(),
            final(self).cap() == old(self).cap(),
            final(self).can_enum() == old(self).can_enum(),
            final(self).block() == old(self).block(),
            !old(self).ctx_space() ==> h == 0 && final(self).err() == ERR_OUT_OF_MEMORY && final(self).ctxs() == old(self).ctxs(),
            old(self).ctx_space() ==> {
                &&& h == old(self).ctxs().len() + 1
                &&& final(self).ctxs() == old(self).ctxs().push(
                    ContextSlot { alive: true, device: dev, attrs: Ghost(attrs@) },
                )
                &&& final(self).err() == 0
            },
    {
        if self.contexts.len() >= MAX_HANDLES {
            self.set_error(ERR_OUT_OF_MEMORY);
            return 0;
        }
        self.contexts.push(ContextSlot { alive: true, device: dev, attrs: Ghost(attrs@) });
        proof {
            assert(self.inv());
        }
        (self.contexts.len()) as u32
    }

    /// Writes the current-context register: a live context handle, or 0 to
    /// leave no context current.
    pub(crate) fn make_current(&mut self, ctx: u32)
        requires
            old(self).inv(),
            old(self).err() == 0,
            ctx == 0 || old(self).ctx_ok(ctx),
        ensures
            final(self).inv(),
            final(self).err() == 0,
            final(self).bufs() == old(self).bufs(),
            final(self).live_bufs() == old(self).live_bufs(),
            final(self).ctxs() == old(self).ctxs(),
            final(self).devs() == old(self).devs(),
            final(self).cap() == old(self).cap(),
            final(self).can_enum() == old(self).can_enum(),
            final(self).block() == old(self).block(),
            final(self).cur() == ctx,
    {
        self.current = ctx;
        proof {
            assert(self.inv());
        }
    }

    /// Destroys a context that is not current: its cell goes dead, and every
    /// buffer handle it owned is freed with it.
    pub(crate) fn destroy_context(&mut self, ctx: u32)
        requires
            old(self).inv(),
            old(self).err() == 0,
            old(self).ctx_ok(ctx),
            old(self).cur() != ctx,
        ensures
            final(self).inv(),
            final(self).err() == 0,
            final(self).devs() == old(self).devs(),
            final(self).cur() == old(self).cur(),
            final(self).cap() == old(self).cap(),
            final(self).can_enum() == old(self).can_enum(),
            final(self).block() == old(self).block(),
            final(self).ctxs() == old(self).ctxs().update(ctx - 1, killed_ctx(old(self).ctxs()[ctx - 1])),
            final(self).bufs().len() == old(self).bufs().len(),
            forall|j: int|
                0 <= j < old(self).bufs().len() ==> #[trigger] final(self).bufs()[j] == (if old(self).bufs()[j].owner == ctx {
                    killed(old(self).bufs()[j])
                } else {
                    old(self).bufs()[j]
                }),
            final(self).live_bufs() <= old(self).live_bufs(),
    {
        let i = (ctx as usize) - 1;
        let old_ctx_slot = self.contexts[i];
        self.contexts[i] = ContextSlot { alive: false, ..old_ctx_slot };
        let ghost mid = *self;
        let mut j: usize = 0;
        while j < self.buffers.len()
            invariant
                j <= self.buffers.len(),
                self.buffers@.len() == mid.bufs().len(),
                forall|k: int|
                    0 <= k < j ==> #[trigger] self.buffers@[k] == (if mid.bufs()[k].owner == ctx {
                        killed(mid.bufs()[k])
                    } else {
                        mid.bufs()[k]
                    }),
                forall|k: int| j <= k < self.buffers@.len() ==> #[trigger] self.buffers@[k] == mid.bufs()[k],
                count_live(self.buffers@) <= count_live(mid.bufs()),
                self.ctxs() == mid.ctxs(),
                self.devs() == mid.devs(),
                self.cur() == mid.cur(),
                self.err() == mid.err(),
                self.cap() == mid.cap(),
                self.can_enum() == mid.can_enum(),
                self.block() == mid.block(),
            decreases self.buffers.len() - j,
        {
            if self.buffers[j].alive && self.buffers[j].owner == ctx {
                let old_slot = self.buffers[j];
                proof {
                    lemma_count_live_update(self.buffers@, j as int, killed(self.buffers@[j as int]));
                }
                self.buffers[j] = BufferSlot { alive: false, ..old_slot };
            }
            j = j + 1;
        }
        proof {
            assert(self.ctxs() == mid.ctxs());
            assert forall|k: int|
                0 <= k < self.bufs().len() && (#[trigger] self.bufs()[k]).alive implies self.ctx_ok(
                self.bufs()[k].owner,
            ) by {
                assert(old(self).bufs()[k].alive);
                assert(old(self).ctx_ok(self.bufs()[k].owner));
                assert(self.bufs()[k].owner != ctx);
            }
            assert forall|i2: int, j2: int|
                0 <= i2 < self.ctxs().len() && 0 <= j2 < self.ctxs().len() && i2 != j2 && (
            #[trigger] self.ctxs()[i2]).alive && (#[trigger] self.ctxs()[j2]).alive implies self.ctxs()[
                i2
            ].device != self.ctxs()[j2].device by {
                assert(old(self).ctxs()[i2].alive && old(self).ctxs()[j2].alive);
            }
            assert forall|i2: int|
                0 <= i2 < self.ctxs().len() && (#[trigger] self.ctxs()[i2]).alive implies self.dev_ok(
                self.ctxs()[i2].device,
            ) by {
                assert(old(self).ctxs()[i2].alive);
            }
            assert(self.inv());
            assert(final(self).ctxs() =~= old(self).ctxs().update(
                ctx - 1,
                killed_ctx(old(self).ctxs()[ctx - 1]),
            ));
        }
    }

    /// Closes an open device that no live context sits on.
    pub(crate) fn close_device(&mut self, dev: u32)
        requires
            old(self).inv(),
            old(self).err() == 0,
            old(self).dev_ok(dev),
            forall|i: int|
                0 <= i < old(self).ctxs().len() && (#[trigger] old(self).ctxs()[i]).alive ==> old(self).ctxs()[i].device != dev,
        ensures
            final(self).inv(),
            final(self).err() == 0,
            final(self).bufs() == old(self).bufs(),
            final(self).live_bufs() == old(self).live_bufs(),
            final(self).ctxs() == old(self).ctxs(),
            final(self).cur() == old(self).cur(),
            final(self).cap() == old(self).cap(),
            final(self).can_enum() == old(self).can_enum(),
            final(self).block() == old(self).block(),
            final(self).devs() == old(self).devs().update(dev - 1, DeviceSlot { alive: false }),
    {
        let i = (dev as usize) - 1;
        self.devices[i] = DeviceSlot { alive: false };
        proof {
            assert forall|i2: int|
                0 <= i2 < self.ctxs().len() && (#[trigger] self.ctxs()[i2]).alive implies self.dev_ok(
                self.ctxs()[i2].device,
            ) by {
                assert(old(self).ctxs()[i2].alive);
                assert(old(self).ctxs()[i2].device != dev);
            }
            assert forall|k: int|
                0 <= k < self.bufs().len() && (#[trigger] self.bufs()[k]).alive implies self.ctx_ok(
                self.bufs()[k].owner,
            ) by {
                assert(old(self).bufs()[k].alive);
            }
            assert(self.inv());
        }
    }
}

/// Whether a sample rate is one the native layer accepts: positive and
/// within the signed 32-bit range it stores rates in.
pub open spec fn valid_rate(rate: u32) -> bool {
    1 <= rate <= 0x7FFF_FFFF
}

/// With no context current, or against a handle that is not live, every
/// metadata query degrades to the zero sentinel rather than failing.
pub proof fn lemma_query_sentinel(n: &Native, h: u32)
    requires
        n.cur() == 0 || !n.buf_ok(h),
    ensures
        n.q_rate(h) == 0,
        n.q_bits(h) == 0,
        n.q_channels(h) == 0,
        n.q_size(h) == 0,
        n.q_len(h) == 0,
{
}

/// A live buffer handle is always owned by a live context: no buffer
/// outlives the listener it was created under.
pub proof fn lemma_live_buffer_owner_live(n: &Native, h: u32)
    requires
        n.inv(),
        n.buf_ok(h),
    ensures
        n.ctx_ok(n.bufs()[h - 1].owner),
{
    assert(n.bufs()[h - 1].alive);
}

/// The views of a list of byte strings.
pub open spec fn views_of(l: Seq<Vec<u8>>) -> Seq<Seq<u8>> {
    l.map_values(|v: Vec<u8>| v@)
}

/// Byte-string equality.
pub(crate) fn bytes_eq(a: &Vec<u8>, b: &Vec<u8>) -> (r: bool)
    ensures
        r == (a@ == b@),
{
    if a.len() != b.len() {
        proof {
            assert(a@ != b@);
        }
        return false;
    }
    let mut i: usize = 0;
    while i < a.len()
        invariant
            i <= a.len(),
            a@.len() == b@.len(),
            forall|k: int| 0 <= k < i ==> a@[k] == b@[k],
        decreases a.len() - i,
    {
        if a[i] != b[i] {
            return false;
        }
        i = i + 1;
    }
    proof {
        assert(a@ =~= b@);
    }
    true
}

/// Whether one of the names in `list` is `nm`.
pub(crate) fn contains_name(list: &Vec<Vec<u8>>, nm: &Vec<u8>) -> (r: bool)
    ensures
        r == views_of(list@).contains(nm@),
{
    let mut i: usize = 0;
    while i < list.len()
        invariant
            i <= list.len(),
            forall|k: int| 0 <= k < i ==> views_of(list@)[k] != nm@,
        decreases list.len() - i,
    {
        if bytes_eq(&list[i], nm) {
            proof {
                assert(views_of(list@)[i as int] == nm@);
            }
            return true;
        }
        i = i + 1;
    }
    proof {
        assert forall|k: int| 0 <= k < views_of(list@).len() implies views_of(list@)[k] != nm@ by {}
    }
    false
}

/// Splits a terminator-delimited name block into its names: each name runs
/// to the next terminator byte, and an empty name or the end of the block
/// ends the list.
pub(crate) fn parse_names(data: &Vec<u8>) -> (r: Vec<Vec<u8>>)
    ensures
        views_of(r@) == names_from(data@, 0),
{
    let mut r: Vec<Vec<u8>> = Vec::new();
    let len = data.len();
    let mut i: usize = 0;
    proof {
        assert(views_of(r@) =~= Seq::<Seq<u8>>::empty());
    }
    while i < len && data[i] != 0
        invariant
            i <= len,
            len == data@.len(),
            names_from(data@, 0) == views_of(r@) + names_from(data@, i as int),
        decreases len - i,
    {
        let start = i;
        while i < len && data[i] != 0
            invariant
                start <= i <= len,
                len == data@.len(),
                forall|k: int| start <= k < i ==> data@[k] != 0,
            decreases len - i,
        {
            i = i + 1;
        }
        proof {
            lemma_end_of_name_at(data@, start as int, i as int);
        }
        let mut name: Vec<u8> = Vec::new();
        let mut j: usize = start;
        while j < i
            invariant
                start <= j <= i <= len,
                len == data@.len(),
                name@ == data@.subrange(start as int, j as int),
            decreases i - j,
        {
            proof {
                assert(data@.subrange(start as int, j + 1) =~= data@.subrange(
                    start as int,
                    j as int,
                ).push(data@[j as int]));
            }
            name.push(data[j]);
            j = j + 1;
        }
        let ghost pre = r@;
        let ghost at = i as int;
        r.push(name);
        proof {
            assert(views_of(r@) =~= views_of(pre).push(data@.subrange(start as int, at)));
        }
        if i < len {
            i = i + 1;
        }
        proof {
            assert(names_from(data@, start as int) == seq![
                data@.subrange(start as int, at),
            ] + names_from(data@, i as int));
            assert(views_of(pre) + names_from(data@, start as int) =~= views_of(r@) + names_from(
                data@,
                i as int,
            ));
        }
    }
    proof {
        assert(names_from(data@, i as int) =~= Seq::<Seq<u8>>::empty());
        assert(names_from(data@, 0) =~= views_of(r@));
    }
    r
}

/// If every byte from `start` up to `e` is non-zero and `e` sits on a
/// terminator or at the end of the block, then the name starting at `start`
/// ends exactly at `e`.
proof fn lemma_end_of_name_at(b: Seq<u8>, start: int, e: int)
    requires
        0 <= start <= e <= b.len(),
        forall|k: int| start <= k < e ==> b[k] != 0,
        e == b.len() || b[e] == 0,
    ensures
        end_of_name(b, start) == e,
    decreases e - start,
{
    if start < e {
        lemma_end_of_name_at(b, start + 1, e);
    }
}

} // verus!
