//! The ordered configuration passed when a listener is opened: a sequence of
//! (key, integer value) pairs, handed to the native layer verbatim —
//! unrecognized keys included — as an interleaved, zero-terminated list.

use vstd::prelude::*;

verus! {

/// Key asking for an output frequency, in Hz.
pub const ATTR_FREQUENCY: i32 = 0x1007;
/// Key asking for a refresh interval, in Hz.
pub const ATTR_REFRESH: i32 = 0x1008;
/// Key asking for synchronous context processing.
pub const ATTR_SYNC: i32 = 0x1009;
/// Key hinting how many mono sources will be used.
pub const ATTR_MONO_SOURCES: i32 = 0x1010;
/// Key hinting how many stereo sources will be used.
pub const ATTR_STEREO_SOURCES: i32 = 0x1011;

/// The flattened pairs, without the terminator.
pub open spec fn interleaved(pairs: Seq<(i32, i32)>) -> Seq<i32>
    decreases pairs.len(),
{
    if pairs.len() == 0 {
        Seq::empty()
    } else {
        interleaved(pairs.drop_last()) + seq![pairs.last().0, pairs.last().1]
    }
}

/// The native encoding of an attribute list: keys and values interleaved in
/// order, closed by a zero terminator.
pub open spec fn encoded(pairs: Seq<(i32, i32)>) -> Seq<i32> {
    interleaved(pairs).push(0)
}

/// An ordered attribute list, consumed at listener-open time and immutable
/// thereafter. Keys are non-zero: zero is the encoding's terminator.
pub struct Attributes {
    pairs: Vec<(i32, i32)>,
}

impl Attributes {
    /// The pairs, in the order they will reach the native layer.
    pub closed spec fn spec_pairs(&self) -> Seq<(i32, i32)> {
        self.pairs@
    }

    /// Every key is non-zero.
    pub open spec fn wf(&self) -> bool {
        forall|i: int| 0 <= i < self.spec_pairs().len() ==> (#[trigger] self.spec_pairs()[i]).0 != 0
    }

    /// An empty attribute list.
    pub fn new() -> (a: Attributes)
        ensures
            a.wf(),
            a.spec_pairs() == Seq::<(i32, i32)>::empty(),
    {
        Attributes { pairs: Vec::new() }
    }

    /// Appends one (key, value) pair; the key must not be the terminator.
    pub fn push(&mut self, key: i32, value: i32)
        requires
            old(self).wf(),
            key != 0,
        ensures
            final(self).wf(),
            final(self).spec_pairs() == old(self).spec_pairs().push((key, value)),
    {
        self.pairs.push((key, value));
    }

    /// How many pairs the list holds.
    pub fn len(&self) -> (l: usize)
        ensures
            l == self.spec_pairs().len(),
    {
        self.pairs.len()
    }

    /// The native encoding: keys and values interleaved in the order they
    /// were pushed, unrecognized keys passed through verbatim, closed by the
    /// zero terminator.
    pub fn to_list(&self) -> (r: Vec<i32>)
        requires
            self.spec_pairs().len() * 2 + 1 <= usize::MAX,
        ensures
            r@ == encoded(self.spec_pairs()),
            r@.len() == 2 * self.spec_pairs().len() + 1,
    {
        let mut r: Vec<i32> = Vec::new();
        let mut i: usize = 0;
        proof {
            assert(r@ =~= interleaved(self.pairs@.take(0)));
        }
        while i < self.pairs.len()
            invariant
                i <= self.pairs.len(),
                r@ == interleaved(self.pairs@.take(i as int)),
                r@.len() == 2 * i,
            decreases self.pairs.len() - i,
        {
            let (k, v) = self.pairs[i];
            r.push(k);
            r.push(v);
            proof {
                let t = self.pairs@.take(i + 1);
                assert(t.drop_last() =~= self.pairs@.take(i as int));
                assert(t.last() == self.pairs@[i as int]);
                assert(r@ =~= interleaved(self.pairs@.take(i as int)) + seq![
                    self.pairs@[i as int].0,
                    self.pairs@[i as int].1,
                ]);
            }
            i = i + 1;
        }
        r.push(0);
        proof {
            assert(self.pairs@.take(self.pairs@.len() as int) =~= self.pairs@);
            assert(r@ =~= encoded(self.spec_pairs()));
        }
        r
    }

    /// Proves the encoding exact: position by position, the list carries
    /// each key and value in order and nothing else, closed by the
    /// terminator.
    pub proof fn lemma_encoding_verbatim(pairs: Seq<(i32, i32)>)
        ensures
            encoded(pairs).len() == 2 * pairs.len() + 1,
            forall|i: int|
                0 <= i < pairs.len() ==> encoded(pairs)[2 * i] == (#[trigger] pairs[i]).0
                    && encoded(pairs)[2 * i + 1] == pairs[i].1,
            encoded(pairs)[2 * (pairs.len() as int)] == 0,
        decreases pairs.len(),
    {
        lemma_interleaved_index(pairs);
    }
}

proof fn lemma_interleaved_index(pairs: Seq<(i32, i32)>)
    ensures
        interleaved(pairs).len() == 2 * pairs.len(),
        forall|i: int|
            0 <= i < pairs.len() ==> interleaved(pairs)[2 * i] == (#[trigger] pairs[i]).0
                && interleaved(pairs)[2 * i + 1] == pairs[i].1,
    decreases pairs.len(),
{
    if pairs.len() > 0 {
        lemma_interleaved_index(pairs.drop_last());
        assert forall|i: int|
            0 <= i < pairs.len() implies interleaved(pairs)[2 * i] == (#[trigger] pairs[i]).0
            && interleaved(pairs)[2 * i + 1] == pairs[i].1 by {
            if i < pairs.len() - 1 {
                assert(pairs.drop_last()[i] == pairs[i]);
            }
        }
    }
}

} // verus!
