//! A byte stream with a rewound prefix: bytes that were read ahead to
//! classify the stream and are served again before anything else.

use vstd::prelude::*;

verus! {

/// A stream together with the bytes that were read from it ahead of time.
/// Reads are served from those bytes first; once they are used up, reads go
/// to the stream itself.
#[derive(Debug)]
pub struct Rewind<T> {
    pre: Option<Vec<u8>>,
    inner: T,
}

impl<T> Rewind<T> {
    /// The bytes that are still to be served before the stream is read.
    pub closed spec fn pending(&self) -> Seq<u8> {
        match self.pre {
            Some(bytes) => bytes@,
            None => Seq::empty(),
        }
    }

    /// The underlying stream.
    pub closed spec fn stream(&self) -> T {
        self.inner
    }

    /// Wraps a stream from which nothing was read ahead.
    pub fn new(inner: T) -> (rewind: Self)
        ensures
            rewind.pending() == Seq::<u8>::empty(),
            rewind.stream() == inner,
    {
        Rewind { pre: None, inner }
    }

    /// Wraps a stream together with the bytes read from it ahead of time.
    pub fn new_buffered(inner: T, prefix: Vec<u8>) -> (rewind: Self)
        ensures
            rewind.pending() == prefix@,
            rewind.stream() == inner,
    {
        Rewind { pre: Some(prefix), inner }
    }

    /// Puts bytes back in front of the stream: they are served before
    /// anything that is still pending.
    pub fn rewind(&mut self, bytes: Vec<u8>)
        ensures
            final(self).pending() == bytes@ + old(self).pending(),
            final(self).stream() == old(self).stream(),
    {
        let mut front = bytes;
        match self.pre.take() {
            Some(pending) => {
                let mut pending = pending;
                front.append(&mut pending);
            },
            None => {
                assert(front@ =~= bytes@ + old(self).pending());
            },
        }
        self.pre = Some(front);
    }

    /// Takes the wrapper apart: the stream, and the bytes that were not
    /// served yet.
    pub fn into_inner(self) -> (parts: (T, Vec<u8>))
        ensures
            parts.0 == self.stream(),
            parts.1@ == self.pending(),
    {
        match self.pre {
            Some(bytes) => (self.inner, bytes),
            None => (self.inner, Vec::new()),
        }
    }

    /// The underlying stream, for reading once nothing is pending and for
    /// writing at any time.
    pub fn inner_mut(&mut self) -> (stream: &mut T)
        ensures
            *stream == old(self).stream(),
            final(self).stream() == *final(stream),
            final(self).pending() == old(self).pending(),
    {
        &mut self.inner
    }

    /// Serves a read of at most `capacity` bytes from the pending bytes.
    ///
    /// While bytes are pending, the read is answered from them alone: it
    /// yields the first `capacity` of them, or all if there are fewer, and
    /// they are no longer pending. When nothing is pending the result is
    /// `None`: the read goes to the stream.
    pub fn read(&mut self, capacity: usize) -> (served: Option<Vec<u8>>)
        ensures
            final(self).stream() == old(self).stream(),
            old(self).pending().len() == 0 ==> served is None && final(self).pending().len() == 0,
            old(self).pending().len() > 0 ==> (served matches Some(bytes) && {
                let count = if capacity <= old(self).pending().len() {
                    capacity as int
                } else {
                    old(self).pending().len() as int
                };
                &&& bytes@ == old(self).pending().take(count)
                &&& final(self).pending() == old(self).pending().skip(count)
            }),
    {
        match self.pre.take() {
            Some(prefix) => {
                if prefix.len() == 0 {
                    return None;
                }
                let count = if capacity <= prefix.len() {
                    capacity
                } else {
                    prefix.len()
                };
                let mut head = prefix;
                let rest = head.split_off(count);
                if rest.len() > 0 {
                    self.pre = Some(rest);
                }
                assert(final(self).pending() =~= old(self).pending().skip(count as int));
                assert(head@ =~= old(self).pending().take(count as int));
                Some(head)
            },
            None => None,
        }
    }
}

/// Rewinding loses nothing and reorders nothing: the bytes a read serves,
/// followed by the bytes still pending afterwards, are the bytes that were
/// pending before.
pub proof fn lemma_read_keeps_order(pending: Seq<u8>, capacity: nat)
    ensures
        ({
            let count = if capacity <= pending.len() {
                capacity as int
            } else {
                pending.len() as int
            };
            pending.take(count) + pending.skip(count) == pending
        }),
{
    let count = if capacity <= pending.len() {
        capacity as int
    } else {
        pending.len() as int
    };
    assert(pending.take(count) + pending.skip(count) =~= pending);
}

/// The bytes served by a series of reads with the given capacities, one
/// after another, from a stream with `pending` bytes in front.
pub open spec fn served_by(pending: Seq<u8>, capacities: Seq<nat>) -> Seq<u8>
    decreases capacities.len(),
{
    if capacities.len() == 0 {
        Seq::empty()
    } else {
        let count = if capacities[0] <= pending.len() {
            capacities[0] as int
        } else {
            pending.len() as int
        };
        pending.take(count) + served_by(pending.skip(count), capacities.skip(1))
    }
}

/// However the reads are sized, what they serve from the pending bytes is a
/// leading part of those bytes: every byte at most once, none changed, none
/// out of order.
pub proof fn lemma_reads_serve_a_prefix(pending: Seq<u8>, capacities: Seq<nat>)
    ensures
        served_by(pending, capacities).len() <= pending.len(),
        served_by(pending, capacities) == pending.take(
            served_by(pending, capacities).len() as int,
        ),
    decreases capacities.len(),
{
    if capacities.len() > 0 {
        let count = if capacities[0] <= pending.len() {
            capacities[0] as int
        } else {
            pending.len() as int
        };
        lemma_reads_serve_a_prefix(pending.skip(count), capacities.skip(1));
        let rest = served_by(pending.skip(count), capacities.skip(1));
        assert(rest == pending.skip(count).take(rest.len() as int));
        assert(pending.take(count) + rest =~= pending.take(count + rest.len()));
    } else {
        assert(pending.take(0) =~= Seq::<u8>::empty());
    }
}

} // verus!
