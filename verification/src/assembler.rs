//! Reassembly of one response from transport chunks.
//!
//! The transport delivers a response as a sequence of small chunks with no
//! message delimiter; consecutive chunks are sometimes exact duplicates, and
//! a response sometimes carries fewer or more bytes than its length byte
//! announces. The assembler therefore discards a chunk that repeats the one
//! just before it, appends every other chunk to its buffer, and parses the
//! buffer after each append: a `Complete` or `Invalid` outcome ends the
//! response at once, while `Incomplete` keeps it waiting. When the caller's
//! inactivity timeout elapses instead, one final parse of the buffer decides
//! the outcome.

use vstd::prelude::*;

use crate::frame::{parse, spec_parse, ParseOutcome};

verus! {

/// What the assembler knows after taking in one event.
#[derive(Debug)]
pub enum AssemblyStep {
    /// The response is not decided yet: keep waiting for chunks.
    Pending,
    /// The response is decided, for better or worse.
    Finished(ParseOutcome),
}

/// Compare two byte strings for equality.
fn bytes_eq(a: &[u8], b: &[u8]) -> (r: bool)
    ensures
        r == (a@ == b@),
{
    if a.len() != b.len() {
        return false;
    }
    let mut i: usize = 0;
    while i < a.len()
        invariant
            i <= a@.len(),
            a@.len() == b@.len(),
            forall|j: int| 0 <= j < i ==> a@[j] == b@[j],
        decreases a@.len() - i,
    {
        if *vstd::slice::slice_index_get(a, i) != *vstd::slice::slice_index_get(b, i) {
            return false;
        }
        i = i + 1;
    }
    proof {
        assert(a@ =~= b@);
    }
    true
}

/// The buffer for one in-flight response, together with the chunk that
/// arrived last, for duplicate filtering. One assembler serves exactly one
/// request: it is created when the request is written and dropped when the
/// response is decided.
pub struct Assembler {
    buffer: Vec<u8>,
    prev_chunk: Vec<u8>,
}

impl Assembler {
    /// The bytes accumulated so far.
    pub closed spec fn buffered(&self) -> Seq<u8> {
        self.buffer@
    }

    /// The chunk that arrived last; empty before the first chunk.
    pub closed spec fn prev_chunk(&self) -> Seq<u8> {
        self.prev_chunk@
    }

    /// A fresh assembler: nothing buffered, no chunk seen yet.
    pub fn new() -> (r: Self)
        ensures
            r.buffered() == Seq::<u8>::empty(),
            r.prev_chunk() == Seq::<u8>::empty(),
    {
        Assembler { buffer: Vec::new(), prev_chunk: Vec::new() }
    }

    /// Take in one chunk. A chunk identical to the one just before it is
    /// discarded and leaves the assembler unchanged; any other chunk is
    /// appended to the buffer, and the buffer parsed: `Complete` and
    /// `Invalid` decide the response at once, `Incomplete` keeps it waiting.
    pub fn on_chunk(&mut self, chunk: &[u8]) -> (r: AssemblyStep)
        ensures
            chunk@ == old(self).prev_chunk() ==> *final(self) == *old(self),
            chunk@ != old(self).prev_chunk() ==> final(self).buffered() == old(self).buffered()
                + chunk@ && final(self).prev_chunk() == chunk@,
            match r {
                AssemblyStep::Pending => chunk@ == old(self).prev_chunk() || spec_parse(
                    final(self).buffered(),
                ) is Incomplete,
                AssemblyStep::Finished(outcome) => chunk@ != old(self).prev_chunk() && outcome@
                    == spec_parse(final(self).buffered()) && !(outcome@ is Incomplete),
            },
    {
        if bytes_eq(chunk, self.prev_chunk.as_slice()) {
            return AssemblyStep::Pending;
        }
        self.prev_chunk = vstd::slice::slice_to_vec(chunk);
        let mut i: usize = 0;
        while i < chunk.len()
            invariant
                i <= chunk@.len(),
                self.buffer@ == old(self).buffer@ + chunk@.take(i as int),
                self.prev_chunk@ == chunk@,
            decreases chunk@.len() - i,
        {
            self.buffer.push(*vstd::slice::slice_index_get(chunk, i));
            i = i + 1;
        }
        proof {
            assert(self.buffer@ =~= old(self).buffer@ + chunk@);
        }
        match parse(self.buffer.as_slice()) {
            ParseOutcome::Incomplete => AssemblyStep::Pending,
            outcome => AssemblyStep::Finished(outcome),
        }
    }

    /// Decide the response after the inactivity timeout: one final parse of
    /// whatever has been buffered. An `Incomplete` outcome here means the
    /// message never finished arriving.
    pub fn on_timeout(&self) -> (r: ParseOutcome)
        ensures
            r@ == spec_parse(self.buffered()),
    {
        parse(self.buffer.as_slice())
    }
}

} // verus!
