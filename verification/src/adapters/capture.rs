//! Bounded capture of a pipe that is drained completely.

use vstd::prelude::*;

verus! {

/// A retained prefix of everything read from a pipe.
#[derive(Debug)]
pub struct CapturedBytes {
    pub bytes: Vec<u8>,
    pub truncated: bool,
}

/// What a capture with budget `keep` holds after reading `data`: the first
/// `keep` bytes, and whether more than that arrived.
pub open spec fn captured_prefix(data: Seq<u8>, keep: usize) -> Seq<u8> {
    if data.len() <= keep {
        data
    } else {
        data.take(keep as int)
    }
}

impl CapturedBytes {
    pub fn new() -> (c: Self)
        ensures
            c.bytes@.len() == 0,
            !c.truncated,
    {
        CapturedBytes { bytes: Vec::new(), truncated: false }
    }

    /// Take in the next chunk read from the pipe: keep what fits in the
    /// budget, note whether anything was dropped.
    pub fn absorb(&mut self, chunk: &[u8], keep_limit: usize)
        requires
            old(self).bytes@.len() <= keep_limit,
        ensures
            final(self).bytes@ == captured_prefix(old(self).bytes@ + chunk@, keep_limit),
            final(self).truncated == (old(self).truncated || old(self).bytes@.len() + chunk@.len()
                > keep_limit),
            final(self).bytes@.len() <= keep_limit,
    {
        let ghost start = self.bytes@;
        let mut i: usize = 0;
        while i < chunk.len() && self.bytes.len() < keep_limit
            invariant
                i <= chunk@.len(),
                start.len() <= keep_limit,
                self.bytes@ == start + chunk@.take(i as int),
                self.bytes@.len() <= keep_limit,
                self.truncated == old(self).truncated,
            decreases chunk@.len() - i,
        {
            self.bytes.push(chunk[i]);
            i = i + 1;
            assert(self.bytes@ =~= start + chunk@.take(i as int));
        }
        if i < chunk.len() {
            self.truncated = true;
        }
        assert(self.bytes@ =~= captured_prefix(start + chunk@, keep_limit));
    }
}

/// Draining a pipe chunk by chunk keeps exactly the first `keep` bytes of
/// everything read, and marks the capture truncated exactly when more
/// arrived.
pub proof fn lemma_capture_is_prefix(data: Seq<u8>, chunk: Seq<u8>, keep: usize)
    ensures
        captured_prefix(captured_prefix(data, keep) + chunk, keep) == captured_prefix(
            data + chunk,
            keep,
        ),
        (data.len() > keep || captured_prefix(data, keep).len() + chunk.len() > keep) <==> (data
            + chunk).len() > keep,
{
    assert(captured_prefix(captured_prefix(data, keep) + chunk, keep) =~= captured_prefix(
        data + chunk,
        keep,
    ));
}

} // verus!
