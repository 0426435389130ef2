//! The splitting policy: successful bytes accumulate into a run, and every
//! framing error closes the run as one output artifact, labelled with the
//! sample index at which the run started. Runs shorter than a configured
//! minimum are silently discarded — too short to be real payload. Errors
//! that are not framing errors (`IO`, `Other`) never close a run, and
//! `Err(None)` steps change nothing.
//!
//! The splitter carries ghost history: `history` is every byte ever
//! accepted, `closed` the bytes of every closed run (kept or discarded),
//! and `emitted` the bytes of the artifacts actually handed out. The
//! invariant `closed + buffer == history` holds at all times, and with a
//! zero minimum the emitted artifacts are exactly a prefix of the byte
//! stream.

use vstd::prelude::*;

use crate::signal::DecoderError;

verus! {

/// One contiguous error-free run of decoded bytes, labelled with the
/// sample index at which the run started.
#[derive(Debug, Clone)]
pub struct Artifact {
    pub start_index: usize,
    pub data: Vec<u8>,
}

/// Whether a decoder step result closes the current run.
pub open spec fn is_framing_error(r: Result<u8, Option<DecoderError>>) -> bool {
    match r {
        Err(Some(DecoderError::Sync)) => true,
        Err(Some(DecoderError::Parity)) => true,
        Err(Some(DecoderError::Signal)) => true,
        _ => false,
    }
}

/// How `close_run` relates the splitter before the call, the index handed
/// to it, the splitter after the call, and the returned artifact.
pub open spec fn close_rel(pre: Splitter, index: usize, post: Splitter, r: Option<Artifact>) -> bool {
    &&& post.min_len == pre.min_len
    &&& post.run_start == index
    &&& post.buffer@ == Seq::<u8>::empty()
    &&& post.history@ == pre.history@
    &&& post.closed@ == pre.closed@ + pre.buffer@
    &&& (r is Some <==> pre.buffer@.len() >= pre.min_len)
    &&& (r matches Some(a) ==> a.start_index == pre.run_start && a.data@ == pre.buffer@)
    &&& post.emitted@ == pre.emitted@ + (if pre.buffer@.len() >= pre.min_len {
        pre.buffer@
    } else {
        Seq::<u8>::empty()
    })
}

/// How `push` relates the splitter before the call, the indexed event
/// handed to it, the splitter after the call, and the returned artifact.
pub open spec fn push_rel(
    pre: Splitter,
    index: usize,
    event: Result<u8, Option<DecoderError>>,
    post: Splitter,
    r: Option<Artifact>,
) -> bool {
    &&& (event matches Ok(b) ==> {
        &&& r is None
        &&& post.min_len == pre.min_len
        &&& post.buffer@ == pre.buffer@ + seq![b]
        &&& post.history@ == pre.history@ + seq![b]
        &&& post.closed@ == pre.closed@
        &&& post.emitted@ == pre.emitted@
        &&& post.run_start == pre.run_start
    })
    &&& (is_framing_error(event) ==> close_rel(pre, index, post, r))
    &&& (!(event is Ok) && !is_framing_error(event) ==> post == pre && r is None)
}

/// Collects decoded bytes into runs and closes a run on each framing
/// error, and once more at end of stream.
pub struct Splitter {
    pub min_len: usize,
    pub run_start: usize,
    pub buffer: Vec<u8>,
    pub history: Ghost<Seq<u8>>,
    pub closed: Ghost<Seq<u8>>,
    pub emitted: Ghost<Seq<u8>>,
}

impl Splitter {
    /// The bytes of all closed runs followed by the open run are exactly
    /// the accepted byte stream; with a zero minimum nothing is discarded.
    pub open spec fn wf(self) -> bool {
        &&& self.closed@ + self.buffer@ == self.history@
        &&& (self.min_len == 0 ==> self.emitted@ == self.closed@)
    }

    /// A fresh splitter: empty run starting at index zero. Runs shorter
    /// than `min_len` bytes will be discarded when they close.
    pub fn new(min_len: usize) -> (r: Splitter)
        ensures
            r.wf(),
            r.min_len == min_len,
            r.run_start == 0,
            r.buffer@ =~= Seq::<u8>::empty(),
            r.history@ =~= Seq::<u8>::empty(),
            r.emitted@ =~= Seq::<u8>::empty(),
    {
        Splitter {
            min_len,
            run_start: 0,
            buffer: Vec::new(),
            history: Ghost(Seq::empty()),
            closed: Ghost(Seq::empty()),
            emitted: Ghost(Seq::empty()),
        }
    }

    /// Closes the current run: hands it out as an artifact iff it reached
    /// the minimum length, and starts a fresh run at `index`.
    pub fn close_run(&mut self, index: usize) -> (r: Option<Artifact>)
        requires
            old(self).wf(),
        ensures
            final(self).wf(),
            close_rel(*old(self), index, *final(self), r),
    {
        proof {
            self.closed@ = self.closed@ + self.buffer@;
            if self.buffer@.len() >= self.min_len {
                self.emitted@ = self.emitted@ + self.buffer@;
            }
        }
        let mut data: Vec<u8> = Vec::new();
        core::mem::swap(&mut data, &mut self.buffer);
        proof {
            assert(self.buffer@ =~= Seq::<u8>::empty());
            assert(self.closed@ + self.buffer@ =~= self.history@);
            if self.min_len == 0 {
                assert(self.emitted@ =~= self.closed@);
            }
        }
        let start_index = self.run_start;
        self.run_start = index;
        if data.len() >= self.min_len {
            Some(Artifact { start_index, data })
        } else {
            None
        }
    }

    /// One step of the policy: a byte extends the run, a framing error
    /// closes it, anything else changes nothing.
    pub fn push(&mut self, index: usize, event: Result<u8, Option<DecoderError>>) -> (r: Option<
        Artifact,
    >)
        requires
            old(self).wf(),
        ensures
            final(self).wf(),
            push_rel(*old(self), index, event, *final(self), r),
    {
        match event {
            Ok(b) => {
                proof {
                    self.history@ = self.history@ + seq![b];
                }
                self.buffer.push(b);
                proof {
                    assert(self.buffer@ =~= old(self).buffer@ + seq![b]);
                    assert(self.closed@ + self.buffer@ =~= self.history@);
                }
                None
            },
            Err(Some(DecoderError::Sync)) => self.close_run(index),
            Err(Some(DecoderError::Parity)) => self.close_run(index),
            Err(Some(DecoderError::Signal)) => self.close_run(index),
            _ => None,
        }
    }
}

/// With a zero minimum length the bytes of all emitted artifacts, in
/// order, are a prefix of the accepted byte stream.
pub proof fn lemma_emitted_is_prefix_of_stream(s: Splitter)
    requires
        s.wf(),
        s.min_len == 0,
    ensures
        s.emitted@ == s.history@.take(s.emitted@.len() as int),
{
    assert(s.emitted@ =~= s.history@.take(s.emitted@.len() as int));
}

} // verus!
