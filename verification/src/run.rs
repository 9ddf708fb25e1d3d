//! The run's ordering discipline: one worker is dispatched per frame
//! ordinal, finished frames are awaited strictly in ordinal order whatever
//! order the workers complete in, and each is handed to the writer before
//! the next is awaited. Also the byte tally of everything the sink
//! accepts.

use vstd::prelude::*;

verus! {

/// The phase a run is in.
#[derive(Clone, Copy, Debug, PartialEq, Eq, Structural)]
pub enum RunState {
    /// Worker tasks are being launched, one per frame ordinal.
    Dispatching,
    /// Finished frames are awaited and written, in ordinal order.
    Collecting,
    /// Every frame is written; the trailer remains to be written.
    Finalizing,
    /// The run finished successfully.
    Done,
    /// A worker failed; nothing past the failure point is written.
    Errored,
}

/// Drives one run: hands out frame ordinals to dispatch, then dictates
/// which worker to await next, so the writer receives frames in strictly
/// increasing ordinal order no matter when the workers finish.
pub struct Scheduler {
    pub frames: u32,
    pub dispatched: u32,
    pub collected: u32,
    pub state: RunState,
    /// The ordinals handed to the writer, in the order they were handed
    /// over.
    pub written: Ghost<Seq<int>>,
}

impl Scheduler {
    pub open spec fn wf(&self) -> bool {
        &&& self.frames >= 1
        &&& self.dispatched <= self.frames
        &&& self.collected <= self.dispatched
        &&& self.written@ == Seq::new(self.collected as nat, |k: int| k)
        &&& match self.state {
            RunState::Dispatching => self.collected == 0,
            RunState::Collecting => self.dispatched == self.frames && self.collected < self.frames,
            RunState::Finalizing => self.dispatched == self.frames && self.collected
                == self.frames,
            RunState::Done => self.dispatched == self.frames && self.collected == self.frames,
            RunState::Errored => true,
        }
    }

    /// Starts a run over `frames` output frames.
    pub fn new(frames: u32) -> (s: Scheduler)
        requires
            frames >= 1,
        ensures
            s.wf(),
            s.frames == frames,
            s.state == RunState::Dispatching,
            s.dispatched == 0,
            s.written@ == Seq::<int>::empty(),
    {
        let s = Scheduler {
            frames,
            dispatched: 0,
            collected: 0,
            state: RunState::Dispatching,
            written: Ghost(Seq::empty()),
        };
        proof {
            assert(s.written@ =~= Seq::new(0, |k: int| k));
        }
        s
    }

    /// The ordinal to launch the next worker for, in launch order; `None`
    /// once every worker is launched, at which point collection begins.
    pub fn dispatch_next(&mut self) -> (r: Option<u32>)
        requires
            old(self).wf(),
            old(self).state == RunState::Dispatching,
        ensures
            final(self).wf(),
            final(self).frames == old(self).frames,
            final(self).written@ == old(self).written@,
            match r {
                Some(i) => i == old(self).dispatched && i < old(self).frames
                    && final(self).dispatched == i + 1
                    && final(self).state == (if i + 1 == old(self).frames {
                        RunState::Collecting
                    } else {
                        RunState::Dispatching
                    }),
                None => old(self).dispatched == old(self).frames && *final(self) == *old(self),
            },
    {
        if self.dispatched < self.frames {
            let i = self.dispatched;
            self.dispatched = i + 1;
            if self.dispatched == self.frames {
                self.state = RunState::Collecting;
            }
            Some(i)
        } else {
            None
        }
    }

    /// The ordinal of the worker to await next: always the lowest not yet
    /// collected, regardless of which workers have already finished.
    pub fn next_collect(&self) -> (r: u32)
        requires
            self.wf(),
            self.state == RunState::Collecting,
        ensures
            r == self.collected,
            r < self.frames,
    {
        self.collected
    }

    /// Records that the frame with ordinal `i` was handed to the writer.
    /// Only the next ordinal in order may be handed over.
    pub fn frame_written(&mut self, i: u32)
        requires
            old(self).wf(),
            old(self).state == RunState::Collecting,
            i == old(self).collected,
        ensures
            final(self).wf(),
            final(self).frames == old(self).frames,
            final(self).collected == i + 1,
            final(self).written@ == old(self).written@.push(i as int),
            final(self).state == (if i + 1 == old(self).frames {
                RunState::Finalizing
            } else {
                RunState::Collecting
            }),
    {
        self.collected = i + 1;
        proof {
            self.written@ = self.written@.push(i as int);
            assert(self.written@ =~= Seq::new(self.collected as nat, |k: int| k));
        }
        if self.collected == self.frames {
            self.state = RunState::Finalizing;
        }
    }

    /// Records that resolving or launching a frame failed while workers
    /// were still being dispatched: the run stops before collecting
    /// anything.
    pub fn dispatch_failed(&mut self)
        requires
            old(self).wf(),
            old(self).state == RunState::Dispatching,
        ensures
            final(self).wf(),
            final(self).state == RunState::Errored,
            final(self).written@ == old(self).written@,
            final(self).collected == old(self).collected,
    {
        self.state = RunState::Errored;
    }

    /// Records that the awaited worker failed: the run stops collecting
    /// and nothing past the failure point is ever written.
    pub fn worker_failed(&mut self)
        requires
            old(self).wf(),
            old(self).state == RunState::Collecting,
        ensures
            final(self).wf(),
            final(self).state == RunState::Errored,
            final(self).written@ == old(self).written@,
            final(self).collected == old(self).collected,
    {
        self.state = RunState::Errored;
    }

    /// Records that the trailer was written and the output finalized.
    pub fn finalized(&mut self)
        requires
            old(self).wf(),
            old(self).state == RunState::Finalizing,
        ensures
            final(self).wf(),
            final(self).state == RunState::Done,
            final(self).written@ == old(self).written@,
    {
        self.state = RunState::Done;
    }
}

/// Frames reach the writer in strictly increasing ordinal order: the
/// write log of a well-formed scheduler is exactly 0, 1, 2, ... — however
/// the workers completed, since collection awaits workers by ordinal and
/// completion order never enters.
pub proof fn lemma_writes_in_order(s: Scheduler)
    requires
        s.wf(),
    ensures
        s.written@.len() == s.collected,
        forall|k: int| 0 <= k < s.written@.len() ==> s.written@[k] == k,
{
}

/// A run that reached `Done` handed the writer every frame, in ordinal
/// order.
pub proof fn lemma_done_wrote_all(s: Scheduler)
    requires
        s.wf(),
        s.state == RunState::Done,
    ensures
        s.written@.len() == s.frames,
        forall|k: int| 0 <= k < s.written@.len() ==> s.written@[k] == k,
{
}

/// Counts the bytes an output sink has accepted. The sink itself stays
/// outside; whoever writes to it reports each accepted count here.
pub struct CountingWriter<W> {
    pub inner: W,
    pub count: usize,
}

impl<W> CountingWriter<W> {
    /// Wraps a sink with a zeroed tally; the sink itself is taken over
    /// untouched.
    pub fn new(w: W) -> (r: CountingWriter<W>)
        ensures
            r.count == 0,
            r.inner == w,
    {
        CountingWriter { inner: w, count: 0 }
    }

    /// The bytes accepted so far.
    pub fn count(&self) -> (r: usize)
        ensures
            r == self.count,
    {
        self.count
    }

    /// Records `n` more bytes as accepted by the sink.
    pub fn add_written(&mut self, n: usize)
        requires
            old(self).count + n <= usize::MAX,
        ensures
            final(self).count == old(self).count + n,
            final(self).inner == old(self).inner,
    {
        self.count = self.count + n;
    }
}

} // verus!
