//! Progress reporting: the event type, the caller's callback, and a sink that
//! keeps a ghost trace of everything it delivered.
use vstd::prelude::*;

verus! {

/// One progress notification: how many frames have been submitted
/// successfully so far, out of how many planned.
#[derive(Clone, Copy, Debug, PartialEq, Eq, Structural)]
pub struct GifskiProgress {
    /// Count of successfully submitted frames, starting at 1 for the first.
    pub frames_processed: u32,
    /// How many frames the plan holds.
    pub total_frames: u32,
}

/// A caller-supplied observer, invoked synchronously from the collector
/// stage once per successfully submitted frame, in increasing order of
/// `frames_processed`. Implementations must not block, or they stall the
/// whole pipeline.
pub trait GifskiProgressCallback {
    /// Receives one progress event.
    fn on_progress(&self, progress: GifskiProgress);
}

/// The events a run delivers after `n` successful submissions out of `total`
/// planned frames: `frames_processed` climbs 1, 2, ..., `n`.
pub open spec fn progress_trace(n: nat, total: u32) -> Seq<GifskiProgress> {
    Seq::new(n, |k: int| (GifskiProgress { frames_processed: (k + 1) as u32, total_frames: total }))
}

/// Progress events are strictly increasing by exactly one: the `k`-th event
/// reports `k + 1` frames processed, each event is one above its predecessor,
/// and the last one reports the total count of successful submissions.
pub proof fn lemma_progress_trace_monotonic(n: nat, total: u32)
    requires
        n <= u32::MAX,
    ensures
        progress_trace(n, total).len() == n,
        forall|k: int|
            0 <= k < n ==> (#[trigger] progress_trace(n, total)[k]).frames_processed == k + 1,
        forall|k: int|
            0 <= k < n ==> (#[trigger] progress_trace(n, total)[k]).total_frames == total,
        forall|k: int|
            1 <= k < n ==> (#[trigger] progress_trace(n, total)[k]).frames_processed
                == progress_trace(n, total)[k - 1].frames_processed + 1,
        n > 0 ==> progress_trace(n, total).last().frames_processed == n,
{
}

/// Wraps the caller's optional callback and records, as a ghost trace, every
/// event handed to it, in order.
pub struct ProgressSink<C: GifskiProgressCallback> {
    /// The caller's observer, if any.
    pub callback: Option<C>,
    /// Ghost trace of the events delivered so far, oldest first.
    pub emitted: Ghost<Seq<GifskiProgress>>,
}

impl<C: GifskiProgressCallback> ProgressSink<C> {
    /// A fresh sink around the caller's optional callback; nothing delivered
    /// yet.
    pub fn new(callback: Option<C>) -> (r: Self)
        ensures
            r.emitted@ == Seq::<GifskiProgress>::empty(),
    {
        ProgressSink { callback, emitted: Ghost(Seq::empty()) }
    }

    /// Delivers one event to the callback, if there is one, and appends it to
    /// the trace.
    pub fn emit(&mut self, event: GifskiProgress)
        ensures
            final(self).emitted@ == old(self).emitted@.push(event),
    {
        if let Some(cb) = &self.callback {
            cb.on_progress(event);
        }
        proof {
            self.emitted@ = self.emitted@.push(event);
        }
    }
}

} // verus!
