//! The visualizer pipeline's worker logic. The worker thread owns the
//! analyzer process's standard output, reads exactly `2 * bar_count` bytes
//! per cycle, decodes them as little-endian 16-bit magnitudes, smooths the
//! frame, and sends it over the delivery channel. A short read or stream
//! error is fatal and carries the analyzer's diagnostic text; a failed send
//! means the receiving end is gone and the worker stops silently.

use vstd::prelude::*;

use crate::codec;
use crate::smoothing;

verus! {

/// What one read cycle on the analyzer's standard output produced.
pub enum ReadOutcome {
    /// A full frame of raw bytes was read.
    Frame(Vec<u8>),
    /// A short read or stream error, with the analyzer's buffered
    /// standard-error text as diagnostic.
    Failed(String),
}

/// What the worker does next after one read cycle.
pub enum WorkerAction {
    /// Deliver this smoothed frame to the consumer.
    Deliver(Vec<u16>),
    /// Abort fatally, surfacing the analyzer's diagnostic text.
    Abort(String),
}

/// The visualizer pipeline's fixed configuration: how many frequency bars
/// each frame holds. This never changes after start, and every delivered
/// frame has exactly this many elements.
pub struct Visualizer {
    bars: usize,
}

impl Visualizer {
    /// The number of bars per frame, a positive integer.
    pub closed spec fn bar_count(self) -> int {
        self.bars as int
    }

    /// Every visualizer is built with at least one bar.
    pub closed spec fn wf(self) -> bool {
        self.bars >= 1 && 2 * self.bars <= usize::MAX
    }

    /// Sets up a pipeline for `bars` frequency bars.
    pub fn new(bars: usize) -> (v: Self)
        requires
            1 <= bars,
            2 * bars <= usize::MAX,
        ensures
            v.bar_count() == bars,
            v.wf(),
    {
        Visualizer { bars }
    }

    /// How many bars each frame holds.
    pub fn bars(&self) -> (n: usize)
        ensures
            n == self.bar_count(),
    {
        self.bars
    }

    /// How many bytes one raw frame occupies on the wire: two per bar.
    pub fn frame_len(&self) -> (n: usize)
        requires
            self.wf(),
        ensures
            n == 2 * self.bar_count(),
    {
        2 * self.bars
    }

    /// Turns one full raw byte frame into the smoothed frame the consumer
    /// receives: decode every little-endian byte pair, then apply the
    /// clipped moving average. The result always has exactly `bar_count`
    /// elements.
    pub fn process_frame(&self, buf: &Vec<u8>) -> (frame: Vec<u16>)
        requires
            self.wf(),
            buf@.len() == 2 * self.bar_count(),
        ensures
            frame@ == smoothing::smoothed(codec::decoded(buf@)),
            frame@.len() == self.bar_count(),
    {
        let raw = codec::decode_frame(buf);
        smoothing::smooth_frame(&raw)
    }

    /// Decides the worker's next step from one read cycle: a full frame is
    /// decoded, smoothed and delivered; a failed read aborts fatally with
    /// the diagnostic text; a buffer of the wrong size is a short read and
    /// aborts too.
    pub fn worker_step(&self, outcome: ReadOutcome) -> (action: WorkerAction)
        requires
            self.wf(),
        ensures
            outcome matches ReadOutcome::Frame(buf) ==> {
                &&& buf@.len() == 2 * self.bar_count() ==> (action
                    matches WorkerAction::Deliver(frame) && frame@ == smoothing::smoothed(
                    codec::decoded(buf@),
                ) && frame@.len() == self.bar_count())
                &&& buf@.len() != 2 * self.bar_count() ==> action is Abort
            },
            outcome matches ReadOutcome::Failed(diag) ==> (action
                matches WorkerAction::Abort(d) && d@ == diag@),
    {
        match outcome {
            ReadOutcome::Frame(buf) => {
                if buf.len() == 2 * self.bars {
                    WorkerAction::Deliver(self.process_frame(&buf))
                } else {
                    WorkerAction::Abort(String::new())
                }
            },
            ReadOutcome::Failed(diag) => WorkerAction::Abort(diag),
        }
    }
}

} // verus!
