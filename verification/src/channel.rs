//! The delivery channel: an unbounded single-producer/single-consumer FIFO
//! queue of smoothed frames. Each frame moves by value from the worker to
//! the consumer and is consumed exactly once. Closing the receiving end
//! makes every later send fail, which is the worker's only shutdown signal.

use vstd::prelude::*;

verus! {

/// The in-order contents of a channel after one more frame is sent.
pub open spec fn sent(contents: Seq<Seq<u16>>, frame: Seq<u16>) -> Seq<Seq<u16>> {
    contents.push(frame)
}

/// The in-order contents of a channel after a whole batch of frames is
/// sent, oldest first.
pub open spec fn sent_all(contents: Seq<Seq<u16>>, frames: Seq<Seq<u16>>) -> Seq<Seq<u16>>
    decreases frames.len(),
{
    if frames.len() == 0 {
        contents
    } else {
        sent_all(sent(contents, frames[0]), frames.skip(1))
    }
}

/// An unbounded FIFO queue of frames with a flag for a departed receiver.
pub struct FrameChannel {
    queue: Vec<Vec<u16>>,
    closed: bool,
}

impl FrameChannel {
    /// The frames waiting in the channel, oldest first.
    pub closed spec fn contents(self) -> Seq<Seq<u16>> {
        self.queue@.map_values(|f: Vec<u16>| f@)
    }

    /// Whether the receiving end is gone, so that sends fail.
    pub closed spec fn is_closed(self) -> bool {
        self.closed
    }

    /// An open channel holding no frames.
    pub fn new() -> (ch: Self)
        ensures
            ch.contents() == Seq::<Seq<u16>>::empty(),
            !ch.is_closed(),
    {
        let ch = FrameChannel { queue: Vec::new(), closed: false };
        proof {
            assert(ch.contents() =~= Seq::<Seq<u16>>::empty());
        }
        ch
    }

    /// Sends one frame: appended at the tail when the receiver is still
    /// there; handed back untouched, with the channel unchanged, when the
    /// receiving end is gone. A failed send is the shutdown signal, not an
    /// error.
    pub fn send(&mut self, frame: Vec<u16>) -> (r: Result<(), Vec<u16>>)
        ensures
            !old(self).is_closed() ==> r is Ok && final(self).contents() == sent(
                old(self).contents(),
                frame@,
            ),
            old(self).is_closed() ==> (r matches Err(back) && back@ == frame@ && *final(self)
                == *old(self)),
            final(self).is_closed() == old(self).is_closed(),
    {
        if self.closed {
            Err(frame)
        } else {
            let ghost before = self.contents();
            self.queue.push(frame);
            proof {
                assert(self.contents() =~= sent(before, frame@));
            }
            Ok(())
        }
    }

    /// Receives the oldest waiting frame, or nothing when the queue is
    /// empty (a blocking receiver would wait instead).
    pub fn recv(&mut self) -> (r: Option<Vec<u16>>)
        ensures
            old(self).contents().len() > 0 ==> (r matches Some(front) && front@ == old(
                self,
            ).contents()[0] && final(self).contents() == old(self).contents().skip(1)),
            old(self).contents().len() == 0 ==> r is None && *final(self) == *old(self),
            final(self).is_closed() == old(self).is_closed(),
    {
        if self.queue.len() == 0 {
            None
        } else {
            let ghost before = self.contents();
            let front = self.queue.remove(0);
            proof {
                assert(self.contents() =~= before.skip(1));
            }
            Some(front)
        }
    }

    /// Drops the receiving end: every later send fails.
    pub fn close(&mut self)
        ensures
            final(self).is_closed(),
            final(self).contents() == old(self).contents(),
    {
        self.closed = true;
    }
}

/// Frames pass through the channel strictly first-in first-out: after a
/// batch of frames is sent, the channel holds what it held before followed
/// by the batch in send order, so the frames come out exactly in the order
/// they went in, never reordered or dropped.
pub proof fn lemma_channel_fifo(contents: Seq<Seq<u16>>, frames: Seq<Seq<u16>>)
    ensures
        sent_all(contents, frames) == contents + frames,
        forall|i: int|
            0 <= i < frames.len() ==> sent_all(contents, frames)[contents.len() + i] == frames[i],
    decreases frames.len(),
{
    if frames.len() == 0 {
        assert(sent_all(contents, frames) =~= contents + frames);
    } else {
        lemma_channel_fifo(sent(contents, frames[0]), frames.skip(1));
        assert(sent(contents, frames[0]) + frames.skip(1) =~= contents + frames);
    }
}

} // verus!
