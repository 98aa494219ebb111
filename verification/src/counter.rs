//! Messages for the bounded-channel demo: worker threads send increment and
//! decrement commands over a channel, and the receiving end folds them into
//! a running counter.

use vstd::prelude::*;

verus! {

/// A command sent over the demo channel, tagged with the sending thread's
/// name. The name is borrowed, not owned, so messages move without cloning.
pub enum ChannelMsg<'a> {
    Increment { thread: &'a str, count: u32 },
    Decrement { thread: &'a str, count: u32 },
}

/// Builds an increment command for the given thread name and amount.
pub fn increment<'a>(thread: &'a str, count: u32) -> (m: ChannelMsg<'a>)
    ensures
        m == (ChannelMsg::Increment { thread, count }),
{
    ChannelMsg::Increment { thread, count }
}

/// Builds a decrement command for the given thread name and amount.
pub fn decrement<'a>(thread: &'a str, count: u32) -> (m: ChannelMsg<'a>)
    ensures
        m == (ChannelMsg::Decrement { thread, count }),
{
    ChannelMsg::Decrement { thread, count }
}

/// The counter after folding a sequence of commands, starting from zero:
/// each increment adds its amount, each decrement subtracts its amount.
pub open spec fn tally_spec(msgs: Seq<ChannelMsg>) -> int
    decreases msgs.len(),
{
    if msgs.len() == 0 {
        0
    } else {
        tally_spec(msgs.drop_last()) + match msgs.last() {
            ChannelMsg::Increment { thread: _, count } => count as int,
            ChannelMsg::Decrement { thread: _, count } => -(count as int),
        }
    }
}

/// Folds the received commands into the counter the demo prints. The
/// counter is unsigned, so the commands must never drive it below zero or
/// above its maximum at any point.
pub fn tally(msgs: &Vec<ChannelMsg>) -> (counter: u32)
    requires
        forall|i: int| 0 <= i <= msgs@.len() ==> 0 <= #[trigger] tally_spec(msgs@.take(i)) <= u32::MAX,
    ensures
        counter == tally_spec(msgs@),
{
    let mut counter: u32 = 0;
    let mut i: usize = 0;
    while i < msgs.len()
        invariant
            i <= msgs@.len(),
            counter == tally_spec(msgs@.take(i as int)),
            forall|k: int|
                0 <= k <= msgs@.len() ==> 0 <= #[trigger] tally_spec(msgs@.take(k)) <= u32::MAX,
        decreases msgs@.len() - i,
    {
        proof {
            assert(msgs@.take(i + 1).drop_last() =~= msgs@.take(i as int));
            assert(msgs@.take(i + 1).last() == msgs@[i as int]);
            assert(0 <= tally_spec(msgs@.take(i + 1)) <= u32::MAX);
        }
        match msgs[i] {
            ChannelMsg::Increment { thread: _, count } => {
                counter = counter + count;
            },
            ChannelMsg::Decrement { thread: _, count } => {
                counter = counter - count;
            },
        }
        i = i + 1;
    }
    proof {
        assert(msgs@.take(msgs@.len() as int) =~= msgs@);
    }
    counter
}

} // verus!
