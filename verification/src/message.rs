use vstd::prelude::*;

use crate::scale::ScaleSpec;

verus! {

/// An edit carried from the control plane to the render plane. Created by
/// the control plane, transferred through the queue, consumed at most once
/// per audio block by the render plane.
#[derive(Clone, Copy, PartialEq, Eq, Debug)]
pub enum Message {
    /// Set the note of a logical column to a logical row.
    Tick((usize, usize)),
    /// Switch to another scale, emptying the step buffer.
    Scale(ScaleSpec),
    /// Grow or shrink the step buffer to this number of steps.
    Resize(usize),
    /// Reserved transport hook, accepted with no effect.
    Start,
    /// Reserved transport hook, accepted with no effect.
    Stop,
    /// Store a new tempo value, in beats per minute.
    TempoChange(u32),
}

/// A single-producer single-consumer queue of owned messages with a
/// non-blocking receive; messages keep their send order.
pub struct MessageQueue {
    msgs: Vec<Message>,
}

impl View for MessageQueue {
    type V = Seq<Message>;

    closed spec fn view(&self) -> Seq<Message> {
        self.msgs@
    }
}

impl MessageQueue {
    pub fn new() -> (r: MessageQueue)
        ensures
            r@ == Seq::<Message>::empty(),
    {
        let r = MessageQueue { msgs: Vec::new() };
        proof {
            assert(r@ =~= Seq::<Message>::empty());
        }
        r
    }

    pub fn len(&self) -> (n: usize)
        ensures
            n == self@.len(),
    {
        self.msgs.len()
    }

    /// Enqueue a message behind every message already sent.
    pub fn send(&mut self, m: Message)
        ensures
            final(self)@ == old(self)@.push(m),
    {
        self.msgs.push(m);
    }

    /// Non-blocking receive: the oldest pending message, if any.
    pub fn try_recv(&mut self) -> (r: Option<Message>)
        ensures
            old(self)@.len() == 0 ==> r is None && final(self)@ == old(self)@,
            old(self)@.len() > 0 ==> r == Some(old(self)@[0]) && final(self)@ == old(
                self,
            )@.subrange(1, old(self)@.len() as int),
    {
        if self.msgs.len() == 0 {
            None
        } else {
            let m = self.msgs.remove(0);
            proof {
                assert(self@ =~= old(self)@.subrange(1, old(self)@.len() as int));
            }
            Some(m)
        }
    }
}

} // verus!
