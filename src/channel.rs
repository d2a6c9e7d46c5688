use vstd::prelude::*;

use crate::poll::Poll;

verus! {

/// A single-slot mailbox between two cooperatively scheduled tasks. Sending
/// overwrites: a value not yet taken is replaced by the newer one.
#[derive(Debug)]
pub struct Channel<T> {
    pub slot: Option<T>,
}

impl<T> Channel<T> {
    /// The mailbox after `value` is sent into it.
    pub open spec fn sent(self, value: T) -> Channel<T> {
        Channel { slot: Some(value) }
    }

    /// The mailbox after each of `values` is sent into it, in order.
    pub open spec fn sent_all(self, values: Seq<T>) -> Channel<T>
        decreases values.len(),
    {
        if values.len() == 0 {
            self
        } else {
            self.sent_all(values.drop_last()).sent(values.last())
        }
    }

    /// An empty mailbox.
    pub fn new() -> (r: Channel<T>)
        ensures
            r.slot is None,
    {
        Channel { slot: None }
    }

    /// Puts `value` in the slot, replacing whatever value was pending.
    pub fn send(&mut self, value: T)
        ensures
            *final(self) == old(self).sent(value),
    {
        self.slot = Some(value);
    }

    /// Takes the pending value, if any, leaving the slot empty.
    pub fn receive(&mut self) -> (r: Option<T>)
        ensures
            r == old(self).slot,
            final(self).slot is None,
    {
        self.slot.take()
    }

    /// `Ready` with the pending value, which leaves the slot, or `Pending`
    /// when the slot is empty.
    pub fn poll(&mut self, task_id: usize) -> (r: Poll<T>)
        ensures
            final(self).slot is None,
            old(self).slot matches Some(v) ==> r == Poll::Ready(v),
            old(self).slot is None ==> r is Pending,
    {
        match self.slot.take() {
            Some(v) => Poll::Ready(v),
            None => Poll::Pending,
        }
    }
}

/// Newest wins: after any non-empty run of sends with no receive between
/// them, the slot holds the last value sent and nothing else.
pub proof fn lemma_newest_value_wins<T>(c: Channel<T>, values: Seq<T>)
    requires
        values.len() > 0,
    ensures
        c.sent_all(values).slot == Some(values.last()),
{
}

} // verus!
