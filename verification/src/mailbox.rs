//! The single-slot sample mailbox between the temperature driver and the
//! coordination loop.
//!
//! The slot holds zero or one temperature sample. A publish always
//! replaces any unread value — no queueing, no backpressure — and a take
//! consumes the slot atomically, so a reader that obtains a value always
//! obtains the most recently published one. The driver is the mailbox's
//! sole writer and the coordination loop its sole reader; the blocking of
//! a reader until a value arrives is the scheduler's part, done by
//! retrying [`Mailbox::try_take`] at its suspension point.

use vstd::prelude::*;

verus! {

/// A single-slot, overwrite-on-write, consume-on-read mailbox carrying
/// the latest temperature sample in hundredths of a degree.
#[derive(Debug)]
pub struct Mailbox {
    slot: Option<i16>,
}

impl View for Mailbox {
    type V = Option<i16>;

    /// The sample currently held, if any.
    closed spec fn view(&self) -> Option<i16> {
        self.slot
    }
}

impl Mailbox {
    /// An empty mailbox: nothing has been published yet.
    pub fn new() -> (mailbox: Mailbox)
        ensures
            mailbox@ is None,
    {
        Mailbox { slot: None }
    }

    /// Stores `sample`, replacing any unread previous value. Never blocks
    /// the writer.
    pub fn publish(&mut self, sample: i16)
        ensures
            final(self)@ == Some(sample),
    {
        self.slot = Some(sample);
    }

    /// Consumes the held sample: returns exactly the most recently
    /// published value and empties the slot, or returns `None` if nothing
    /// has been published since the slot was last emptied.
    pub fn try_take(&mut self) -> (taken: Option<i16>)
        ensures
            taken == old(self)@,
            final(self)@ is None,
    {
        self.slot.take()
    }
}

} // verus!
