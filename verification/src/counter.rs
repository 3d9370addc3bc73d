//! The clock that drives the checks.

use crate::channel::Outbox;
use crate::error::Error;
use crate::message::ChannelMessage;
use std::sync::mpsc::Sender;
use vstd::prelude::*;

verus! {

/// The time from one tick to the next, in milliseconds: one minute.
pub const TICK_MILLIS: u64 = 60 * 1000;

/// Sends a tick to the supervisor once per period.
pub struct Counter {
    sender: Outbox,
}

impl Counter {
    /// The channel end on which the ticks are sent.
    pub closed spec fn sender(&self) -> Sender<ChannelMessage> {
        self.sender.sender()
    }

    /// The messages that the clock has sent, in order.
    pub closed spec fn sent(&self) -> Seq<ChannelMessage> {
        self.sender@
    }

    /// A clock that sends its ticks on `sender`, and has sent none yet.
    pub fn new(sender: Sender<ChannelMessage>) -> (counter: Counter)
        ensures
            counter.sender() == sender,
            counter.sent() == Seq::<ChannelMessage>::empty(),
    {
        Counter { sender: Outbox::new(sender) }
    }

    /// Sends one tick, and nothing else. Its driver then sleeps for
    /// [`TICK_MILLIS`] and calls again; it stops at the first failure, since
    /// a tick that cannot be sent is not tried again.
    pub fn tick(&mut self) -> (outcome: Result<(), Error>)
        ensures
            match outcome {
                Ok(()) => final(self).sent() == old(self).sent().push(ChannelMessage::Tick),
                Err(e) => e is Send && final(self).sent() == old(self).sent(),
            },
            final(self).sender() == old(self).sender(),
    {
        self.sender.send(ChannelMessage::Tick)
    }
}

} // verus!
