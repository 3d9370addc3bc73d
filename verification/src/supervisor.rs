//! The supervisor: routes what the clock, the broker listener and the
//! schedule keeper send it.

use crate::channel::{Inbox, Outbox};
use crate::error::Error;
use crate::message::ChannelMessage;
use std::sync::mpsc::{channel, Receiver, Sender};
use vstd::prelude::*;

verus! {

/// What the supervisor does with a message.
pub enum Routing {
    /// Send this command to the schedule keeper.
    Forward(ChannelMessage),
    /// Stop with a failure described by the text.
    Fail(String),
    /// Nothing: the message is a status report.
    Ignore,
}

/// The rule of the router: a tick asks the schedule keeper for a check, the
/// broker's signal asks it for a refresh, a failure report is fatal and
/// keeps its text, every other message is let pass.
pub open spec fn routing(msg: ChannelMessage) -> Routing {
    match msg {
        ChannelMessage::Tick => Routing::Forward(ChannelMessage::FlipperCheck),
        ChannelMessage::MqUpdateFlip => Routing::Forward(ChannelMessage::FlipperRefresh),
        ChannelMessage::Error(text) => Routing::Fail(text),
        _ => Routing::Ignore,
    }
}

/// The commands that the messages are routed to, in the messages' order:
/// one for each tick and each signal of the broker, none for the others.
pub open spec fn commands_for(seen: Seq<ChannelMessage>) -> Seq<ChannelMessage>
    decreases seen.len(),
{
    if seen.len() == 0 {
        Seq::empty()
    } else {
        match routing(seen.last()) {
            Routing::Forward(command) => commands_for(seen.drop_last()).push(command),
            _ => commands_for(seen.drop_last()),
        }
    }
}

/// None of the messages is a failure report.
pub open spec fn none_fatal(seen: Seq<ChannelMessage>) -> bool {
    forall|i: int| 0 <= i < seen.len() ==> !(#[trigger] seen[i] is Error)
}

/// The router of the scheduler's messages.
pub struct Supervisor {
    incoming: Inbox,
    flip_ch: Outbox,
}

impl Supervisor {
    /// The messages that the supervisor has received, in order.
    pub closed spec fn received(&self) -> Seq<ChannelMessage> {
        self.incoming@
    }

    /// The commands that the supervisor has sent to the schedule keeper, in
    /// order.
    pub closed spec fn forwarded(&self) -> Seq<ChannelMessage> {
        self.flip_ch@
    }

    /// What handling `msg` comes to, from the state `before` to the state
    /// `self`: a command for the schedule keeper is sent, once, or the
    /// sending fails; a failure report ends in the failure that carries its
    /// text; any other message passes without effect.
    pub open spec fn relayed(
        &self,
        before: Supervisor,
        msg: ChannelMessage,
        outcome: Result<(), Error>,
    ) -> bool {
        &&& self.received() == before.received()
        &&& match routing(msg) {
            Routing::Forward(command) => match outcome {
                Ok(()) => self.forwarded() == before.forwarded().push(command),
                Err(e) => e is Send && self.forwarded() == before.forwarded(),
            },
            Routing::Fail(text) => {
                &&& outcome matches Err(Error::Other(t)) && t == text
                &&& self.forwarded() == before.forwarded()
            },
            Routing::Ignore => outcome is Ok && self.forwarded() == before.forwarded(),
        }
    }

    /// What a run of up to `rounds` rounds comes to, from the state `before`
    /// to the state `self`, `seen` being the messages received in it.
    ///
    /// Every message but a last one that ended the run was handled: its
    /// command, if it has one, was sent, in the order of arrival. A run
    /// without failure has received `rounds` messages, none of them a
    /// failure report. A run that fails to receive has handled all it got.
    /// A run ended by a failure report returns that report's text. A run
    /// ended by a failure to send had a command to send for its last
    /// message.
    pub open spec fn ran(
        &self,
        before: Supervisor,
        rounds: u64,
        seen: Seq<ChannelMessage>,
        outcome: Result<(), Error>,
    ) -> bool {
        &&& self.received() == before.received() + seen
        &&& seen.len() <= rounds
        &&& match outcome {
            Ok(()) => {
                &&& seen.len() == rounds
                &&& none_fatal(seen)
                &&& self.forwarded() == before.forwarded() + commands_for(seen)
            },
            Err(Error::Rec(_)) => {
                &&& seen.len() < rounds
                &&& none_fatal(seen)
                &&& self.forwarded() == before.forwarded() + commands_for(seen)
            },
            Err(Error::Other(text)) => {
                &&& seen.len() > 0
                &&& seen.last() == ChannelMessage::Error(text)
                &&& none_fatal(seen.drop_last())
                &&& self.forwarded() == before.forwarded() + commands_for(seen.drop_last())
            },
            Err(Error::Send(_)) => {
                &&& seen.len() > 0
                &&& routing(seen.last()) is Forward
                &&& none_fatal(seen.drop_last())
                &&& self.forwarded() == before.forwarded() + commands_for(seen.drop_last())
            },
            Err(Error::Enum(_, _)) => false,
        }
    }

    /// A supervisor, the sending end of its inbound channel, and the
    /// receiving end of the channel on which it commands the schedule
    /// keeper. It has received and sent nothing yet.
    pub fn new() -> (made: (Supervisor, Sender<ChannelMessage>, Receiver<ChannelMessage>))
        ensures
            made.0.received() == Seq::<ChannelMessage>::empty(),
            made.0.forwarded() == Seq::<ChannelMessage>::empty(),
    {
        let (flip_ch, flip_rx) = channel();
        let (tx, incoming) = channel();
        let ret = Supervisor { incoming: Inbox::new(incoming), flip_ch: Outbox::new(flip_ch) };
        (ret, tx, flip_rx)
    }

    /// Decides what to do with a message.
    pub fn route(msg: ChannelMessage) -> (decision: Routing)
        ensures
            decision == routing(msg),
    {
        match msg {
            ChannelMessage::Tick => Routing::Forward(ChannelMessage::FlipperCheck),
            ChannelMessage::MqUpdateFlip => Routing::Forward(ChannelMessage::FlipperRefresh),
            ChannelMessage::Error(text) => Routing::Fail(text),
            _ => Routing::Ignore,
        }
    }

    /// Waits for the next message on the inbound channel.
    pub fn receive(&mut self) -> (got: Result<ChannelMessage, Error>)
        ensures
            match got {
                Ok(msg) => final(self).received() == old(self).received().push(msg),
                Err(e) => e is Rec && final(self).received() == old(self).received(),
            },
            final(self).forwarded() == old(self).forwarded(),
    {
        self.incoming.recv()
    }

    /// Handles one message as [`routing`] says.
    pub fn relay(&mut self, msg: ChannelMessage) -> (outcome: Result<(), Error>)
        ensures
            final(self).relayed(*old(self), msg, outcome),
    {
        match Self::route(msg) {
            Routing::Forward(command) => self.flip_ch.send(command),
            Routing::Fail(text) => Err(Error::Other(text)),
            Routing::Ignore => Ok(()),
        }
    }

    /// Runs the supervisor for up to `rounds` messages: each is shown to
    /// `observe`, then handled. The first failure ends the run and is
    /// returned.
    pub fn run<F: Fn(&ChannelMessage)>(&mut self, rounds: u64, observe: F) -> (outcome: Result<
        (),
        Error,
    >)
        requires
            forall|msg: &ChannelMessage| call_requires(observe, (msg,)),
        ensures
            exists|seen: Seq<ChannelMessage>| #[trigger]
                final(self).ran(*old(self), rounds, seen, outcome),
    {
        let ghost mut seen: Seq<ChannelMessage> = Seq::empty();
        let mut left: u64 = rounds;
        while left > 0
            invariant
                forall|msg: &ChannelMessage| call_requires(observe, (msg,)),
                seen.len() + left == rounds,
                none_fatal(seen),
                self.received() == old(self).received() + seen,
                self.forwarded() == old(self).forwarded() + commands_for(seen),
            decreases left,
        {
            let msg = match self.receive() {
                Ok(msg) => msg,
                Err(e) => {
                    assert(self.ran(*old(self), rounds, seen, Err(e)));
                    return Err(e);
                },
            };
            observe(&msg);
            proof {
                assert(seen.push(msg).drop_last() =~= seen);
                seen = seen.push(msg);
            }
            match self.relay(msg) {
                Ok(()) => {},
                Err(e) => {
                    assert(self.ran(*old(self), rounds, seen, Err(e)));
                    return Err(e);
                },
            }
            left -= 1;
        }
        assert(self.ran(*old(self), rounds, seen, Ok(())));
        Ok(())
    }
}

} // verus!
