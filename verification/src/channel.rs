//! The channels between the scheduler's loops.
//!
//! The loops talk over the standard library's channels. Verus learns here
//! that the channel types exist and that their operations may be called;
//! nothing is claimed of what a channel holds, since another thread owns the
//! far end and a send or a receive may fail at any time. What a loop itself
//! has sent or received is known, though: [`Outbox`] and [`Inbox`] keep the
//! record.

use crate::error::Error;
use crate::message::ChannelMessage;
use std::sync::mpsc::{Receiver, RecvError, SendError, Sender};
use vstd::prelude::*;

verus! {

/// `std::sync::mpsc::Sender`, opaque to the verifier.
#[verifier::external_type_specification]
#[verifier::external_body]
#[verifier::reject_recursive_types(T)]
pub struct ExSender<T>(Sender<T>);

/// `std::sync::mpsc::Receiver`, opaque to the verifier.
#[verifier::external_type_specification]
#[verifier::external_body]
#[verifier::reject_recursive_types(T)]
pub struct ExReceiver<T>(Receiver<T>);

/// `std::sync::mpsc::SendError`, opaque to the verifier.
#[verifier::external_type_specification]
#[verifier::external_body]
#[verifier::reject_recursive_types(T)]
pub struct ExSendError<T>(SendError<T>);

/// `std::sync::mpsc::RecvError`, opaque to the verifier.
#[verifier::external_type_specification]
#[verifier::external_body]
pub struct ExRecvError(RecvError);

/// `std::sync::mpsc::channel` makes the two ends of a new channel. No claim.
pub assume_specification<T>[ std::sync::mpsc::channel::<T> ]() -> (ends: (Sender<T>, Receiver<T>));

/// `Sender::send` queues a value, or fails once the receiver is gone. Which of
/// the two happens is not ours to say.
pub assume_specification<T>[ Sender::<T>::send ](tx: &Sender<T>, t: T) -> (sent: Result<
    (),
    SendError<T>,
>);

/// `Receiver::recv` waits for the next value, or fails once every sender is
/// gone. Which value arrives is not ours to say.
pub assume_specification<T>[ Receiver::<T>::recv ](rx: &Receiver<T>) -> (got: Result<T, RecvError>);

/// The sending end of a channel, with the record of what went out through
/// it.
pub struct Outbox {
    tx: Sender<ChannelMessage>,
    sent: Ghost<Seq<ChannelMessage>>,
}

impl View for Outbox {
    type V = Seq<ChannelMessage>;

    /// The messages that the channel has accepted from this end, in order.
    closed spec fn view(&self) -> Seq<ChannelMessage> {
        self.sent@
    }
}

impl Outbox {
    /// The channel end that the messages go to.
    pub closed spec fn sender(&self) -> Sender<ChannelMessage> {
        self.tx
    }

    /// An outbox on the sending end `tx`, with nothing sent yet.
    pub fn new(tx: Sender<ChannelMessage>) -> (outbox: Outbox)
        ensures
            outbox@ == Seq::<ChannelMessage>::empty(),
            outbox.sender() == tx,
    {
        Outbox { tx, sent: Ghost(Seq::empty()) }
    }

    /// Sends one message. If the channel accepts it, it is the newest entry
    /// of the record; if the receiving end is gone, the record stays as it
    /// was.
    pub fn send(&mut self, msg: ChannelMessage) -> (outcome: Result<(), Error>)
        ensures
            match outcome {
                Ok(()) => final(self)@ == old(self)@.push(msg),
                Err(e) => e is Send && final(self)@ == old(self)@,
            },
            final(self).sender() == old(self).sender(),
    {
        let ghost sent = self.sent@.push(msg);
        match self.tx.send(msg) {
            Ok(()) => {
                self.sent = Ghost(sent);
                Ok(())
            },
            Err(e) => Err(Error::Send(e)),
        }
    }
}

/// The receiving end of a channel, with the record of what came in through
/// it.
pub struct Inbox {
    rx: Receiver<ChannelMessage>,
    received: Ghost<Seq<ChannelMessage>>,
}

impl View for Inbox {
    type V = Seq<ChannelMessage>;

    /// The messages that this end has handed out, in order.
    closed spec fn view(&self) -> Seq<ChannelMessage> {
        self.received@
    }
}

impl Inbox {
    /// The channel end that the messages come from.
    pub closed spec fn receiver(&self) -> Receiver<ChannelMessage> {
        self.rx
    }

    /// An inbox on the receiving end `rx`, with nothing received yet.
    pub fn new(rx: Receiver<ChannelMessage>) -> (inbox: Inbox)
        ensures
            inbox@ == Seq::<ChannelMessage>::empty(),
            inbox.receiver() == rx,
    {
        Inbox { rx, received: Ghost(Seq::empty()) }
    }

    /// Waits for the next message. The message that arrives is the newest
    /// entry of the record; if every sending end is gone, the record stays
    /// as it was.
    pub fn recv(&mut self) -> (got: Result<ChannelMessage, Error>)
        ensures
            match got {
                Ok(msg) => final(self)@ == old(self)@.push(msg),
                Err(e) => e is Rec && final(self)@ == old(self)@,
            },
            final(self).receiver() == old(self).receiver(),
    {
        match self.rx.recv() {
            Ok(msg) => {
                self.received = Ghost(self.received@.push(msg));
                Ok(msg)
            },
            Err(e) => Err(Error::Rec(e)),
        }
    }
}

} // verus!
