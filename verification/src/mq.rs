//! The broker's side of the scheduler: what arrives from it and what is
//! sent to it.

use crate::channel::Outbox;
use crate::data::SwitchState;
use crate::decimal::{decimal_text, to_decimal};
use crate::error::Error;
use crate::message::ChannelMessage;
use std::string::FromUtf8Error;
use std::sync::mpsc::Sender;
use vstd::prelude::*;
use vstd::string::StringExecFns;
use vstd::utf8::{decode_utf8, valid_utf8};

verus! {

/// `std::string::FromUtf8Error`, opaque to the verifier.
#[verifier::external_type_specification]
#[verifier::external_body]
pub struct ExFromUtf8Error(FromUtf8Error);

/// `String::from_utf8` gives the text that the bytes encode if they are
/// valid UTF-8, and fails if they are not.
pub assume_specification[ String::from_utf8 ](bytes: Vec<u8>) -> (text: Result<String, FromUtf8Error>)
    ensures
        match text {
            Ok(s) => valid_utf8(bytes@) && s@ == decode_utf8(bytes@),
            Err(_) => !valid_utf8(bytes@),
        },
;

/// Turns the broker's deliveries into messages for the supervisor.
pub struct MqListener {
    sender: Outbox,
}

/// `msg` is what a delivery with the given body means: the text
/// `update` is the signal to refresh; any other text is a failure report
/// that quotes it; bytes that are no text are a failure report that says so.
pub open spec fn means(body: Seq<u8>, msg: ChannelMessage) -> bool {
    if !valid_utf8(body) {
        msg matches ChannelMessage::Error(text) && text@ == "failed to decode utf-8"@
    } else if decode_utf8(body) == "update"@ {
        msg is MqUpdateFlip
    } else {
        msg matches ChannelMessage::Error(text) && text@
            == "Unknown message content from MQ router "@ + decode_utf8(body)
    }
}

impl MqListener {
    /// The channel end on which the listener sends.
    pub closed spec fn sender(&self) -> Sender<ChannelMessage> {
        self.sender.sender()
    }

    /// The messages that the listener has sent, in order.
    pub closed spec fn sent(&self) -> Seq<ChannelMessage> {
        self.sender@
    }

    /// The listener has sent `msg`, and nothing else, since the state
    /// `before`; or the sending has failed, and it has sent nothing.
    pub open spec fn sent_one(
        &self,
        before: MqListener,
        msg: ChannelMessage,
        outcome: Result<(), Error>,
    ) -> bool {
        &&& self.sender() == before.sender()
        &&& match outcome {
            Ok(()) => self.sent() == before.sent().push(msg),
            Err(e) => e is Send && self.sent() == before.sent(),
        }
    }

    /// A listener that sends what it reads on `sender`, and has sent
    /// nothing yet.
    pub fn new(sender: Sender<ChannelMessage>) -> (listener: MqListener)
        ensures
            listener.sender() == sender,
            listener.sent() == Seq::<ChannelMessage>::empty(),
    {
        MqListener { sender: Outbox::new(sender) }
    }

    /// Reads the body of one delivery.
    pub fn interpret(body: Vec<u8>) -> (msg: ChannelMessage)
        ensures
            means(body@, msg),
    {
        match String::from_utf8(body) {
            Ok(text) => {
                if text == String::from_str("update") {
                    ChannelMessage::MqUpdateFlip
                } else {
                    ChannelMessage::Error(
                        String::from_str("Unknown message content from MQ router ").concat(
                            text.as_str(),
                        ),
                    )
                }
            },
            Err(_) => ChannelMessage::Error(String::from_str("failed to decode utf-8")),
        }
    }

    /// Sends a failure report with the text `msg` to the supervisor.
    fn send_error(&mut self, msg: &str) -> (outcome: Result<(), Error>)
        ensures
            exists|report: ChannelMessage|
                {
                    &&& report matches ChannelMessage::Error(text) && text@ == msg@
                    &&& #[trigger] final(self).sent_one(*old(self), report, outcome)
                },
    {
        let report = ChannelMessage::Error(msg.to_owned());
        let outcome = self.sender.send(report);
        assert(self.sent_one(*old(self), report, outcome));
        outcome
    }

    /// Sends the signal to refresh to the supervisor.
    fn send_reset(&mut self) -> (outcome: Result<(), Error>)
        ensures
            final(self).sent_one(*old(self), ChannelMessage::MqUpdateFlip, outcome),
    {
        self.sender.send(ChannelMessage::MqUpdateFlip)
    }

    /// Reports to the supervisor that a delivery could not be acknowledged,
    /// `cause` being what the broker's client says of it.
    pub fn ack_failed(&mut self, cause: &str) -> (outcome: Result<(), Error>)
        ensures
            exists|report: ChannelMessage|
                {
                    &&& report matches ChannelMessage::Error(text) && text@
                        == "Unable to send ack to MQ router\n"@ + cause@
                    &&& #[trigger] final(self).sent_one(*old(self), report, outcome)
                },
    {
        let text = String::from_str("Unable to send ack to MQ router\n").concat(cause);
        self.send_error(text.as_str())
    }

    /// Handles one delivery: sends what it means to the supervisor, one
    /// message whatever the body holds. The caller acknowledges the delivery
    /// to the broker afterwards, whatever is returned here; a failure is for
    /// it to log, and is not tried again.
    pub fn handle_delivery(&mut self, body: Vec<u8>) -> (outcome: Result<(), Error>)
        ensures
            exists|msg: ChannelMessage|
                means(body@, msg) && #[trigger] final(self).sent_one(*old(self), msg, outcome),
    {
        match Self::interpret(body) {
            ChannelMessage::Error(text) => self.send_error(text.as_str()),
            _ => self.send_reset(),
        }
    }
}

/// The key under which the command for a switch is published: the number
/// of its remote, in decimal.
pub fn binding_key(remote_id: i32) -> (key: String)
    ensures
        key@ == decimal_text(remote_id as int),
{
    to_decimal(remote_id)
}

/// The command that is published for one flip.
#[derive(Clone, Copy, Debug, PartialEq, Eq, Structural)]
pub struct Message {
    /// The low 16 bits of the switch's number.
    pub switch_id: u16,
    /// The number under which the state is stored.
    pub direction: u8,
}

impl Message {
    /// The command that puts the switch `switch_id` in the state
    /// `direction`.
    pub fn new(switch_id: i32, direction: SwitchState) -> (msg: Message)
        ensures
            msg.switch_id == switch_id as int % 0x1_0000,
            msg.direction == direction.code(),
    {
        let low: i64 = (switch_id as i64 + 0x8000_0000) % 0x1_0000;
        let state: i32 = direction.for_db();
        Message { switch_id: low as u16, direction: state as u8 }
    }
}

} // verus!
