//! The control message that every loop of the scheduler sends and receives.

use vstd::prelude::*;
use vstd::string::StringExecFns;

verus! {

/// One message on the scheduler's channels.
#[derive(Clone, Debug)]
pub enum ChannelMessage {
    /// Supervisor to schedule keeper: publish what has come due.
    FlipperCheck,
    /// Supervisor to schedule keeper: reload today's flips.
    FlipperRefresh,
    /// Schedule keeper: the queue was loaded for another day.
    FlipperOutOfDate,
    /// Schedule keeper: one check has finished.
    FlipperComplete,
    /// Schedule keeper: the queue was reloaded.
    FlipperUpdated,
    /// Broker listener: the stored schedule has changed.
    MqUpdateFlip,
    /// A failure report; fatal once it reaches the supervisor.
    Error(String),
    /// Request to stop.
    Stop,
    /// Clock: one period has passed.
    Tick,
}

impl ChannelMessage {
    /// The line that the log shows for this message: the component, the
    /// direction and the variant's name, and for a failure report its text.
    pub open spec fn label(self) -> Seq<char> {
        match self {
            ChannelMessage::FlipperCheck => "FL OUT FlipperCheck"@,
            ChannelMessage::FlipperRefresh => "FL OUT FlipperRefresh"@,
            ChannelMessage::FlipperOutOfDate => "FL IN FlipperOutOfDate"@,
            ChannelMessage::FlipperComplete => "FL IN FlipperComplete"@,
            ChannelMessage::FlipperUpdated => "FL IN FlipperUpdated"@,
            ChannelMessage::MqUpdateFlip => "MQ IN MqUpdateFlip"@,
            ChannelMessage::Error(msg) => "?? IN MqError: "@ + msg@,
            ChannelMessage::Stop => "?? OUT Stop"@,
            ChannelMessage::Tick => "CT IN Tick"@,
        }
    }

    /// Renders the message for the log.
    pub fn to_text(&self) -> (text: String)
        ensures
            text@ == self.label(),
    {
        match self {
            ChannelMessage::FlipperCheck => String::from_str("FL OUT FlipperCheck"),
            ChannelMessage::FlipperRefresh => String::from_str("FL OUT FlipperRefresh"),
            ChannelMessage::FlipperOutOfDate => String::from_str("FL IN FlipperOutOfDate"),
            ChannelMessage::FlipperComplete => String::from_str("FL IN FlipperComplete"),
            ChannelMessage::FlipperUpdated => String::from_str("FL IN FlipperUpdated"),
            ChannelMessage::MqUpdateFlip => String::from_str("MQ IN MqUpdateFlip"),
            ChannelMessage::Error(msg) => String::from_str("?? IN MqError: ").concat(msg.as_str()),
            ChannelMessage::Stop => String::from_str("?? OUT Stop"),
            ChannelMessage::Tick => String::from_str("CT IN Tick"),
        }
    }
}

} // verus!
