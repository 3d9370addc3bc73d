use robohome::error::Error;
use robohome::message::ChannelMessage;
use std::sync::mpsc::channel;

#[test]
fn every_message_has_its_log_line() {
    assert_eq!(ChannelMessage::FlipperCheck.to_text(), "FL OUT FlipperCheck");
    assert_eq!(ChannelMessage::FlipperRefresh.to_text(), "FL OUT FlipperRefresh");
    assert_eq!(ChannelMessage::FlipperOutOfDate.to_text(), "FL IN FlipperOutOfDate");
    assert_eq!(ChannelMessage::FlipperComplete.to_text(), "FL IN FlipperComplete");
    assert_eq!(ChannelMessage::FlipperUpdated.to_text(), "FL IN FlipperUpdated");
    assert_eq!(ChannelMessage::MqUpdateFlip.to_text(), "MQ IN MqUpdateFlip");
    assert_eq!(ChannelMessage::Stop.to_text(), "?? OUT Stop");
    assert_eq!(ChannelMessage::Tick.to_text(), "CT IN Tick");
}

#[test]
fn a_failure_report_shows_its_text() {
    assert_eq!(
        ChannelMessage::Error("no broker".to_string()).to_text(),
        "?? IN MqError: no broker"
    );
    assert_eq!(ChannelMessage::Error(String::new()).to_text(), "?? IN MqError: ");
}

#[test]
fn other_failures_show_their_description() {
    let e = Error::other("exceeded");
    assert!(matches!(e, Error::Other(ref text) if text == "exceeded"));
    assert_eq!(e.to_text(), "Unknown Error\nexceeded");
}

#[test]
fn a_bad_code_shows_the_number_and_the_enum() {
    let e = Error::_enum("TimeKind", 9);
    assert!(matches!(e, Error::Enum(ref name, 9) if name == "TimeKind"));
    assert_eq!(e.to_text(), "Attempt to construct 9 failed with TimeKind, out of bounds");
    assert_eq!(
        Error::_enum("SwitchState", -4).to_text(),
        "Attempt to construct -4 failed with SwitchState, out of bounds"
    );
}

#[test]
fn channel_failures_show_their_cause_under_a_heading() {
    let (tx, rx) = channel::<ChannelMessage>();
    drop(rx);
    let cause = tx.send(ChannelMessage::Tick).unwrap_err();
    let expected = format!("MCSP Channel Send Error\n{}", cause);
    assert_eq!(Error::Send(cause).to_text(), expected);
    let (tx, rx) = channel::<ChannelMessage>();
    drop(tx);
    let cause = rx.recv().unwrap_err();
    let expected = format!("MCSP Channel Recv Error\n{}", cause);
    assert_eq!(Error::Rec(cause).to_text(), expected);
}
