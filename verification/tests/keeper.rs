use robohome::clock::{Day, Moment};
use robohome::data::{Flip, SwitchState, Time, TimeKind, TimeOfDay};
use robohome::error::Error;
use robohome::flipper::{Action, Event, Flipper, Phase};
use robohome::message::ChannelMessage;
use std::sync::mpsc::{channel, Receiver, Sender};

const TODAY: Day = Day { year: 1999, month: 12, day: 31 };

fn at(hour: u32, minute: u32) -> Moment {
    Moment { day: TODAY, weekday: 4, hour, minute }
}

fn flip(id: i32, hour: i32, minute: i32, tod: TimeOfDay) -> Flip {
    Flip {
        id,
        direction: if id % 2 == 0 { SwitchState::Off } else { SwitchState::On },
        time: Time::new(hour, minute, tod, TimeKind::Custom, 127),
        switch_id: id * 10,
        remote_id: id * 100,
    }
}

fn keeper() -> (Flipper, Receiver<ChannelMessage>, Sender<ChannelMessage>) {
    let (status_tx, status_rx) = channel();
    let (command_tx, command_rx) = channel();
    (Flipper::new(status_tx, command_rx), status_rx, command_tx)
}

/// A keeper whose queue holds `flips`, loaded for `TODAY`, waiting for a
/// command.
fn loaded(flips: Vec<Flip>) -> Flipper {
    let (mut k, _, _) = keeper();
    k.get_today(flips, TODAY);
    k
}

fn morning_flips() -> Vec<Flip> {
    vec![
        flip(1, 7, 0, TimeOfDay::Am),
        flip(2, 9, 30, TimeOfDay::Pm),
        flip(3, 6, 15, TimeOfDay::Am),
        flip(4, 8, 45, TimeOfDay::Am),
    ]
}

fn ids(k: &Flipper) -> Vec<i32> {
    k.pending().iter().map(|f| f.id).collect()
}

fn is_report(action: &Action, of: &str) -> bool {
    match action {
        Action::Report(msg) => format!("{:?}", msg) == of,
        _ => false,
    }
}

fn published(action: &Action) -> Option<(i32, i32, SwitchState)> {
    match action {
        Action::Publish { remote_id, switch_id, direction } => {
            Some((*remote_id, *switch_id, *direction))
        }
        _ => None,
    }
}

#[test]
fn a_new_keeper_is_idle_with_nothing_pending() {
    let (k, _, _) = keeper();
    assert_eq!(k.phase(), Phase::Idle);
    assert!(k.pending().is_empty());
    let date = k.current_date();
    assert!((1..=12).contains(&date.month));
    assert!((1..=31).contains(&date.day));
    assert!(k.is_out_of_date(&TODAY));
}

#[test]
fn a_stale_check_announces_fetches_reports_dispatches_and_completes() {
    let (mut k, _, _) = keeper();
    let a = k.advance(Event::Command(ChannelMessage::FlipperCheck), &at(7, 30));
    assert!(is_report(&a, "FlipperOutOfDate"));
    assert_eq!(k.phase(), Phase::Announcing);
    let a = k.advance(Event::Done, &at(7, 30));
    assert!(matches!(a, Action::Fetch));
    assert_eq!(k.phase(), Phase::Loading);
    let a = k.advance(Event::Fetched(morning_flips()), &at(7, 31));
    assert!(is_report(&a, "FlipperUpdated"));
    assert_eq!(k.phase(), Phase::Loaded);
    assert_eq!(k.current_date(), TODAY);
    assert_eq!(ids(&k), vec![2, 4, 1, 3]);
    let a = k.advance(Event::Done, &at(7, 32));
    assert_eq!(published(&a), Some((300, 30, SwitchState::On)));
    assert_eq!(k.phase(), Phase::Dispatching(at(7, 32)));
    let a = k.advance(Event::Done, &at(7, 33));
    assert_eq!(published(&a), Some((100, 10, SwitchState::On)));
    let a = k.advance(Event::Done, &at(7, 34));
    assert!(is_report(&a, "FlipperComplete"));
    assert_eq!(k.phase(), Phase::Closing);
    let a = k.advance(Event::Done, &at(7, 35));
    assert!(matches!(a, Action::Receive));
    assert_eq!(k.phase(), Phase::Idle);
    assert_eq!(ids(&k), vec![2, 4]);
}

#[test]
fn a_failed_announcement_halts_before_any_fetch() {
    let (mut k, _, _) = keeper();
    let a = k.advance(Event::Command(ChannelMessage::FlipperCheck), &at(7, 30));
    assert!(is_report(&a, "FlipperOutOfDate"));
    let a = k.advance(Event::Failed, &at(7, 30));
    assert!(matches!(a, Action::Halt));
    assert_eq!(k.phase(), Phase::Halted);
    assert!(k.pending().is_empty());
    let a = k.advance(Event::Fetched(morning_flips()), &at(7, 31));
    assert!(matches!(a, Action::Halt));
    assert!(k.pending().is_empty());
}

#[test]
fn an_announcement_that_cannot_be_sent_ends_the_check() {
    // The supervisor's end of the status channel is gone: the report fails,
    // and the keeper, told so, asks for nothing but to stop.
    let (mut k, status_rx, command_tx) = keeper();
    drop(status_rx);
    command_tx.send(ChannelMessage::FlipperCheck).unwrap();
    let command = k.receive().unwrap();
    let a = k.advance(Event::Command(command), &at(7, 30));
    let status = match a {
        Action::Report(status) => status,
        _ => panic!("a stale check must be announced"),
    };
    assert!(matches!(k.report(status), Err(Error::Send(_))));
    let a = k.advance(Event::Failed, &at(7, 30));
    assert!(matches!(a, Action::Halt));
    assert_eq!(k.phase(), Phase::Halted);
}

#[test]
fn every_failure_halts_in_every_phase() {
    let mut idle = loaded(morning_flips());
    assert!(matches!(idle.advance(Event::Failed, &at(1, 0)), Action::Halt));
    let mut announcing = loaded(morning_flips());
    let tomorrow = Moment { day: Day { year: 2000, month: 1, day: 1 }, ..at(1, 0) };
    announcing.advance(Event::Command(ChannelMessage::FlipperCheck), &tomorrow);
    assert_eq!(announcing.phase(), Phase::Announcing);
    assert!(matches!(announcing.advance(Event::Failed, &tomorrow), Action::Halt));
    let mut loading = loaded(morning_flips());
    loading.advance(Event::Command(ChannelMessage::FlipperCheck), &tomorrow);
    loading.advance(Event::Done, &tomorrow);
    assert_eq!(loading.phase(), Phase::Loading);
    assert!(matches!(loading.advance(Event::Failed, &tomorrow), Action::Halt));
    let mut reported = loaded(morning_flips());
    reported.advance(Event::Command(ChannelMessage::FlipperCheck), &tomorrow);
    reported.advance(Event::Done, &tomorrow);
    reported.advance(Event::Fetched(morning_flips()), &tomorrow);
    assert_eq!(reported.phase(), Phase::Loaded);
    assert!(matches!(reported.advance(Event::Failed, &tomorrow), Action::Halt));
    let mut closing = loaded(Vec::new());
    closing.advance(Event::Command(ChannelMessage::FlipperCheck), &at(1, 0));
    assert_eq!(closing.phase(), Phase::Closing);
    assert!(matches!(closing.advance(Event::Failed, &at(1, 0)), Action::Halt));
    assert_eq!(closing.phase(), Phase::Halted);
}

#[test]
fn a_check_of_a_current_queue_dispatches_at_once() {
    let mut k = loaded(morning_flips());
    assert!(!k.is_out_of_date(&TODAY));
    let a = k.advance(Event::Command(ChannelMessage::FlipperCheck), &at(8, 50));
    assert_eq!(published(&a), Some((300, 30, SwitchState::On)));
    let a = k.advance(Event::Done, &at(8, 51));
    assert_eq!(published(&a), Some((100, 10, SwitchState::On)));
    let a = k.advance(Event::Done, &at(8, 52));
    assert_eq!(published(&a), Some((400, 40, SwitchState::Off)));
    let a = k.advance(Event::Done, &at(8, 53));
    assert!(is_report(&a, "FlipperComplete"));
    let a = k.advance(Event::Done, &at(8, 54));
    assert!(matches!(a, Action::Receive));
    assert_eq!(ids(&k), vec![2]);
}

#[test]
fn dispatch_tests_every_flip_against_the_moment_it_began() {
    let mut k = loaded(vec![flip(1, 8, 5, TimeOfDay::Am), flip(2, 8, 0, TimeOfDay::Am)]);
    let a = k.advance(Event::Command(ChannelMessage::FlipperCheck), &at(8, 1));
    assert_eq!(published(&a), Some((200, 20, SwitchState::Off)));
    // The clock moves on while the flip is published; 8:05 stays pending.
    let a = k.advance(Event::Done, &at(8, 30));
    assert!(is_report(&a, "FlipperComplete"));
    assert_eq!(ids(&k), vec![1]);
}

#[test]
fn a_check_with_nothing_due_only_reports_completion() {
    let mut k = loaded(morning_flips());
    let a = k.advance(Event::Command(ChannelMessage::FlipperCheck), &at(6, 14));
    assert!(is_report(&a, "FlipperComplete"));
    assert_eq!(ids(&k), vec![2, 4, 1, 3]);
}

#[test]
fn a_check_of_an_empty_queue_only_reports_completion() {
    let mut k = loaded(Vec::new());
    let a = k.advance(Event::Command(ChannelMessage::FlipperCheck), &at(23, 59));
    assert!(is_report(&a, "FlipperComplete"));
    assert!(k.pending().is_empty());
}

#[test]
fn a_failed_publication_halts_and_puts_nothing_back() {
    let mut k = loaded(morning_flips());
    let a = k.advance(Event::Command(ChannelMessage::FlipperCheck), &at(8, 50));
    assert_eq!(published(&a), Some((300, 30, SwitchState::On)));
    let a = k.advance(Event::Done, &at(8, 50));
    assert_eq!(published(&a), Some((100, 10, SwitchState::On)));
    let a = k.advance(Event::Failed, &at(8, 50));
    assert!(matches!(a, Action::Halt));
    assert_eq!(k.phase(), Phase::Halted);
    assert_eq!(ids(&k), vec![2, 4]);
    let a = k.advance(Event::Done, &at(8, 51));
    assert!(matches!(a, Action::Halt));
    let a = k.advance(Event::Command(ChannelMessage::FlipperCheck), &at(8, 51));
    assert!(matches!(a, Action::Halt));
    assert_eq!(ids(&k), vec![2, 4]);
}

#[test]
fn a_refresh_fetches_prunes_and_reports_without_publishing() {
    let mut k = loaded(vec![flip(9, 1, 0, TimeOfDay::Am)]);
    let a = k.advance(Event::Command(ChannelMessage::FlipperRefresh), &at(8, 50));
    assert!(matches!(a, Action::Fetch));
    assert_eq!(k.phase(), Phase::Reloading);
    let tomorrow = Moment { day: Day { year: 2000, month: 1, day: 1 }, weekday: 5, hour: 8, minute: 50 };
    let a = k.advance(Event::Fetched(morning_flips()), &tomorrow);
    assert!(is_report(&a, "FlipperUpdated"));
    assert_eq!(k.phase(), Phase::Closing);
    assert_eq!(ids(&k), vec![2]);
    assert_eq!(k.current_date(), tomorrow.day);
    let a = k.advance(Event::Done, &tomorrow);
    assert!(matches!(a, Action::Receive));
    assert_eq!(k.phase(), Phase::Idle);
}

#[test]
fn a_refresh_of_flips_that_are_all_due_leaves_none() {
    let mut k = loaded(Vec::new());
    k.advance(Event::Command(ChannelMessage::FlipperRefresh), &at(23, 59));
    let a = k.advance(Event::Fetched(morning_flips()), &at(23, 59));
    assert!(is_report(&a, "FlipperUpdated"));
    assert!(k.pending().is_empty());
}

#[test]
fn a_failed_fetch_halts() {
    let (mut k, _, _) = keeper();
    k.advance(Event::Command(ChannelMessage::FlipperRefresh), &at(1, 0));
    let a = k.advance(Event::Failed, &at(1, 0));
    assert!(matches!(a, Action::Halt));
    let (mut k, _, _) = keeper();
    k.advance(Event::Command(ChannelMessage::FlipperCheck), &at(1, 0));
    k.advance(Event::Done, &at(1, 0));
    let a = k.advance(Event::Failed, &at(1, 0));
    assert!(matches!(a, Action::Halt));
    assert_eq!(k.phase(), Phase::Halted);
}

#[test]
fn a_failed_report_of_the_reload_halts() {
    let (mut k, _, _) = keeper();
    k.advance(Event::Command(ChannelMessage::FlipperRefresh), &at(1, 0));
    k.advance(Event::Fetched(Vec::new()), &at(1, 0));
    let a = k.advance(Event::Failed, &at(1, 0));
    assert!(matches!(a, Action::Halt));
}

#[test]
fn other_commands_are_ignored() {
    let mut k = loaded(morning_flips());
    for msg in [
        ChannelMessage::FlipperOutOfDate,
        ChannelMessage::FlipperComplete,
        ChannelMessage::FlipperUpdated,
        ChannelMessage::MqUpdateFlip,
        ChannelMessage::Error("x".to_string()),
        ChannelMessage::Stop,
        ChannelMessage::Tick,
    ] {
        let a = k.advance(Event::Command(msg), &at(23, 59));
        assert!(matches!(a, Action::Receive));
        assert_eq!(k.phase(), Phase::Idle);
    }
    assert_eq!(ids(&k), vec![2, 4, 1, 3]);
}

#[test]
fn a_failure_to_receive_halts() {
    let mut k = loaded(Vec::new());
    let a = k.advance(Event::Failed, &at(1, 0));
    assert!(matches!(a, Action::Halt));
}

#[test]
fn an_event_out_of_turn_halts() {
    let mut k = loaded(morning_flips());
    let a = k.advance(Event::Done, &at(1, 0));
    assert!(matches!(a, Action::Halt));
    let mut k = loaded(morning_flips());
    let a = k.advance(Event::Fetched(Vec::new()), &at(1, 0));
    assert!(matches!(a, Action::Halt));
    assert_eq!(ids(&k), vec![2, 4, 1, 3]);
    let mut k = loaded(morning_flips());
    k.advance(Event::Command(ChannelMessage::FlipperRefresh), &at(1, 0));
    let a = k.advance(Event::Command(ChannelMessage::FlipperCheck), &at(1, 0));
    assert!(matches!(a, Action::Halt));
}

#[test]
fn get_today_orders_the_flips_and_stamps_the_day() {
    let (mut k, _, _) = keeper();
    k.get_today(morning_flips(), TODAY);
    assert_eq!(ids(&k), vec![2, 4, 1, 3]);
    assert_eq!(k.current_date(), TODAY);
    assert!(!k.is_out_of_date(&TODAY));
    assert!(k.is_out_of_date(&Day { year: 1999, month: 12, day: 30 }));
    k.get_today(vec![flip(7, 1, 0, TimeOfDay::Am)], Day { year: 2000, month: 1, day: 1 });
    assert_eq!(ids(&k), vec![7]);
}

#[test]
fn prune_today_discards_what_is_due() {
    let mut k = loaded(morning_flips());
    // On the hour the flip for a quarter past six is not due: its minute
    // is ahead of the clock's.
    k.prune_today(&at(7, 0));
    assert_eq!(ids(&k), vec![2, 4, 1, 3]);
    k.prune_today(&at(7, 15));
    assert_eq!(ids(&k), vec![2, 4]);
    k.prune_today(&at(7, 15));
    assert_eq!(ids(&k), vec![2, 4]);
    k.prune_today(&at(23, 59));
    assert!(k.pending().is_empty());
    k.prune_today(&at(23, 59));
    assert!(k.pending().is_empty());
}

#[test]
fn send_hands_out_the_last_flip_if_it_is_due() {
    let mut k = loaded(morning_flips());
    assert!(!k.ready_to_send(&at(6, 0)));
    assert!(k.ready_to_send(&at(6, 15)));
    let a = k.send(&at(6, 15));
    assert_eq!(published(&a), Some((300, 30, SwitchState::On)));
    assert_eq!(k.phase(), Phase::Dispatching(at(6, 15)));
    assert!(!k.ready_to_send(&at(6, 15)));
    let a = k.send(&at(6, 15));
    assert!(is_report(&a, "FlipperComplete"));
    assert_eq!(k.phase(), Phase::Closing);
    assert_eq!(ids(&k), vec![2, 4, 1]);
}

#[test]
fn step_reads_the_wall_clock() {
    // The keeper was loaded for the last day of 1999, so by the wall clock
    // its queue is stale.
    let mut k = loaded(morning_flips());
    let a = k.step(Event::Command(ChannelMessage::FlipperCheck));
    assert!(is_report(&a, "FlipperOutOfDate"));
    let a = k.step(Event::Done);
    assert!(matches!(a, Action::Fetch));
    let a = k.step(Event::Fetched(Vec::new()));
    assert!(is_report(&a, "FlipperUpdated"));
    assert!(k.current_date().year >= 2024);
    assert!(k.pending().is_empty());
    let a = k.step(Event::Done);
    assert!(is_report(&a, "FlipperComplete"));
    let a = k.step(Event::Done);
    assert!(matches!(a, Action::Receive));
    // Loaded a moment ago, the queue is current now.
    let a = k.step(Event::Command(ChannelMessage::FlipperCheck));
    assert!(is_report(&a, "FlipperComplete"));
}

#[test]
fn the_keeper_receives_commands_and_sends_reports() {
    let (mut k, status_rx, command_tx) = keeper();
    command_tx.send(ChannelMessage::FlipperRefresh).unwrap();
    assert!(matches!(k.receive(), Ok(ChannelMessage::FlipperRefresh)));
    k.report(ChannelMessage::FlipperUpdated).unwrap();
    assert!(matches!(status_rx.try_recv(), Ok(ChannelMessage::FlipperUpdated)));
    assert!(status_rx.try_recv().is_err());
}

#[test]
fn closed_channels_fail_the_keeper() {
    let (mut k, status_rx, command_tx) = keeper();
    drop(command_tx);
    assert!(matches!(k.receive(), Err(Error::Rec(_))));
    drop(status_rx);
    assert!(matches!(k.report(ChannelMessage::FlipperComplete), Err(Error::Send(_))));
}
