//! The schedule keeper: holds today's flips and says what to do next.
//!
//! The keeper never waits and never talks to the database or the broker. Its
//! driver does: it carries out each [`Action`] that the keeper hands out and
//! reports back with an [`Event`]. What the keeper answers is a function of
//! its state, the event and the clock, given by [`Schedule::next`].

use crate::channel::{Inbox, Outbox};
use crate::clock::{now, yesterday, Day, Moment};
use crate::data::{Flip, SwitchState};
use crate::error::Error;
use crate::message::ChannelMessage;
use crate::queue::{due_count, kept, sort_desc, sorted_desc, FlipQueue};
use std::sync::mpsc::{Receiver, Sender};
use vstd::prelude::*;

verus! {

/// Where the keeper stands between two events.
#[derive(Clone, Copy, Debug, PartialEq, Eq, Structural)]
pub enum Phase {
    /// Waiting for the next command.
    Idle,
    /// A check found the queue stale; the announcement of it is on its way.
    Announcing,
    /// The flips for a check are being fetched.
    Loading,
    /// The reload for a check was reported; dispatch follows.
    Loaded,
    /// A flip is being published; the moment is the one at which dispatch
    /// began, against which every flip of this check is tested.
    Dispatching(Moment),
    /// The last report of a check or of a refresh is on its way.
    Closing,
    /// The flips for a refresh are being fetched.
    Reloading,
    /// A fatal failure was met. The keeper does nothing more.
    Halted,
}

/// What the driver tells the keeper.
pub enum Event {
    /// A command arrived.
    Command(ChannelMessage),
    /// The day's flips arrived, in no particular order.
    Fetched(Vec<Flip>),
    /// The report or the publication that the keeper asked for was made.
    Done,
    /// What the keeper asked for could not be done.
    Failed,
}

/// What the keeper asks of its driver.
pub enum Action {
    /// Wait for the next command.
    Receive,
    /// Send this status to the supervisor.
    Report(ChannelMessage),
    /// Fetch the day's flips.
    Fetch,
    /// Tell the switch `switch_id` behind the remote `remote_id` to take the
    /// state `direction`.
    Publish { remote_id: i32, switch_id: i32, direction: SwitchState },
    /// Stop: a fatal failure was met.
    Halt,
}

/// The keeper's state, as the rules see it.
pub struct Schedule {
    /// The pending flips, first to last.
    pub queue: Seq<Flip>,
    /// The day for which the queue was loaded.
    pub date: Day,
    pub phase: Phase,
}

/// The publication of one flip.
pub open spec fn publication(flip: Flip) -> Action {
    Action::Publish {
        remote_id: flip.remote_id,
        switch_id: flip.switch_id,
        direction: flip.direction,
    }
}

impl Schedule {
    /// The queue is in descending order of due time.
    pub open spec fn wf(self) -> bool {
        sorted_desc(self.queue)
    }

    /// The keeper stops for good.
    pub open spec fn halt(self) -> (Schedule, Action) {
        (Schedule { phase: Phase::Halted, ..self }, Action::Halt)
    }

    /// One step of dispatch against the moment `at`: the last flip leaves the
    /// queue to be published if it is due, else the check is reported
    /// complete.
    pub open spec fn dispatch(self, at: Moment) -> (Schedule, Action) {
        if due_count(self.queue, at) > 0 {
            (
                Schedule { queue: self.queue.drop_last(), phase: Phase::Dispatching(at), ..self },
                publication(self.queue.last()),
            )
        } else {
            (
                Schedule { phase: Phase::Closing, ..self },
                Action::Report(ChannelMessage::FlipperComplete),
            )
        }
    }

    /// The queue replaced by the fetched flips, ordered, and stamped with
    /// the day `today`.
    pub open spec fn reload(self, fetched: Seq<Flip>, today: Day) -> Schedule {
        Schedule { queue: sort_desc(fetched), date: today, ..self }
    }

    /// The keeper's answer to `event` when the clock reads `clock`: its next
    /// state and what it asks of the driver.
    ///
    /// A check of a stale queue announces it, fetches, reports the reload,
    /// then dispatches. A check of a current queue dispatches at once.
    /// Dispatch publishes due flips from the back of the queue, one per step,
    /// all against the moment at which it began, and ends with the report
    /// that the check is complete. A refresh fetches, discards what is
    /// already due, and reports the reload; it publishes nothing. Any other
    /// command is ignored. Every failure is fatal, that of a report as much
    /// as that of the fetch or of a publication; so is an event that answers
    /// nothing the keeper asked.
    pub open spec fn next(self, event: Event, clock: Moment) -> (Schedule, Action) {
        match self.phase {
            Phase::Idle => match event {
                Event::Command(ChannelMessage::FlipperCheck) => {
                    if self.date != clock.day {
                        (
                            Schedule { phase: Phase::Announcing, ..self },
                            Action::Report(ChannelMessage::FlipperOutOfDate),
                        )
                    } else {
                        self.dispatch(clock)
                    }
                },
                Event::Command(ChannelMessage::FlipperRefresh) => (
                    Schedule { phase: Phase::Reloading, ..self },
                    Action::Fetch,
                ),
                Event::Command(_) => (self, Action::Receive),
                _ => self.halt(),
            },
            Phase::Announcing => match event {
                Event::Done => (Schedule { phase: Phase::Loading, ..self }, Action::Fetch),
                _ => self.halt(),
            },
            Phase::Loading => match event {
                Event::Fetched(flips) => (
                    Schedule { phase: Phase::Loaded, ..self.reload(flips@, clock.day) },
                    Action::Report(ChannelMessage::FlipperUpdated),
                ),
                _ => self.halt(),
            },
            Phase::Loaded => match event {
                Event::Done => self.dispatch(clock),
                _ => self.halt(),
            },
            Phase::Dispatching(at) => match event {
                Event::Done => self.dispatch(at),
                _ => self.halt(),
            },
            Phase::Closing => match event {
                Event::Done => (Schedule { phase: Phase::Idle, ..self }, Action::Receive),
                _ => self.halt(),
            },
            Phase::Reloading => match event {
                Event::Fetched(flips) => {
                    let loaded = self.reload(flips@, clock.day);
                    (
                        Schedule {
                            queue: kept(loaded.queue, clock),
                            phase: Phase::Closing,
                            ..loaded
                        },
                        Action::Report(ChannelMessage::FlipperUpdated),
                    )
                },
                _ => self.halt(),
            },
            Phase::Halted => self.halt(),
        }
    }
}

/// The schedule keeper.
pub struct Flipper {
    flips: FlipQueue,
    current_date: Day,
    phase: Phase,
    tx: Outbox,
    rx: Inbox,
}

impl View for Flipper {
    type V = Schedule;

    closed spec fn view(&self) -> Schedule {
        Schedule { queue: self.flips@, date: self.current_date, phase: self.phase }
    }
}

impl Flipper {
    /// The keeper's end of the channel to the supervisor, with the statuses
    /// that the keeper has reported.
    pub closed spec fn reports(&self) -> Outbox {
        self.tx
    }

    /// The keeper's end of the channel from the supervisor, with the
    /// commands that the keeper has received.
    pub closed spec fn commands(&self) -> Inbox {
        self.rx
    }

    /// The two keepers hold the same channel ends and have sent and received
    /// the same.
    pub open spec fn same_channels(&self, other: Flipper) -> bool {
        self.reports() == other.reports() && self.commands() == other.commands()
    }

    /// A keeper that reports on `tx` and takes its commands from `rx`. Its
    /// queue is empty and dated 24 hours back, so that the first check on
    /// any later day finds it stale.
    pub fn new(tx: Sender<ChannelMessage>, rx: Receiver<ChannelMessage>) -> (keeper: Flipper)
        ensures
            keeper@.queue == Seq::<Flip>::empty(),
            keeper@.phase == Phase::Idle,
            keeper@.date.wf(),
            keeper@.wf(),
            keeper.reports().sender() == tx,
            keeper.reports()@ == Seq::<ChannelMessage>::empty(),
            keeper.commands().receiver() == rx,
            keeper.commands()@ == Seq::<ChannelMessage>::empty(),
    {
        Flipper {
            flips: FlipQueue::new(),
            current_date: yesterday().day,
            phase: Phase::Idle,
            tx: Outbox::new(tx),
            rx: Inbox::new(rx),
        }
    }

    /// Whether the queue was loaded for another day than `today`.
    pub fn is_out_of_date(&self, today: &Day) -> (stale: bool)
        ensures
            stale == (self@.date != *today),
    {
        self.current_date != *today
    }

    /// Replaces the queue by the fetched flips, ordered, and stamps it with
    /// the day `today`.
    pub fn get_today(&mut self, fetched: Vec<Flip>, today: Day)
        ensures
            final(self)@ == old(self)@.reload(fetched@, today),
            final(self)@.wf(),
            final(self).same_channels(*old(self)),
    {
        self.flips = FlipQueue::from_unsorted(fetched);
        self.current_date = today;
    }

    /// Discards the flips that are already due at `now`, without publishing
    /// them.
    pub fn prune_today(&mut self, now: &Moment)
        ensures
            final(self)@ == (Schedule { queue: kept(old(self)@.queue, *now), ..old(self)@ }),
            old(self)@.wf() ==> final(self)@.wf(),
            final(self).same_channels(*old(self)),
    {
        self.flips.prune(now);
    }

    /// One step of dispatch against the moment `at`: hands out the last flip
    /// for publication if it is due, else the report that the check is
    /// complete.
    pub fn send(&mut self, at: &Moment) -> (action: Action)
        ensures
            (final(self)@, action) == old(self)@.dispatch(*at),
            old(self)@.wf() ==> final(self)@.wf(),
            final(self).same_channels(*old(self)),
    {
        match self.flips.pop_due(at) {
            Some(flip) => {
                self.phase = Phase::Dispatching(*at);
                Action::Publish {
                    remote_id: flip.remote_id,
                    switch_id: flip.switch_id,
                    direction: flip.direction,
                }
            },
            None => {
                self.phase = Phase::Closing;
                Action::Report(ChannelMessage::FlipperComplete)
            },
        }
    }

    /// Whether the last flip of the queue is due at `now`.
    pub fn ready_to_send(&self, now: &Moment) -> (ready: bool)
        ensures
            ready == (due_count(self@.queue, *now) > 0),
    {
        self.flips.ready(now)
    }

    /// The pending flips, first to last.
    pub fn pending(&self) -> (flips: Vec<Flip>)
        ensures
            flips@ == self@.queue,
    {
        self.flips.to_vec()
    }

    /// The day for which the queue was loaded.
    pub fn current_date(&self) -> (date: Day)
        ensures
            date == self@.date,
    {
        self.current_date
    }

    /// Where the keeper stands.
    pub fn phase(&self) -> (phase: Phase)
        ensures
            phase == self@.phase,
    {
        self.phase
    }

    fn halt(&mut self) -> (action: Action)
        ensures
            (final(self)@, action) == old(self)@.halt(),
            final(self).same_channels(*old(self)),
    {
        self.phase = Phase::Halted;
        Action::Halt
    }

    /// Answers `event`, the clock reading `clock`.
    pub fn advance(&mut self, event: Event, clock: &Moment) -> (action: Action)
        ensures
            (final(self)@, action) == old(self)@.next(event, *clock),
            old(self)@.wf() ==> final(self)@.wf(),
            final(self).same_channels(*old(self)),
    {
        match self.phase {
            Phase::Idle => match event {
                Event::Command(ChannelMessage::FlipperCheck) => {
                    if self.is_out_of_date(&clock.day) {
                        self.phase = Phase::Announcing;
                        Action::Report(ChannelMessage::FlipperOutOfDate)
                    } else {
                        self.send(clock)
                    }
                },
                Event::Command(ChannelMessage::FlipperRefresh) => {
                    self.phase = Phase::Reloading;
                    Action::Fetch
                },
                Event::Command(_) => Action::Receive,
                _ => self.halt(),
            },
            Phase::Announcing => match event {
                Event::Done => {
                    self.phase = Phase::Loading;
                    Action::Fetch
                },
                _ => self.halt(),
            },
            Phase::Loading => match event {
                Event::Fetched(flips) => {
                    self.get_today(flips, clock.day);
                    self.phase = Phase::Loaded;
                    Action::Report(ChannelMessage::FlipperUpdated)
                },
                _ => self.halt(),
            },
            Phase::Loaded => match event {
                Event::Done => self.send(clock),
                _ => self.halt(),
            },
            Phase::Dispatching(at) => match event {
                Event::Done => self.send(&at),
                _ => self.halt(),
            },
            Phase::Closing => match event {
                Event::Done => {
                    self.phase = Phase::Idle;
                    Action::Receive
                },
                _ => self.halt(),
            },
            Phase::Reloading => match event {
                Event::Fetched(flips) => {
                    self.get_today(flips, clock.day);
                    self.prune_today(clock);
                    self.phase = Phase::Closing;
                    Action::Report(ChannelMessage::FlipperUpdated)
                },
                _ => self.halt(),
            },
            Phase::Halted => self.halt(),
        }
    }

    /// Answers `event` at the time that the wall clock shows.
    pub fn step(&mut self, event: Event) -> (action: Action)
        ensures
            exists|clock: Moment|
                clock.wf() && (final(self)@, action) == #[trigger] old(self)@.next(event, clock),
            old(self)@.wf() ==> final(self)@.wf(),
            final(self).same_channels(*old(self)),
    {
        let clock = now();
        self.advance(event, &clock)
    }

    /// Waits for the next command. The keeper's schedule stays as it is.
    pub fn receive(&mut self) -> (got: Result<ChannelMessage, Error>)
        ensures
            match got {
                Ok(msg) => final(self).commands()@ == old(self).commands()@.push(msg),
                Err(e) => e is Rec && final(self).commands()@ == old(self).commands()@,
            },
            final(self).commands().receiver() == old(self).commands().receiver(),
            final(self).reports() == old(self).reports(),
            final(self)@ == old(self)@,
    {
        self.rx.recv()
    }

    /// Sends a status to the supervisor. The keeper's schedule stays as it
    /// is.
    pub fn report(&mut self, status: ChannelMessage) -> (outcome: Result<(), Error>)
        ensures
            match outcome {
                Ok(()) => final(self).reports()@ == old(self).reports()@.push(status),
                Err(e) => e is Send && final(self).reports()@ == old(self).reports()@,
            },
            final(self).reports().sender() == old(self).reports().sender(),
            final(self).commands() == old(self).commands(),
            final(self)@ == old(self)@,
    {
        self.tx.send(status)
    }
}

} // verus!
