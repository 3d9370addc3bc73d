//! Runs of the schedule keeper: what it asks for, in order, while its driver
//! answers.

use crate::clock::Moment;
use crate::data::Flip;
use crate::flipper::{publication, Action, Event, Phase, Schedule};
use crate::message::ChannelMessage;
use crate::queue::{
    due_count, kept, lemma_due_count_after_leaving, lemma_kept_and_released, lemma_kept_is_sorted,
    lemma_sort_desc, released, sort_desc,
};
use vstd::prelude::*;

verus! {

/// One event, and what the clock reads when the keeper answers it.
pub struct Turn {
    pub event: Event,
    pub clock: Moment,
}

/// The keeper's state after it has answered the turns, one after the other,
/// and the actions it has handed out, in order.
pub open spec fn run(start: Schedule, turns: Seq<Turn>) -> (Schedule, Seq<Action>)
    decreases turns.len(),
{
    if turns.len() == 0 {
        (start, Seq::empty())
    } else {
        let (state, actions) = run(start, turns.drop_last());
        let (after, action) = state.next(turns.last().event, turns.last().clock);
        (after, actions.push(action))
    }
}

/// The publications of the given flips, in their order.
pub open spec fn publications(flips: Seq<Flip>) -> Seq<Action> {
    flips.map_values(|flip: Flip| publication(flip))
}

/// A run may be cut in two: the second part starts where the first ended.
pub proof fn lemma_run_in_two(start: Schedule, first: Seq<Turn>, second: Seq<Turn>)
    ensures
        run(start, first + second).0 == run(run(start, first).0, second).0,
        run(start, first + second).1 =~= run(start, first).1 + run(run(start, first).0, second).1,
    decreases second.len(),
{
    if second.len() > 0 {
        lemma_run_in_two(start, first, second.drop_last());
        assert((first + second).drop_last() =~= first + second.drop_last());
    }
}

/// Every step keeps the queue in descending order of due time.
pub proof fn lemma_next_keeps_order(state: Schedule, event: Event, clock: Moment)
    requires
        state.wf(),
    ensures
        state.next(event, clock).0.wf(),
{
    match event {
        Event::Fetched(flips) => {
            lemma_sort_desc(flips@);
            lemma_kept_is_sorted(sort_desc(flips@), clock);
        },
        _ => {},
    }
}

/// The queue stays in descending order of due time through every run.
pub proof fn lemma_run_keeps_order(start: Schedule, turns: Seq<Turn>)
    requires
        start.wf(),
    ensures
        run(start, turns).0.wf(),
    decreases turns.len(),
{
    if turns.len() > 0 {
        lemma_run_keeps_order(start, turns.drop_last());
        lemma_next_keeps_order(
            run(start, turns.drop_last()).0,
            turns.last().event,
            turns.last().clock,
        );
    }
}

/// A keeper that has halted stays halted: whatever its driver tells it, it
/// asks for nothing but to stop, and its queue and date stay as they were.
pub proof fn lemma_halted_for_good(start: Schedule, turns: Seq<Turn>)
    requires
        start.phase == Phase::Halted,
    ensures
        run(start, turns).0 == start,
        run(start, turns).1.len() == turns.len(),
        forall|i: int| 0 <= i < turns.len() ==> run(start, turns).1[i] == Action::Halt,
    decreases turns.len(),
{
    if turns.len() > 0 {
        lemma_halted_for_good(start, turns.drop_last());
    }
}

/// The keeper asks for a publication only while it handles a check, and
/// only of a queue that is current: one that the check found loaded for the
/// day, or one that the check has just reloaded.
pub proof fn lemma_publication_needs_current_queue(state: Schedule, event: Event, clock: Moment)
    requires
        state.next(event, clock).1 is Publish,
    ensures
        event is Done || event == Event::Command(ChannelMessage::FlipperCheck),
        match state.phase {
            Phase::Idle => state.date == clock.day,
            Phase::Loaded => true,
            Phase::Dispatching(_) => true,
            _ => false,
        },
        state.queue.len() > 0,
        state.next(event, clock).1 == publication(state.queue.last()),
        state.next(event, clock).0.queue == state.queue.drop_last(),
{
}

/// Dispatch, once begun, publishes the flips that are due at the moment it
/// began, from the back of the queue, for as long as each publication is
/// reported done, and then reports the check complete.
///
/// The first turn is the one that begins dispatch against the moment `at`;
/// the others report a publication done. There is one turn for each flip
/// that is due and one more. The actions are the publications of the due
/// flips, the last flip of the queue first, and after them the report. The
/// flips that were not due stay in the queue as they were.
pub proof fn lemma_dispatch_run(start: Schedule, turns: Seq<Turn>, at: Moment)
    requires
        turns.len() >= 1,
        turns.len() == due_count(start.queue, at) + 1,
        start.next(turns[0].event, turns[0].clock) == start.dispatch(at),
        forall|i: int| 1 <= i < turns.len() ==> turns[i].event is Done,
    ensures
        run(start, turns).0 == (Schedule {
            queue: kept(start.queue, at),
            phase: Phase::Closing,
            ..start
        }),
        run(start, turns).1 =~= publications(released(start.queue, at)).push(
            Action::Report(ChannelMessage::FlipperComplete),
        ),
{
    let q = start.queue;
    let n = due_count(q, at);
    lemma_kept_and_released(q, at);
    lemma_dispatch_prefix(start, turns, at, n);
    lemma_due_count_after_leaving(q, at, n);
}

/// The first `n` turns of a dispatch publish the last `n` flips of the
/// queue, if that many are due.
proof fn lemma_dispatch_prefix(start: Schedule, turns: Seq<Turn>, at: Moment, n: nat)
    requires
        n <= due_count(start.queue, at),
        n < turns.len(),
        start.next(turns[0].event, turns[0].clock) == start.dispatch(at),
        forall|i: int| 1 <= i < turns.len() ==> turns[i].event is Done,
    ensures
        n <= start.queue.len(),
        run(start, turns.take(n as int)).0 == (Schedule {
            queue: start.queue.take(start.queue.len() - n),
            phase: if n == 0 {
                start.phase
            } else {
                Phase::Dispatching(at)
            },
            ..start
        }),
        run(start, turns.take(n as int)).1 =~= publications(
            released(start.queue, at).take(n as int),
        ),
    decreases n,
{
    let q = start.queue;
    lemma_kept_and_released(q, at);
    if n == 0 {
        assert(q.take(q.len() as int) =~= q);
    } else {
        let m = (n - 1) as nat;
        lemma_dispatch_prefix(start, turns, at, m);
        lemma_due_count_after_leaving(q, at, m);
        assert(turns.take(n as int).drop_last() =~= turns.take(m as int));
        let before = run(start, turns.take(m as int)).0;
        assert(before.queue.drop_last() =~= q.take(q.len() - n));
    }
}

/// A check of a queue that is current dispatches at once: the keeper asks
/// for the publication of each flip that is due when the check arrives, the
/// last flip of the queue first, then reports the check complete, then
/// waits for the next command. The flips that were not due stay as they were.
pub proof fn lemma_check_of_current_queue(start: Schedule, turns: Seq<Turn>)
    requires
        start.phase == Phase::Idle,
        turns.len() >= 2,
        turns.len() == due_count(start.queue, turns[0].clock) + 2,
        turns[0].event == Event::Command(ChannelMessage::FlipperCheck),
        start.date == turns[0].clock.day,
        forall|i: int| 1 <= i < turns.len() ==> turns[i].event is Done,
    ensures
        run(start, turns).0 == (Schedule {
            queue: kept(start.queue, turns[0].clock),
            phase: Phase::Idle,
            ..start
        }),
        run(start, turns).1 =~= publications(released(start.queue, turns[0].clock)).push(
            Action::Report(ChannelMessage::FlipperComplete),
        ).push(Action::Receive),
{
    let at = turns[0].clock;
    let body = turns.drop_last();
    lemma_dispatch_run(start, body, at);
    lemma_run_in_two(start, body, seq![turns.last()]);
    lemma_run_of_one(run(start, body).0, turns.last());
}

/// A check of a queue that is stale goes through these steps, in this order
/// and each once: the keeper announces that the queue is out of date;
/// fetches; reports the reload;
/// dispatches, asking for the publication of each flip of the new queue that
/// is due when dispatch begins; reports the check complete; waits for the
/// next command.
pub proof fn lemma_check_of_stale_queue(start: Schedule, turns: Seq<Turn>, fetched: Vec<Flip>)
    requires
        start.phase == Phase::Idle,
        turns.len() >= 5,
        turns.len() == due_count(sort_desc(fetched@), turns[3].clock) + 5,
        turns[0].event == Event::Command(ChannelMessage::FlipperCheck),
        start.date != turns[0].clock.day,
        turns[1].event is Done,
        turns[2].event == Event::Fetched(fetched),
        forall|i: int| 3 <= i < turns.len() ==> turns[i].event is Done,
    ensures
        run(start, turns).0 == (Schedule {
            queue: kept(sort_desc(fetched@), turns[3].clock),
            date: turns[2].clock.day,
            phase: Phase::Idle,
        }),
        run(start, turns).1 =~= seq![
            Action::Report(ChannelMessage::FlipperOutOfDate),
            Action::Fetch,
            Action::Report(ChannelMessage::FlipperUpdated),
        ] + publications(released(sort_desc(fetched@), turns[3].clock)).push(
            Action::Report(ChannelMessage::FlipperComplete),
        ).push(Action::Receive),
{
    reveal_with_fuel(run, 4);
    let at = turns[3].clock;
    let opening = turns.take(3);
    let rest = turns.skip(3);
    assert(turns =~= opening + rest);
    lemma_run_in_two(start, opening, rest);
    let loaded = run(start, opening).0;
    assert(loaded == Schedule {
        queue: sort_desc(fetched@),
        date: turns[2].clock.day,
        phase: Phase::Loaded,
    });
    let body = rest.drop_last();
    lemma_dispatch_run(loaded, body, at);
    lemma_run_in_two(loaded, body, seq![rest.last()]);
    lemma_run_of_one(run(loaded, body).0, rest.last());
}

/// A run of one turn is one step.
proof fn lemma_run_of_one(start: Schedule, turn: Turn)
    ensures
        run(start, seq![turn]).0 == start.next(turn.event, turn.clock).0,
        run(start, seq![turn]).1 =~= seq![start.next(turn.event, turn.clock).1],
{
    reveal_with_fuel(run, 2);
}

/// A refresh never asks for a publication, whatever the queue holds and
/// whatever the driver answers: the keeper asks for the fetch, then reports
/// the reload or halts, then waits for the next command or halts.
pub proof fn lemma_refresh_publishes_nothing(
    start: Schedule,
    first: Moment,
    second: Turn,
    third: Turn,
)
    requires
        start.phase == Phase::Idle,
    ensures
        ({
            let (fetching, asked) = start.next(
                Event::Command(ChannelMessage::FlipperRefresh),
                first,
            );
            let (closing, reported) = fetching.next(second.event, second.clock);
            let (after, last) = closing.next(third.event, third.clock);
            &&& asked == Action::Fetch
            &&& reported == Action::Report(ChannelMessage::FlipperUpdated) || reported
                == Action::Halt
            &&& last == Action::Receive || last == Action::Halt
            &&& after.phase == Phase::Idle || after.phase == Phase::Halted
        }),
{
}

/// A refresh that meets no failure replaces the queue by the fetched flips,
/// ordered, less those already due when they arrive, and asks for the fetch,
/// the report of the reload and the next command, in this order.
pub proof fn lemma_refresh_run(start: Schedule, turns: Seq<Turn>, fetched: Vec<Flip>)
    requires
        start.phase == Phase::Idle,
        turns.len() == 3,
        turns[0].event == Event::Command(ChannelMessage::FlipperRefresh),
        turns[1].event == Event::Fetched(fetched),
        turns[2].event is Done,
    ensures
        run(start, turns).0 == (Schedule {
            queue: kept(sort_desc(fetched@), turns[1].clock),
            date: turns[1].clock.day,
            phase: Phase::Idle,
        }),
        run(start, turns).1 =~= seq![
            Action::Fetch,
            Action::Report(ChannelMessage::FlipperUpdated),
            Action::Receive,
        ],
{
    reveal_with_fuel(run, 4);
}

/// A failure halts the keeper wherever it is met, and the keeper asks for
/// nothing more: a report that cannot be sent, the first one of a check
/// included, is followed by no fetch, a fetch that fails by no report, a
/// publication that fails by no other, a command that cannot be received by
/// nothing at all. The queue and its date stay as they were: a flip whose
/// publication failed has left the queue with those published before it,
/// and none is put back.
pub proof fn lemma_failure_halts(state: Schedule, clock: Moment)
    ensures
        state.next(Event::Failed, clock) == (
            Schedule { phase: Phase::Halted, ..state },
            Action::Halt,
        ),
{
}

} // verus!
