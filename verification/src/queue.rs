//! The day's pending flips, latest first.
//!
//! The queue is kept in descending order of due time, so that the flip that
//! comes due next is always at the back. Flips leave the queue from the back
//! only, one by one, for as long as the last one is due.

use crate::clock::Moment;
use crate::data::Flip;
use vstd::prelude::*;

verus! {

/// The time by which flips are ordered: minutes from midnight.
pub open spec fn due_minute(flip: Flip) -> int {
    flip.time.minute_of_day()
}

/// No flip stands before one that is due later than it.
pub open spec fn sorted_desc(q: Seq<Flip>) -> bool {
    forall|i: int, j: int| 0 <= i < j < q.len() ==> due_minute(q[i]) >= due_minute(q[j])
}

/// `q`, ordered, with `flip` put in behind every flip that is due no earlier.
pub open spec fn insert_desc(q: Seq<Flip>, flip: Flip) -> Seq<Flip>
    decreases q.len(),
{
    if q.len() > 0 && due_minute(q.last()) < due_minute(flip) {
        insert_desc(q.drop_last(), flip).push(q.last())
    } else {
        q.push(flip)
    }
}

/// The flips of `s` in descending order of due time; flips due at the same
/// minute keep the order they had in `s`.
pub open spec fn sort_desc(s: Seq<Flip>) -> Seq<Flip>
    decreases s.len(),
{
    if s.len() == 0 {
        s
    } else {
        insert_desc(sort_desc(s.drop_last()), s.last())
    }
}

/// How many flips at the back of `q` are due at `now`, counting from the
/// last one and stopping at the first that is not.
pub open spec fn due_count(q: Seq<Flip>, now: Moment) -> nat
    decreases q.len(),
{
    if q.len() > 0 && q.last().time.due_by(now) {
        1 + due_count(q.drop_last(), now)
    } else {
        0
    }
}

/// What stays in `q` once the flips due at `now` have left from the back.
pub open spec fn kept(q: Seq<Flip>, now: Moment) -> Seq<Flip> {
    q.take(q.len() - due_count(q, now))
}

/// The flips that leave `q` at `now`, in the order in which they leave: the
/// last one first.
pub open spec fn released(q: Seq<Flip>, now: Moment) -> Seq<Flip> {
    q.skip(q.len() - due_count(q, now)).reverse()
}

/// Putting a flip into an ordered queue keeps it ordered, and adds that flip
/// and nothing else.
pub proof fn lemma_insert_desc(q: Seq<Flip>, flip: Flip)
    requires
        sorted_desc(q),
    ensures
        sorted_desc(insert_desc(q, flip)),
        insert_desc(q, flip).len() == q.len() + 1,
        insert_desc(q, flip).to_multiset() =~= q.to_multiset().insert(flip),
    decreases q.len(),
{
    broadcast use vstd::seq_lib::group_to_multiset_ensures;

    if q.len() > 0 && due_minute(q.last()) < due_minute(flip) {
        let front = q.drop_last();
        let inner = insert_desc(front, flip);
        lemma_insert_desc(front, flip);
        assert(q =~= front.push(q.last()));
        let out = inner.push(q.last());
        assert forall|i: int, j: int| 0 <= i < j < out.len() implies due_minute(out[i])
            >= due_minute(out[j]) by {
            if j == out.len() - 1 {
                assert(inner.to_multiset().count(inner[i]) > 0);
            }
        }
    }
}

/// Sorting orders the flips and neither adds nor loses one.
pub proof fn lemma_sort_desc(s: Seq<Flip>)
    ensures
        sorted_desc(sort_desc(s)),
        sort_desc(s).len() == s.len(),
        sort_desc(s).to_multiset() =~= s.to_multiset(),
    decreases s.len(),
{
    broadcast use vstd::seq_lib::group_to_multiset_ensures;

    if s.len() > 0 {
        lemma_sort_desc(s.drop_last());
        lemma_insert_desc(sort_desc(s.drop_last()), s.last());
        assert(s =~= s.drop_last().push(s.last()));
    }
}

/// Where a flip goes: directly behind the last flip that is due no earlier.
proof fn lemma_insert_position(q: Seq<Flip>, flip: Flip, at: int)
    requires
        0 <= at <= q.len(),
        forall|k: int| at <= k < q.len() ==> due_minute(q[k]) < due_minute(flip),
        at > 0 ==> due_minute(q[at - 1]) >= due_minute(flip),
    ensures
        insert_desc(q, flip) =~= q.insert(at, flip),
    decreases q.len() - at,
{
    if at < q.len() {
        lemma_insert_position(q.drop_last(), flip, at);
    }
}

/// The flips counted by [`due_count`] are the longest run of due flips at the
/// back of the queue: each of them is due, and the flip before them, if there
/// is one, is not.
pub proof fn lemma_due_count_is_longest_due_suffix(q: Seq<Flip>, now: Moment)
    ensures
        due_count(q, now) <= q.len(),
        forall|i: int| q.len() - due_count(q, now) <= i < q.len() ==> q[i].time.due_by(now),
        due_count(q, now) < q.len() ==> !q[q.len() - due_count(q, now) - 1].time.due_by(now),
    decreases q.len(),
{
    if q.len() > 0 && q.last().time.due_by(now) {
        let front = q.drop_last();
        lemma_due_count_is_longest_due_suffix(front, now);
        assert forall|i: int| q.len() - due_count(q, now) <= i < q.len() implies q[i].time.due_by(
            now,
        ) by {
            if i < front.len() {
                assert(q[i] == front[i]);
            }
        }
    }
}

/// Any run of due flips at the back that cannot be made longer is the one
/// that [`due_count`] counts.
pub proof fn lemma_longest_due_suffix_is_due_count(q: Seq<Flip>, now: Moment, n: nat)
    requires
        n <= q.len(),
        forall|i: int| q.len() - n <= i < q.len() ==> q[i].time.due_by(now),
        n < q.len() ==> !q[q.len() - n - 1].time.due_by(now),
    ensures
        due_count(q, now) == n,
    decreases q.len(),
{
    if n > 0 {
        lemma_longest_due_suffix_is_due_count(q.drop_last(), now, (n - 1) as nat);
    }
}

/// Counting the due flips of a queue that has lost `n` of them from the back
/// finds the rest of them.
pub proof fn lemma_due_count_after_leaving(q: Seq<Flip>, now: Moment, n: nat)
    requires
        n <= due_count(q, now),
    ensures
        n <= q.len(),
        due_count(q.take(q.len() - n), now) == due_count(q, now) - n,
    decreases n,
{
    lemma_due_count_is_longest_due_suffix(q, now);
    if n == 0 {
        assert(q.take(q.len() as int) =~= q);
    } else {
        lemma_due_count_after_leaving(q.drop_last(), now, (n - 1) as nat);
        assert(q.drop_last().take(q.len() - 1 - (n - 1)) =~= q.take(q.len() - n));
    }
}

/// The flips that leave and the flips that stay make up the queue: what
/// stays is the front of the queue, untouched, and what leaves is the rest,
/// taken from the back.
pub proof fn lemma_kept_and_released(q: Seq<Flip>, now: Moment)
    ensures
        due_count(q, now) <= q.len(),
        released(q, now).len() == due_count(q, now),
        kept(q, now) + released(q, now).reverse() =~= q,
        forall|i: int|
            0 <= i < released(q, now).len() ==> #[trigger] released(q, now)[i] == q[q.len() - 1
                - i],
        forall|i: int| 0 <= i < released(q, now).len() ==> released(q, now)[i].time.due_by(now),
{
    lemma_due_count_is_longest_due_suffix(q, now);
}

/// Where every flip is due, every flip leaves: nothing stays. So it is with
/// the empty queue, which stays as it is.
pub proof fn lemma_all_due_leave(q: Seq<Flip>, now: Moment)
    requires
        forall|i: int| 0 <= i < q.len() ==> q[i].time.due_by(now),
    ensures
        due_count(q, now) == q.len(),
        kept(q, now) =~= Seq::<Flip>::empty(),
{
    lemma_longest_due_suffix_is_due_count(q, now, q.len());
}

/// Where the last flip is not due, or there is none, no flip leaves.
pub proof fn lemma_none_leave(q: Seq<Flip>, now: Moment)
    requires
        q.len() > 0 ==> !q.last().time.due_by(now),
    ensures
        due_count(q, now) == 0,
        kept(q, now) =~= q,
{
}

/// What stays of an ordered queue is ordered.
pub proof fn lemma_kept_is_sorted(q: Seq<Flip>, now: Moment)
    requires
        sorted_desc(q),
    ensures
        sorted_desc(kept(q, now)),
{
    lemma_due_count_is_longest_due_suffix(q, now);
}

/// The flips leave an ordered queue earliest first: none leaves before one
/// that is due earlier than it.
pub proof fn lemma_released_earliest_first(q: Seq<Flip>, now: Moment)
    requires
        sorted_desc(q),
    ensures
        forall|i: int, j: int|
            0 <= i < j < released(q, now).len() ==> due_minute(released(q, now)[i]) <= due_minute(
                released(q, now)[j],
            ),
{
    lemma_kept_and_released(q, now);
}

/// No two flips of the queue are due at the same minute, and none stands
/// before one that is due later.
pub open spec fn strictly_desc(q: Seq<Flip>) -> bool {
    forall|i: int, j: int| 0 <= i < j < q.len() ==> due_minute(q[i]) > due_minute(q[j])
}

/// From a queue in which no two flips are due at the same minute, each flip
/// leaves strictly before every flip that is due later: in the queue the
/// times fall strictly from flip to flip, and the flips leave in the reverse
/// of that.
pub proof fn lemma_released_strictly_earliest_first(q: Seq<Flip>, now: Moment)
    requires
        strictly_desc(q),
    ensures
        forall|i: int, j: int|
            0 <= i < j < released(q, now).len() ==> due_minute(released(q, now)[i]) < due_minute(
                released(q, now)[j],
            ),
{
    lemma_kept_and_released(q, now);
}

/// What leaves an ordered queue at `now`, and how: the flips that leave are
/// the longest run of due flips at the back of the queue; they leave from
/// the back, each before every flip that stood in front of it, so that none
/// leaves before one that is due earlier; the flips in front of them stay
/// where they are.
pub proof fn lemma_dispatch_order(q: Seq<Flip>, now: Moment)
    requires
        sorted_desc(q),
    ensures
        due_count(q, now) <= q.len(),
        kept(q, now) + released(q, now).reverse() =~= q,
        released(q, now).len() == due_count(q, now),
        forall|i: int|
            0 <= i < due_count(q, now) ==> #[trigger] released(q, now)[i] == q[q.len() - 1 - i]
                && q[q.len() - 1 - i].time.due_by(now),
        due_count(q, now) < q.len() ==> !q[q.len() - due_count(q, now) - 1].time.due_by(now),
        forall|i: int, j: int|
            0 <= i < j < due_count(q, now) ==> due_minute(#[trigger] released(q, now)[i])
                <= due_minute(#[trigger] released(q, now)[j]),
        sorted_desc(kept(q, now)),
{
    lemma_due_count_is_longest_due_suffix(q, now);
    lemma_kept_and_released(q, now);
    lemma_released_earliest_first(q, now);
    lemma_kept_is_sorted(q, now);
}

/// In an ordered queue in which every flip whose time has been reached is
/// due, the flips that leave are exactly those whose time has been reached.
///
/// Without the second condition a flip whose time has been reached may stay:
/// at 10:15 the queue holding one flip for 9:30 stays as it is.
pub proof fn lemma_released_are_the_elapsed(q: Seq<Flip>, now: Moment)
    requires
        sorted_desc(q),
        forall|i: int| 0 <= i < q.len() && q[i].time.elapsed_by(now) ==> q[i].time.due_by(now),
    ensures
        forall|i: int|
            0 <= i < q.len() ==> (q[i].time.elapsed_by(now) <==> q.len() - due_count(q, now) <= i),
{
    lemma_due_count_is_longest_due_suffix(q, now);
    let n = q.len() - due_count(q, now);
    assert forall|i: int| 0 <= i < q.len() implies (q[i].time.elapsed_by(now) <==> n <= i) by {
        if n <= i {
            q[i].time.lemma_due_has_elapsed(now);
        }
    }
}

/// The pending flips of the day, in descending order of due time.
pub struct FlipQueue {
    flips: Vec<Flip>,
}

impl View for FlipQueue {
    type V = Seq<Flip>;

    closed spec fn view(&self) -> Seq<Flip> {
        self.flips@
    }
}

impl FlipQueue {
    /// The queue is in descending order of due time. Every queue that
    /// [`FlipQueue::new`] or [`FlipQueue::from_unsorted`] makes is, and no
    /// method changes that.
    pub open spec fn wf(&self) -> bool {
        sorted_desc(self@)
    }

    /// A queue without flips.
    pub fn new() -> (q: FlipQueue)
        ensures
            q@ == Seq::<Flip>::empty(),
            q.wf(),
    {
        FlipQueue { flips: Vec::new() }
    }

    /// The queue of the given flips, whatever order they come in.
    pub fn from_unsorted(flips: Vec<Flip>) -> (q: FlipQueue)
        ensures
            q@ == sort_desc(flips@),
            q.wf(),
    {
        let mut out: Vec<Flip> = Vec::new();
        let mut i: usize = 0;
        while i < flips.len()
            invariant
                i <= flips.len(),
                out@ == sort_desc(flips@.take(i as int)),
            decreases flips.len() - i,
        {
            let flip = flips[i];
            let minute: i64 = flip.time.minutes();
            let mut at: usize = out.len();
            while at > 0 && out[at - 1].time.minutes() < minute
                invariant
                    at <= out.len(),
                    minute == due_minute(flip),
                    forall|k: int| at <= k < out.len() ==> due_minute(out@[k]) < due_minute(flip),
                decreases at,
            {
                at -= 1;
            }
            proof {
                lemma_insert_position(out@, flip, at as int);
                assert(flips@.take(i + 1).drop_last() =~= flips@.take(i as int));
            }
            out.insert(at, flip);
            i += 1;
        }
        proof {
            assert(flips@.take(i as int) =~= flips@);
            lemma_sort_desc(flips@);
        }
        FlipQueue { flips: out }
    }

    /// The number of pending flips.
    pub fn len(&self) -> (n: usize)
        ensures
            n == self@.len(),
    {
        self.flips.len()
    }

    /// The flips, first to last.
    pub fn to_vec(&self) -> (flips: Vec<Flip>)
        ensures
            flips@ == self@,
    {
        self.flips.clone()
    }

    /// Whether the last flip is due at `now`.
    pub fn ready(&self, now: &Moment) -> (due: bool)
        ensures
            due == (due_count(self@, *now) > 0),
    {
        let n: usize = self.flips.len();
        n > 0 && self.flips[n - 1].time.lte(now)
    }

    /// Takes the last flip off the queue if it is due at `now`.
    pub fn pop_due(&mut self, now: &Moment) -> (flip: Option<Flip>)
        ensures
            match flip {
                Some(f) => {
                    &&& due_count(old(self)@, *now) > 0
                    &&& f == old(self)@.last()
                    &&& final(self)@ == old(self)@.drop_last()
                },
                None => due_count(old(self)@, *now) == 0 && final(self)@ == old(self)@,
            },
            old(self).wf() ==> final(self).wf(),
    {
        if self.ready(now) {
            self.flips.pop()
        } else {
            None
        }
    }

    /// Discards the flips that are due at `now`, from the back, until the
    /// last flip is not due or the queue is empty.
    pub fn prune(&mut self, now: &Moment)
        ensures
            final(self)@ == kept(old(self)@, *now),
            old(self).wf() ==> final(self).wf(),
    {
        while self.ready(now)
            invariant
                self@.len() <= old(self)@.len(),
                self@ == old(self)@.take(self@.len() as int),
                due_count(old(self)@, *now) == due_count(self@, *now) + (old(self)@.len()
                    - self@.len()),
            decreases self@.len(),
        {
            self.flips.pop();
        }
    }
}

} // verus!
