use vstd::prelude::*;

use crate::event_loop::EventLoop;
use crate::task::{Key, TaskId};

verus! {

/// Identifier of one repeating timer in a `Timers` queue.
#[derive(Clone, Copy, Debug, PartialEq, Eq, Structural, Hash)]
pub struct TimerId(pub usize);

/// One scheduled repeating timer. Instants and periods are ticks of a
/// monotonic clock supplied by the caller.
#[derive(Clone, Copy, Debug, PartialEq, Eq, Structural)]
pub struct TimerEntry {
    pub id: TimerId,
    pub due: u64,
    pub period: u64,
    pub task: TaskId,
    pub key: Key,
}

/// A firing to be routed to the timer's task.
#[derive(Clone, Copy, Debug, PartialEq, Eq, Structural)]
pub struct Fired {
    pub id: TimerId,
    pub task: TaskId,
    pub key: Key,
}

/// The time a fired timer is due next: one period after the instant it was
/// due, but never in the past, so a stalled loop does not build a backlog.
/// The sum saturates at the clock's largest value.
pub open spec fn next_due(due: u64, period: u64, now: u64) -> u64 {
    let later = if due + period > u64::MAX {
        u64::MAX
    } else {
        (due + period) as u64
    };
    if later < now {
        now
    } else {
        later
    }
}

pub open spec fn fired_of(e: TimerEntry) -> Fired {
    Fired { id: e.id, task: e.task, key: e.key }
}

/// The entry after a pump pass at `now`: rescheduled when it was due
/// strictly before `now`, untouched otherwise.
pub open spec fn rescheduled(e: TimerEntry, now: u64) -> TimerEntry {
    if e.due < now {
        TimerEntry { due: next_due(e.due, e.period, now), ..e }
    } else {
        e
    }
}

/// The firings of a pump pass at `now`, in queue order: each entry due
/// strictly before `now`, once.
pub open spec fn due_fired(s: Seq<TimerEntry>, now: u64) -> Seq<Fired>
    decreases s.len(),
{
    if s.len() == 0 {
        Seq::empty()
    } else {
        let rest = due_fired(s.drop_last(), now);
        if s.last().due < now {
            rest.push(fired_of(s.last()))
        } else {
            rest
        }
    }
}

/// The queue after a pump pass at `now`.
pub open spec fn poll_spec(s: Seq<TimerEntry>, now: u64) -> Seq<TimerEntry> {
    s.map_values(|e: TimerEntry| rescheduled(e, now))
}

/// Timer ids in the queue are distinct and all below `next`.
pub open spec fn ids_fresh(s: Seq<TimerEntry>, next: usize) -> bool {
    &&& forall|i: int, j: int| 0 <= i < j < s.len() ==> s[i].id != s[j].id
    &&& forall|i: int| 0 <= i < s.len() ==> s[i].id.0 < next
}

/// A software timer queue: the substrate for backends without a native
/// repeating timer of adequate resolution. The entries sit in a vector in
/// scheduling order, ids unique; the earliest due time is found by a scan
/// rather than kept at the top of a heap.
pub struct Timers {
    next_id: usize,
    entries: Vec<TimerEntry>,
}

impl Timers {
    pub closed spec fn view(&self) -> Seq<TimerEntry> {
        self.entries@
    }

    pub closed spec fn next_id(&self) -> usize {
        self.next_id
    }

    pub open spec fn wf(&self) -> bool {
        ids_fresh(self@, self.next_id())
    }

    pub fn new() -> (r: Timers)
        ensures
            r.wf(),
            r@ == Seq::<TimerEntry>::empty(),
    {
        Timers { next_id: 0, entries: Vec::new() }
    }

    /// Whether a timer can still fire: it has not been canceled.
    pub fn is_active(&self, id: TimerId) -> (r: bool)
        ensures
            r == exists|i: int| 0 <= i < self@.len() && self@[i].id == id,
    {
        let mut i: usize = 0;
        while i < self.entries.len()
            invariant
                0 <= i <= self@.len(),
                self@ == self.entries@,
                forall|j: int| 0 <= j < i ==> self@[j].id != id,
            decreases self@.len() - i,
        {
            if self.entries[i].id == id {
                return true;
            }
            i = i + 1;
        }
        false
    }

    /// Schedules a repeating timer, first due one period after `now`.
    pub fn repeat(&mut self, now: u64, period: u64, task: TaskId, key: Key) -> (r: TimerId)
        requires
            old(self).wf(),
            old(self).next_id() < usize::MAX,
        ensures
            final(self).wf(),
            r == TimerId(old(self).next_id()),
            final(self)@ == old(self)@.push(
                TimerEntry { id: r, due: next_due(now, period, 0), period, task, key },
            ),
    {
        let id = TimerId(self.next_id);
        self.next_id = self.next_id + 1;
        let due = now.saturating_add(period);
        self.entries.push(TimerEntry { id, due, period, task, key });
        id
    }

    /// Cancels a timer; canceling twice, or a timer that never existed, is
    /// harmless.
    pub fn cancel(&mut self, id: TimerId)
        requires
            old(self).wf(),
        ensures
            final(self).wf(),
            final(self).next_id() == old(self).next_id(),
            forall|i: int|
                0 <= i < old(self)@.len() && old(self)@[i].id == id ==> final(self)@
                    == old(self)@.remove(i),
            (forall|i: int| 0 <= i < old(self)@.len() ==> old(self)@[i].id != id)
                ==> final(self)@ == old(self)@,
    {
        let mut i: usize = 0;
        while i < self.entries.len()
            invariant
                0 <= i <= self@.len(),
                self@ == self.entries@,
                self@ == old(self)@,
                self.next_id == old(self).next_id,
                ids_fresh(self@, self.next_id),
                forall|j: int| 0 <= j < i ==> self@[j].id != id,
            decreases self@.len() - i,
        {
            if self.entries[i].id == id {
                self.entries.remove(i);
                proof {
                    let s = old(self)@;
                    assert forall|k: int| 0 <= k < s.len() && s[k].id == id implies k == i by {
                        if k < i {
                            assert(s[k].id != s[i as int].id);
                        } else if k > i {
                            assert(s[i as int].id != s[k].id);
                        }
                    }
                    let t = self.entries@;
                    assert forall|a: int, b: int| 0 <= a < b < t.len() implies t[a].id
                        != t[b].id by {
                        let a2 = if a < i { a } else { a + 1 };
                        let b2 = if b < i { b } else { b + 1 };
                        assert(t[a] == s[a2]);
                        assert(t[b] == s[b2]);
                        assert(a2 < b2);
                    }
                    assert forall|a: int| 0 <= a < t.len() implies t[a].id.0 < self.next_id by {
                        let a2 = if a < i { a } else { a + 1 };
                        assert(t[a] == s[a2]);
                    }
                }
                return;
            }
            i = i + 1;
        }
    }

    /// The earliest instant at which some timer is due.
    pub fn next_time(&self) -> (r: Option<u64>)
        ensures
            r.is_none() == (self@.len() == 0),
            r matches Some(t) ==> (exists|i: int| 0 <= i < self@.len() && self@[i].due == t)
                && (forall|i: int| 0 <= i < self@.len() ==> t <= self@[i].due),
    {
        if self.entries.len() == 0 {
            return None;
        }
        let mut best: u64 = self.entries[0].due;
        let mut i: usize = 1;
        assert(self@[0].due == best);
        while i < self.entries.len()
            invariant
                1 <= i <= self@.len(),
                self@ == self.entries@,
                exists|k: int| 0 <= k < i && self@[k].due == best,
                forall|k: int| 0 <= k < i ==> best <= self@[k].due,
            decreases self@.len() - i,
        {
            if self.entries[i].due < best {
                best = self.entries[i].due;
            }
            i = i + 1;
        }
        Some(best)
    }

    /// How long the pump may block waiting for native events at `now`:
    /// until the earliest timer is due (zero if it already is), or without
    /// limit when no timer is scheduled.
    pub fn wait_timeout(&self, now: u64) -> (r: Option<u64>)
        ensures
            r.is_none() == (self@.len() == 0),
            r matches Some(t) ==> exists|i: int|
                0 <= i < self@.len() && (forall|j: int| 0 <= j < self@.len() ==> self@[i].due
                    <= self@[j].due) && t == (if self@[i].due > now {
                    self@[i].due - now
                } else {
                    0
                }),
    {
        match self.next_time() {
            Some(due) => Some(due.saturating_sub(now)),
            None => None,
        }
    }

    /// One pump pass at `now`: fires, once each, the timers due strictly
    /// before `now`, and reschedules each of them at
    /// `max(now, due + period)`.
    pub fn poll(&mut self, now: u64) -> (r: Vec<Fired>)
        requires
            old(self).wf(),
        ensures
            final(self).wf(),
            final(self).next_id() == old(self).next_id(),
            final(self)@ == poll_spec(old(self)@, now),
            r@ == due_fired(old(self)@, now),
    {
        let ghost s = self.entries@;
        let mut fired: Vec<Fired> = Vec::new();
        let mut i: usize = 0;
        while i < self.entries.len()
            invariant
                0 <= i <= s.len(),
                self.entries@.len() == s.len(),
                self.next_id == old(self).next_id,
                s == old(self)@,
                forall|k: int| 0 <= k < i ==> self.entries@[k] == rescheduled(s[k], now),
                forall|k: int| i <= k < s.len() ==> self.entries@[k] == s[k],
                fired@ == due_fired(s.subrange(0, i as int), now),
            decreases s.len() - i,
        {
            let e = self.entries[i];
            assert(s.subrange(0, i + 1).drop_last() == s.subrange(0, i as int));
            if e.due < now {
                let later = e.due.saturating_add(e.period);
                let due = if later < now {
                    now
                } else {
                    later
                };
                self.entries.set(i, TimerEntry { due, ..e });
                fired.push(Fired { id: e.id, task: e.task, key: e.key });
            }
            i = i + 1;
        }
        assert(s.subrange(0, s.len() as int) == s);
        assert(self.entries@ == poll_spec(s, now));
        fired
    }
}

/// The application's handle to a repeating timer of an event loop.
#[derive(Debug)]
pub struct Timer {
    pub id: TimerId,
}

impl Timer {
    /// Schedules a timer that first fires one period after `now`, then about
    /// once a period, routed to `task` under `key`.
    pub fn repeat(event_loop: &mut EventLoop, now: u64, period: u64, task: TaskId, key: Key) -> (r:
        Timer)
        requires
            old(event_loop).wf(),
            old(event_loop).timers.next_id() < usize::MAX,
        ensures
            final(event_loop).wf(),
            r.id == TimerId(old(event_loop).timers.next_id()),
            final(event_loop).timers@ == old(event_loop).timers@.push(
                TimerEntry { id: r.id, due: next_due(now, period, 0), period, task, key },
            ),
            final(event_loop).tasks@ == old(event_loop).tasks@,
            final(event_loop).windows@ == old(event_loop).windows@,
    {
        Timer { id: event_loop.repeat_timer(now, period, task, key) }
    }

    /// Cancels the timer; idempotent.
    pub fn cancel(&self, event_loop: &mut EventLoop)
        requires
            old(event_loop).wf(),
        ensures
            final(event_loop).wf(),
            forall|i: int|
                0 <= i < old(event_loop).timers@.len() && old(event_loop).timers@[i].id == self.id
                    ==> final(event_loop).timers@ == old(event_loop).timers@.remove(i),
            (forall|i: int|
                0 <= i < old(event_loop).timers@.len() ==> old(event_loop).timers@[i].id != self.id)
                ==> final(event_loop).timers@ == old(event_loop).timers@,
            final(event_loop).tasks@ == old(event_loop).tasks@,
    {
        event_loop.cancel_timer(self.id);
    }
}

/// A firing is in a pump pass exactly when some entry produced it by being
/// due strictly before `now`.
pub proof fn lemma_due_fired_contains(s: Seq<TimerEntry>, now: u64, f: Fired)
    ensures
        due_fired(s, now).contains(f) <==> exists|k: int|
            0 <= k < s.len() && s[k].due < now && fired_of(s[k]) == f,
    decreases s.len(),
{
    if s.len() > 0 {
        let t = s.drop_last();
        lemma_due_fired_contains(t, now, f);
        if due_fired(s, now).contains(f) {
            if due_fired(t, now).contains(f) {
                let k = choose|k: int| 0 <= k < t.len() && t[k].due < now && fired_of(t[k]) == f;
                assert(s[k] == t[k]);
            } else {
                let r = due_fired(s, now);
                let j = choose|j: int| 0 <= j < r.len() && r[j] == f;
                if s.last().due < now {
                    if j < r.len() - 1 {
                        assert(due_fired(t, now)[j] == f);
                    }
                    assert(s[s.len() - 1] == s.last());
                } else {
                    assert(due_fired(t, now)[j] == f);
                }
            }
        }
        if exists|k: int| 0 <= k < s.len() && s[k].due < now && fired_of(s[k]) == f {
            let k = choose|k: int| 0 <= k < s.len() && s[k].due < now && fired_of(s[k]) == f;
            if k < s.len() - 1 {
                assert(t[k] == s[k]);
                let r = due_fired(t, now);
                let j = choose|j: int| 0 <= j < r.len() && r[j] == f;
                if s.last().due < now {
                    assert(due_fired(s, now)[j] == f);
                }
            } else {
                let r = due_fired(s, now);
                assert(r[r.len() - 1] == f);
            }
        }
    }
}

/// A timer whose loop stalled for a period or more (say three and a half
/// periods) fires once for the whole stall, is due again at `now` rather than
/// on the missed schedule, and so does not fire again in a pass at the same
/// instant.
pub proof fn lemma_stalled_timer_fires_once(e: TimerEntry, now: u64)
    requires
        e.period > 0,
        e.due + e.period <= now,
    ensures
        due_fired(seq![e], now) == seq![fired_of(e)],
        poll_spec(seq![e], now) == seq![TimerEntry { due: now, ..e }],
        due_fired(poll_spec(seq![e], now), now).len() == 0,
{
    let s = seq![e];
    assert(s.drop_last() =~= Seq::<TimerEntry>::empty());
    assert(due_fired(Seq::<TimerEntry>::empty(), now) == Seq::<Fired>::empty());
    assert(s.last() == e);
    assert(due_fired(s, now) =~= seq![fired_of(e)]);
    let p = poll_spec(s, now);
    assert(p =~= seq![TimerEntry { due: now, ..e }]);
    assert(p.drop_last() =~= Seq::<TimerEntry>::empty());
    assert(p.last().due == now);
    assert(due_fired(p, now) =~= Seq::<Fired>::empty());
}

/// Canceling one timer takes exactly its firings out of a pump pass: every
/// other timer, of the same task or not, fires as it did before.
pub proof fn lemma_cancel_keeps_others(s: Seq<TimerEntry>, now: u64, i: int, j: int)
    requires
        forall|a: int, b: int| 0 <= a < b < s.len() ==> s[a].id != s[b].id,
        0 <= i < s.len(),
        0 <= j < s.len(),
        i != j,
    ensures
        due_fired(s.remove(i), now).contains(fired_of(s[j])) == (s[j].due < now),
        !due_fired(s.remove(i), now).contains(fired_of(s[i])),
{
    let t = s.remove(i);
    lemma_due_fired_contains(t, now, fired_of(s[j]));
    lemma_due_fired_contains(t, now, fired_of(s[i]));
    let j2 = if j < i { j } else { j - 1 };
    assert(t[j2] == s[j]);
    if due_fired(t, now).contains(fired_of(s[j])) {
        let k = choose|k: int| 0 <= k < t.len() && t[k].due < now && fired_of(t[k]) == fired_of(s[j]);
        let k2 = if k < i { k } else { k + 1 };
        assert(t[k] == s[k2]);
        if k2 != j {
            assert(s[k2].id != s[j].id || s[j].id != s[k2].id);
        }
    }
    if due_fired(t, now).contains(fired_of(s[i])) {
        let k = choose|k: int| 0 <= k < t.len() && t[k].due < now && fired_of(t[k]) == fired_of(s[i]);
        let k2 = if k < i { k } else { k + 1 };
        assert(t[k] == s[k2]);
        assert(s[k2].id != s[i].id || s[i].id != s[k2].id);
    }
}

} // verus!
