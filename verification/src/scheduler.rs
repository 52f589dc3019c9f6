//! The virtual-time scheduler: a queue of one-shot callbacks, each due at a
//! deadline, fired in `(deadline, submission)` order once the scheduler's
//! clock has reached them.
//!
//! Time is counted in nanoseconds since the scheduler was created. The clock
//! the scheduler goes by is the real time elapsed plus a simulated offset that
//! only `SimulateAdvanceTime` moves.

use std::time::Duration;
use std::time::Instant;
use vstd::prelude::*;

use crate::clock::duration_debug;
use crate::clock::duration_debug_text;
use crate::clock::duration_nanos;

verus! {

/// Something that can be run once, from any thread.
trait Action: Send + Sync {
    /// Whether a run of the action may return, as far as the action itself
    /// tells.
    spec fn runs(&self) -> bool;

    fn run(self: Box<Self>)
        ensures
            self.runs(),
    ;
}

/// A closure that may be called with no precondition.
struct Closure<F: FnOnce() + Send + Sync>(F);

impl<F: FnOnce() + Send + Sync> Closure<F> {
    #[verifier::type_invariant]
    spec fn callable(self) -> bool {
        call_requires(self.0, ())
    }
}

impl<F: FnOnce() + Send + Sync> Action for Closure<F> {
    spec fn runs(&self) -> bool {
        call_ensures(self.0, (), ())
    }

    fn run(self: Box<Self>) {
        let closure = *self;
        proof {
            use_type_invariant(&closure);
        }
        (closure.0)()
    }
}

/// A one-shot, zero-argument action handed to the scheduler.
pub struct Callback(Box<dyn Action>);

impl Callback {
    /// What a call of the callback has done when it returns: what the wrapped
    /// action promises of its own call.
    pub closed spec fn done(&self) -> bool {
        self.0.runs()
    }

    /// Wraps an action that can be called unconditionally. Calling the
    /// callback is calling the action.
    pub fn new<F: FnOnce() + Send + Sync + 'static>(action: F) -> (callback: Callback)
        requires
            call_requires(action, ()),
        ensures
            callback.done() == call_ensures(action, (), ()),
    {
        Callback(Box::new(Closure(action)))
    }

    /// Runs the action, consuming the callback.
    pub fn call(self)
        ensures
            self.done(),
    {
        self.0.run()
    }
}

/// What orders the pending events: the deadline first, then the sequence
/// number the scheduler issued at submission.
#[derive(Clone, Copy, Debug, PartialEq, Eq, Structural)]
pub struct EventKey {
    /// Nanoseconds on the scheduler's clock at which the event is due.
    pub deadline: u128,
    /// Sequence number of the submission.
    pub event_id: u64,
}

impl EventKey {
    /// Lexicographic order on `(deadline, event_id)`.
    pub open spec fn precedes(self, other: EventKey) -> bool {
        self.deadline < other.deadline || (self.deadline == other.deadline && self.event_id
            < other.event_id)
    }

    /// Whether the event is due once the clock shows `now`.
    pub open spec fn due_at(self, now: u128) -> bool {
        self.deadline <= now
    }
}

struct TimeoutEvent {
    key: EventKey,
    callback: Callback,
}

/// The sum of two clock readings, held at the largest representable one.
pub open spec fn clock_add(a: u128, b: u128) -> u128 {
    if a + b > u128::MAX {
        u128::MAX
    } else {
        (a + b) as u128
    }
}

/// The time left from `now` until `deadline`; zero once it has passed.
pub open spec fn clock_until(deadline: u128, now: u128) -> u128 {
    if deadline > now {
        (deadline - now) as u128
    } else {
        0
    }
}

/// How many events at the front of `events` are due at `now`.
pub open spec fn due_count(events: Seq<EventKey>, now: u128) -> nat
    decreases events.len(),
{
    if events.len() == 0 || !events[0].due_at(now) {
        0
    } else {
        1 + due_count(events.drop_first(), now)
    }
}

/// Strictly ascending in `(deadline, event_id)`.
pub open spec fn ascending(events: Seq<EventKey>) -> bool {
    forall|i: int, j: int| 0 <= i < j < events.len() ==> (#[trigger] events[i]).precedes(
        #[trigger] events[j],
    )
}

/// The delay after which the scheduler wants to be woken: the time until the
/// earliest pending deadline, if any event is pending.
pub open spec fn next_wake(events: Seq<EventKey>, now: u128) -> Option<u128> {
    if events.len() == 0 {
        None
    } else {
        Some(clock_until(events[0].deadline, now))
    }
}

/// In a sorted queue the due events are exactly the first `due_count` ones.
pub proof fn lemma_due_count_splits(events: Seq<EventKey>, now: u128)
    requires
        ascending(events),
    ensures
        due_count(events, now) <= events.len(),
        forall|i: int| 0 <= i < due_count(events, now) ==> (#[trigger] events[i]).due_at(now),
        forall|i: int|
            due_count(events, now) <= i < events.len() ==> !(#[trigger] events[i]).due_at(now),
    decreases events.len(),
{
    if events.len() > 0 {
        let rest = events.drop_first();
        assert forall|i: int, j: int| 0 <= i < j < rest.len() implies (#[trigger] rest[i]).precedes(
            #[trigger] rest[j],
        ) by {
            assert(events[i + 1].precedes(events[j + 1]));
        }
        lemma_due_count_splits(rest, now);
        if events[0].due_at(now) {
            assert forall|i: int| 0 <= i < due_count(events, now) implies (
            #[trigger] events[i]).due_at(now) by {
                if i > 0 {
                    assert(rest[i - 1].due_at(now));
                }
            }
            assert forall|i: int| due_count(events, now) <= i < events.len() implies !(
            #[trigger] events[i]).due_at(now) by {
                assert(!rest[i - 1].due_at(now));
            }
        } else {
            assert forall|i: int| 0 <= i < events.len() implies !(#[trigger] events[i]).due_at(
                now,
            ) by {
                if i > 0 {
                    assert(events[0].precedes(events[i]));
                }
            }
        }
    }
}

/// In a sorted queue, a position that parts the due events from the others is
/// the number of due events.
pub proof fn lemma_due_count_is(events: Seq<EventKey>, now: u128, count: int)
    requires
        0 <= count <= events.len(),
        forall|i: int| 0 <= i < count ==> (#[trigger] events[i]).due_at(now),
        forall|i: int| count <= i < events.len() ==> !(#[trigger] events[i]).due_at(now),
    ensures
        due_count(events, now) == count,
    decreases events.len(),
{
    if events.len() > 0 && count > 0 {
        let rest = events.drop_first();
        assert forall|i: int| 0 <= i < count - 1 implies (#[trigger] rest[i]).due_at(now) by {
            assert(events[i + 1].due_at(now));
        }
        assert forall|i: int| count - 1 <= i < rest.len() implies !(#[trigger] rest[i]).due_at(
            now,
        ) by {
            assert(!events[i + 1].due_at(now));
        }
        lemma_due_count_is(rest, now, count - 1);
        assert(events[0].due_at(now));
    } else if events.len() > 0 {
        assert(!events[0].due_at(now));
    }
}

/// What holds of a scheduler's queue, history and counter at all times:
/// every event submitted is either pending or fired, the queue is sorted,
/// sequence numbers are below the counter, and among events of one deadline
/// every fired one was submitted before every later-fired or still pending
/// one.
pub open spec fn consistent(pending: Seq<EventKey>, fired: Seq<EventKey>, total: u64) -> bool {
    &&& pending.len() + fired.len() == total
    &&& ascending(pending)
    &&& forall|i: int| 0 <= i < pending.len() ==> (#[trigger] pending[i]).event_id < total
    &&& forall|i: int| 0 <= i < fired.len() ==> (#[trigger] fired[i]).event_id < total
    &&& forall|i: int, j: int|
        0 <= i < fired.len() && 0 <= j < pending.len() && (#[trigger] fired[i]).deadline == (
        #[trigger] pending[j]).deadline ==> fired[i].event_id < pending[j].event_id
    &&& forall|i: int, j: int|
        0 <= i < j < fired.len() && (#[trigger] fired[i]).deadline == (#[trigger] fired[j]).deadline
            ==> fired[i].event_id < fired[j].event_id
}

/// What holds of the history and the callbacks that were run for it: there
/// is one callback for each event of the history, and each has been run.
pub open spec fn ran_consistent(fired: Seq<EventKey>, ran: Seq<Callback>) -> bool {
    &&& ran.len() == fired.len()
    &&& forall|i: int| 0 <= i < ran.len() ==> (#[trigger] ran[i]).done()
}

/// Firing the front of the queue keeps the scheduler consistent.
proof fn lemma_fire_front_consistent(pending: Seq<EventKey>, fired: Seq<EventKey>, total: u64)
    requires
        consistent(pending, fired, total),
        pending.len() > 0,
    ensures
        consistent(pending.drop_first(), fired.push(pending[0]), total),
{
    let rest = pending.drop_first();
    let history = fired.push(pending[0]);
    assert forall|i: int, j: int| 0 <= i < j < rest.len() implies (#[trigger] rest[i]).precedes(
        #[trigger] rest[j],
    ) by {
        assert(pending[i + 1].precedes(pending[j + 1]));
    }
    assert forall|i: int| 0 <= i < rest.len() implies (#[trigger] rest[i]).event_id < total by {
        assert(pending[i + 1].event_id < total);
    }
    assert forall|i: int| 0 <= i < history.len() implies (#[trigger] history[i]).event_id
        < total by {
        if i < fired.len() {
            assert(fired[i].event_id < total);
        } else {
            assert(pending[0].event_id < total);
        }
    }
    assert forall|i: int, j: int|
        0 <= i < history.len() && 0 <= j < rest.len() && (#[trigger] history[i]).deadline == (
        #[trigger] rest[j]).deadline implies history[i].event_id < rest[j].event_id by {
        if i < fired.len() {
            assert(fired[i].deadline == pending[j + 1].deadline);
        } else {
            assert(pending[0].precedes(pending[j + 1]));
        }
    }
    assert forall|i: int, j: int|
        0 <= i < j < history.len() && (#[trigger] history[i]).deadline == (
        #[trigger] history[j]).deadline implies history[i].event_id < history[j].event_id by {
        if j < fired.len() {
            assert(fired[i].deadline == fired[j].deadline);
        } else {
            assert(fired[i].deadline == pending[0].deadline);
        }
    }
}

/// Submitting an event with the next sequence number, behind the pending
/// events that are due no later than it, keeps the scheduler consistent.
proof fn lemma_submit_consistent(
    pending: Seq<EventKey>,
    fired: Seq<EventKey>,
    total: u64,
    deadline: u128,
)
    requires
        consistent(pending, fired, total),
        total < u64::MAX,
    ensures
        due_count(pending, deadline) <= pending.len(),
        consistent(
            pending.insert(
                due_count(pending, deadline) as int,
                EventKey { deadline, event_id: total },
            ),
            fired,
            (total + 1) as u64,
        ),
{
    lemma_due_count_splits(pending, deadline);
    let at = due_count(pending, deadline) as int;
    let key = EventKey { deadline, event_id: total };
    let queue = pending.insert(at, key);
    assert forall|i: int, j: int| 0 <= i < j < queue.len() implies (#[trigger] queue[i]).precedes(
        #[trigger] queue[j],
    ) by {
        if j < at {
            assert(pending[i].precedes(pending[j]));
        } else if j == at {
            assert(pending[i].due_at(deadline));
            assert(pending[i].event_id < total);
        } else if i < at {
            assert(pending[i].precedes(pending[j - 1]));
        } else if i == at {
            assert(!pending[j - 1].due_at(deadline));
        } else {
            assert(pending[i - 1].precedes(pending[j - 1]));
        }
    }
    assert forall|i: int| 0 <= i < queue.len() implies (#[trigger] queue[i]).event_id < total
        + 1 by {
        if i < at {
            assert(pending[i].event_id < total);
        } else if i > at {
            assert(pending[i - 1].event_id < total);
        }
    }
    assert forall|i: int, j: int|
        0 <= i < fired.len() && 0 <= j < queue.len() && (#[trigger] fired[i]).deadline == (
        #[trigger] queue[j]).deadline implies fired[i].event_id < queue[j].event_id by {
        if j < at {
            assert(fired[i].deadline == pending[j].deadline);
        } else if j > at {
            assert(fired[i].deadline == pending[j - 1].deadline);
        } else {
            assert(fired[i].event_id < total);
        }
    }
}

/// A message to the scheduler.
pub enum SchedulerMessage {
    /// Run `callback` once `timeout` has passed on the scheduler's clock.
    ScheduleEvent { timeout: Duration, callback: Callback },
    /// The wake-up that the scheduler asked for has come.
    Timeout,
    /// Move the scheduler's clock forward by `time_shift`.
    SimulateAdvanceTime { time_shift: Duration },
}

impl SchedulerMessage {
    /// The text a debug print of the message shows; the callback is left out.
    pub open spec fn debug_text(self) -> Seq<char> {
        match self {
            SchedulerMessage::ScheduleEvent { timeout, .. } => "ScheduleEvent { timeout: "@
                + duration_debug_text(timeout) + " }"@,
            SchedulerMessage::Timeout => "Timeout"@,
            SchedulerMessage::SimulateAdvanceTime { time_shift } =>
                "SimulateAdvanceTime { time_shift: "@ + duration_debug_text(time_shift) + " }"@,
        }
    }

    /// Prints the message for tracing.
    pub fn debug_string(&self) -> (text: String)
        ensures
            text@ == self.debug_text(),
    {
        match self {
            SchedulerMessage::ScheduleEvent { timeout, callback: _ } => {
                let shown = duration_debug(timeout);
                String::from_str("ScheduleEvent { timeout: ").concat(shown.as_str()).concat(" }")
            },
            SchedulerMessage::Timeout => String::from_str("Timeout"),
            SchedulerMessage::SimulateAdvanceTime { time_shift } => {
                let shown = duration_debug(time_shift);
                String::from_str("SimulateAdvanceTime { time_shift: ").concat(
                    shown.as_str(),
                ).concat(" }")
            },
        }
    }
}

/// The scheduler has issued every sequence number it can; the event was not
/// taken.
#[derive(Clone, Copy, Debug, PartialEq, Eq, Structural)]
pub struct EventIdsExhausted;

/// Snapshot of the scheduler for observers.
#[derive(Clone, Copy, Debug, PartialEq, Eq, Structural)]
pub struct SchedulerCounters {
    /// Events submitted and not fired yet.
    pub num_pending_events: usize,
    /// Events submitted since the scheduler was created.
    pub total_num_events: u64,
}

/// The scheduler's state: the sequence counter, the simulated offset, and the
/// pending events.
///
/// `future_events` holds the pending events latest first, so that the next
/// one to fire is the last element. `fired` is the history of the events whose
/// callbacks have run, in the order in which they ran, and `ran` holds those
/// callbacks, one for each event of the history.
pub struct Scheduler {
    event_id_generator: u64,
    simulated_time_shift: u128,
    future_events: Vec<TimeoutEvent>,
    epoch: Instant,
    fired: Ghost<Seq<EventKey>>,
    ran: Ghost<Seq<Callback>>,
}

impl Default for Scheduler {
    fn default() -> (scheduler: Scheduler)
        ensures
            scheduler.wf(),
            scheduler.pending() == Seq::<EventKey>::empty(),
            scheduler.pending_callbacks() == Seq::<Callback>::empty(),
            scheduler.fired() == Seq::<EventKey>::empty(),
            scheduler.fired_callbacks() == Seq::<Callback>::empty(),
            scheduler.total_num_events() == 0,
            scheduler.time_shift() == 0,
    {
        Scheduler::new()
    }
}

impl Scheduler {
    /// Events submitted since the scheduler was created.
    pub closed spec fn total_num_events(&self) -> u64 {
        self.event_id_generator
    }

    /// The simulated offset added to the real clock, in nanoseconds.
    pub closed spec fn time_shift(&self) -> u128 {
        self.simulated_time_shift
    }

    /// The pending events in the order in which they will fire.
    pub closed spec fn pending(&self) -> Seq<EventKey> {
        Seq::new(
            self.future_events@.len(),
            |i: int| self.future_events@[self.future_events@.len() - 1 - i].key,
        )
    }

    /// The callbacks of the pending events, each at the place of its event
    /// in `pending()`.
    pub closed spec fn pending_callbacks(&self) -> Seq<Callback> {
        Seq::new(
            self.future_events@.len(),
            |i: int| self.future_events@[self.future_events@.len() - 1 - i].callback,
        )
    }

    /// The events whose callbacks have run, in the order in which they ran.
    pub closed spec fn fired(&self) -> Seq<EventKey> {
        self.fired@
    }

    /// The callbacks that have run, each at the place of its event in
    /// `fired()`.
    pub closed spec fn fired_callbacks(&self) -> Seq<Callback> {
        self.ran@
    }

    /// The instant at which the scheduler's clock started.
    pub closed spec fn started(&self) -> Instant {
        self.epoch
    }

    /// The scheduler's invariant: `consistent` of its queue, history and
    /// counter, and `ran_consistent` of its history and the callbacks run.
    pub open spec fn wf(&self) -> bool {
        &&& consistent(self.pending(), self.fired(), self.total_num_events())
        &&& self.pending_callbacks().len() == self.pending().len()
        &&& ran_consistent(self.fired(), self.fired_callbacks())
    }

    /// What holds while an event that has left the front of the queue waits
    /// for its callback to be run.
    spec fn firing(&self, key: EventKey) -> bool {
        &&& consistent(self.pending(), self.fired().push(key), self.total_num_events())
        &&& self.pending_callbacks().len() == self.pending().len()
        &&& ran_consistent(self.fired(), self.fired_callbacks())
    }

    /// That the clock of `other` is this scheduler's: the same start, the
    /// same offset.
    pub open spec fn same_clock(&self, other: &Scheduler) -> bool {
        &&& self.started() == other.started()
        &&& self.time_shift() == other.time_shift()
    }

    /// The scheduler's clock at real time `real_now`.
    pub open spec fn clock_at(&self, real_now: u128) -> u128 {
        clock_add(real_now, self.time_shift())
    }

    /// A scheduler with nothing pending, whose clock starts now.
    pub fn new() -> (scheduler: Scheduler)
        ensures
            scheduler.wf(),
            scheduler.pending() == Seq::<EventKey>::empty(),
            scheduler.pending_callbacks() == Seq::<Callback>::empty(),
            scheduler.fired() == Seq::<EventKey>::empty(),
            scheduler.fired_callbacks() == Seq::<Callback>::empty(),
            scheduler.total_num_events() == 0,
            scheduler.time_shift() == 0,
    {
        let scheduler = Scheduler {
            event_id_generator: 0,
            simulated_time_shift: 0,
            future_events: Vec::new(),
            epoch: Instant::now(),
            fired: Ghost(Seq::empty()),
            ran: Ghost(Seq::empty()),
        };
        assert(scheduler.pending() =~= Seq::<EventKey>::empty());
        assert(scheduler.pending_callbacks() =~= Seq::<Callback>::empty());
        scheduler
    }

    /// The counters shown to observers.
    pub fn observable_state(&self) -> (counters: SchedulerCounters)
        ensures
            counters.num_pending_events == self.pending().len(),
            counters.total_num_events == self.total_num_events(),
            self.wf() ==> counters.num_pending_events <= counters.total_num_events,
    {
        SchedulerCounters {
            num_pending_events: self.future_events.len(),
            total_num_events: self.event_id_generator,
        }
    }

    /// Nanoseconds of real time since the scheduler was created.
    pub fn real_now(&self) -> u128 {
        self.epoch.elapsed().as_nanos()
    }

    /// The scheduler's clock when real time shows `real_now`.
    pub fn simulated_now_at(&self, real_now: u128) -> (now: u128)
        ensures
            now == self.clock_at(real_now),
    {
        real_now.saturating_add(self.simulated_time_shift)
    }

    /// The scheduler's clock: real time plus the simulated offset.
    pub fn simulated_now(&self) -> (now: u128)
        ensures
            now >= self.time_shift(),
            exists|real_now: u128| now == #[trigger] self.clock_at(real_now),
    {
        let real_now = self.real_now();
        let now = self.simulated_now_at(real_now);
        assert(now == self.clock_at(real_now));
        now
    }

    /// The delay after which the scheduler wants to be woken, when its clock
    /// shows `simulated_now`.
    pub fn schedule_next_timeout(&self, simulated_now: u128) -> (wake: Option<u128>)
        ensures
            wake == next_wake(self.pending(), simulated_now),
    {
        let len = self.future_events.len();
        if len == 0 {
            None
        } else {
            let next_deadline = self.future_events[len - 1].key.deadline;
            assert(self.pending()[0] == self.future_events@[len - 1].key);
            if next_deadline > simulated_now {
                Some(next_deadline - simulated_now)
            } else {
                Some(0)
            }
        }
    }

    /// Takes the next pending event out of the queue if it is due at
    /// `simulated_now`.
    fn find_next_event_before_now(&mut self, simulated_now: u128) -> (next: Option<TimeoutEvent>)
        requires
            old(self).wf(),
        ensures
            final(self).total_num_events() == old(self).total_num_events(),
            final(self).same_clock(old(self)),
            final(self).fired() == old(self).fired(),
            final(self).fired_callbacks() == old(self).fired_callbacks(),
            match next {
                Some(event) => {
                    &&& old(self).pending().len() > 0
                    &&& event.key == old(self).pending()[0]
                    &&& event.callback == old(self).pending_callbacks()[0]
                    &&& event.key.due_at(simulated_now)
                    &&& final(self).pending() == old(self).pending().drop_first()
                    &&& final(self).pending_callbacks() == old(self).pending_callbacks().drop_first()
                    &&& final(self).firing(event.key)
                },
                None => {
                    &&& old(self).pending().len() == 0 || !old(self).pending()[0].due_at(
                        simulated_now,
                    )
                    &&& final(self).pending() == old(self).pending()
                    &&& final(self).pending_callbacks() == old(self).pending_callbacks()
                    &&& final(self).wf()
                },
            },
    {
        let len = self.future_events.len();
        if len == 0 {
            return None;
        }
        assert(self.pending()[0] == self.future_events@[len - 1].key);
        assert(self.pending_callbacks()[0] == self.future_events@[len - 1].callback);
        if self.future_events[len - 1].key.deadline <= simulated_now {
            let ghost before = self.pending();
            let ghost callbacks = self.pending_callbacks();
            let next = self.future_events.pop();
            proof {
                assert(self.pending() =~= before.drop_first());
                assert(self.pending_callbacks() =~= callbacks.drop_first());
                lemma_fire_front_consistent(before, self.fired(), self.total_num_events());
            }
            next
        } else {
            None
        }
    }

    /// Runs the callback of an event that has just left the front of the
    /// queue, and enters the event in the history.
    fn fire(&mut self, event: TimeoutEvent)
        requires
            old(self).firing(event.key),
        ensures
            event.callback.done(),
            final(self).total_num_events() == old(self).total_num_events(),
            final(self).same_clock(old(self)),
            final(self).pending() == old(self).pending(),
            final(self).pending_callbacks() == old(self).pending_callbacks(),
            final(self).fired() == old(self).fired().push(event.key),
            final(self).fired_callbacks() == old(self).fired_callbacks().push(event.callback),
            final(self).wf(),
    {
        let ghost callback = event.callback;
        event.callback.call();
        proof {
            self.fired@ = self.fired@.push(event.key);
            self.ran@ = self.ran@.push(callback);
        }
    }

    /// Fires every pending event that is due at `simulated_now`, earliest
    /// first, and returns the delay until the next wake-up if events remain.
    ///
    /// The callbacks of the due events are run in the order of the queue;
    /// the others stay queued as they were.
    pub fn process_timeout(&mut self, simulated_now: u128) -> (wake: Option<u128>)
        requires
            old(self).wf(),
        ensures
            final(self).wf(),
            final(self).total_num_events() == old(self).total_num_events(),
            final(self).same_clock(old(self)),
            due_count(old(self).pending(), simulated_now) <= old(self).pending().len(),
            final(self).pending() == old(self).pending().skip(
                due_count(old(self).pending(), simulated_now) as int,
            ),
            final(self).pending_callbacks() == old(self).pending_callbacks().skip(
                due_count(old(self).pending(), simulated_now) as int,
            ),
            final(self).fired() == old(self).fired() + old(self).pending().take(
                due_count(old(self).pending(), simulated_now) as int,
            ),
            final(self).fired_callbacks() == old(self).fired_callbacks() + old(
                self,
            ).pending_callbacks().take(due_count(old(self).pending(), simulated_now) as int),
            forall|i: int|
                0 <= i < due_count(old(self).pending(), simulated_now) ==> (#[trigger] old(
                    self,
                ).pending_callbacks()[i]).done(),
            forall|i: int|
                0 <= i < final(self).pending().len() ==> !(#[trigger] final(self).pending()[i]).due_at(
                    simulated_now,
                ),
            wake == next_wake(final(self).pending(), simulated_now),
    {
        let ghost pending = self.pending();
        let ghost callbacks = self.pending_callbacks();
        let ghost fired = self.fired();
        let ghost ran = self.fired_callbacks();
        let ghost mut count: int = 0;
        proof {
            lemma_due_count_splits(pending, simulated_now);
            assert(pending.skip(0) =~= pending);
            assert(callbacks.skip(0) =~= callbacks);
            assert(fired + pending.take(0) =~= fired);
            assert(ran + callbacks.take(0) =~= ran);
        }
        loop
            invariant
                self.wf(),
                ascending(pending),
                callbacks.len() == pending.len(),
                self.total_num_events() == old(self).total_num_events(),
                self.same_clock(old(self)),
                0 <= count <= due_count(pending, simulated_now) <= pending.len(),
                self.pending() == pending.skip(count),
                self.pending_callbacks() == callbacks.skip(count),
                self.fired() == fired + pending.take(count),
                self.fired_callbacks() == ran + callbacks.take(count),
            ensures
                count == due_count(pending, simulated_now),
            decreases pending.len() - count,
        {
            match self.find_next_event_before_now(simulated_now) {
                Some(event) => {
                    assert(event.key == pending[count]);
                    assert(event.callback == callbacks[count]);
                    self.fire(event);
                    proof {
                        lemma_due_count_splits(pending, simulated_now);
                        if count >= due_count(pending, simulated_now) {
                            assert(!pending[count].due_at(simulated_now));
                        }
                        assert(pending.skip(count).drop_first() =~= pending.skip(count + 1));
                        assert(callbacks.skip(count).drop_first() =~= callbacks.skip(count + 1));
                        assert((fired + pending.take(count)).push(pending[count]) =~= fired
                            + pending.take(count + 1));
                        assert((ran + callbacks.take(count)).push(callbacks[count]) =~= ran
                            + callbacks.take(count + 1));
                        count = count + 1;
                    }
                },
                None => {
                    proof {
                        lemma_due_count_splits(pending, simulated_now);
                        if count < due_count(pending, simulated_now) {
                            assert(pending[count].due_at(simulated_now));
                            assert(self.pending()[0] == pending[count]);
                        }
                    }
                    break ;
                },
            }
        }
        proof {
            lemma_due_count_splits(pending, simulated_now);
            assert forall|i: int| 0 <= i < self.pending().len() implies !(
            #[trigger] self.pending()[i]).due_at(simulated_now) by {
                assert(self.pending()[i] == pending[count + i]);
            }
            assert forall|i: int| 0 <= i < count implies (#[trigger] callbacks[i]).done() by {
                assert(self.fired_callbacks()[ran.len() + i] == callbacks.take(count)[i]);
            }
        }
        self.schedule_next_timeout(simulated_now)
    }

    /// Issues the next sequence number for an event due at `deadline`.
    fn timeout_event(&mut self, deadline: u128, callback: Callback) -> (event: TimeoutEvent)
        requires
            old(self).total_num_events() < u64::MAX,
        ensures
            final(self).total_num_events() == old(self).total_num_events() + 1,
            final(self).same_clock(old(self)),
            final(self).pending() == old(self).pending(),
            final(self).pending_callbacks() == old(self).pending_callbacks(),
            final(self).fired() == old(self).fired(),
            final(self).fired_callbacks() == old(self).fired_callbacks(),
            event.key == (EventKey { deadline, event_id: old(self).total_num_events() }),
            event.callback == callback,
    {
        let event_id = self.event_id_generator;
        self.event_id_generator = self.event_id_generator + 1;
        TimeoutEvent { key: EventKey { deadline, event_id }, callback }
    }

    /// Queues `callback` to fire once the clock, which now shows
    /// `simulated_now`, has moved on by `timeout`. Returns the delay of the
    /// wake-up to arm if the new event has become the earliest one.
    ///
    /// The callback is queued at the place of its event and is not run; no
    /// other callback is touched.
    pub fn process_schedule_event(
        &mut self,
        simulated_now: u128,
        timeout: u128,
        callback: Callback,
    ) -> (wake: Option<u128>)
        requires
            old(self).wf(),
            old(self).total_num_events() < u64::MAX,
        ensures
            final(self).wf(),
            final(self).total_num_events() == old(self).total_num_events() + 1,
            final(self).same_clock(old(self)),
            final(self).fired() == old(self).fired(),
            final(self).fired_callbacks() == old(self).fired_callbacks(),
            due_count(old(self).pending(), clock_add(simulated_now, timeout)) <= old(
                self,
            ).pending().len(),
            final(self).pending() == old(self).pending().insert(
                due_count(old(self).pending(), clock_add(simulated_now, timeout)) as int,
                EventKey {
                    deadline: clock_add(simulated_now, timeout),
                    event_id: old(self).total_num_events(),
                },
            ),
            final(self).pending_callbacks() == old(self).pending_callbacks().insert(
                due_count(old(self).pending(), clock_add(simulated_now, timeout)) as int,
                callback,
            ),
            wake == if due_count(old(self).pending(), clock_add(simulated_now, timeout)) == 0 {
                Some(clock_until(clock_add(simulated_now, timeout), simulated_now))
            } else {
                None
            },
    {
        let new_evt_deadline = simulated_now.saturating_add(timeout);
        let ghost pending = self.pending();
        let ghost callbacks = self.pending_callbacks();
        let ghost fired = self.fired();
        let ghost total = self.total_num_events();
        let timeout_event = self.timeout_event(new_evt_deadline, callback);
        let len = self.future_events.len();
        let mut at: usize = 0;
        while at < len && self.future_events[at].key.deadline > new_evt_deadline
            invariant
                len == self.future_events@.len(),
                at <= len,
                forall|i: int|
                    0 <= i < at ==> (#[trigger] self.future_events@[i]).key.deadline
                        > new_evt_deadline,
            decreases len - at,
        {
            at = at + 1;
        }
        proof {
            assert forall|j: int| 0 <= j < len - at implies (#[trigger] pending[j]).due_at(
                new_evt_deadline,
            ) by {
                assert(pending[len - 1 - at] == self.future_events@[at as int].key);
                if j < len - 1 - at {
                    assert(pending[j].precedes(pending[len - 1 - at]));
                }
            }
            assert forall|j: int| len - at <= j < len implies !(#[trigger] pending[j]).due_at(
                new_evt_deadline,
            ) by {
                assert(pending[j] == self.future_events@[len - 1 - j].key);
            }
            lemma_due_count_is(pending, new_evt_deadline, len - at);
            lemma_submit_consistent(pending, fired, total, new_evt_deadline);
        }
        let is_new_next_deadline = at == len;
        self.future_events.insert(at, timeout_event);
        proof {
            assert(self.pending() =~= pending.insert(len - at, timeout_event.key));
            assert(self.pending_callbacks() =~= callbacks.insert(len - at, callback));
        }
        if is_new_next_deadline {
            self.schedule_next_timeout(simulated_now)
        } else {
            None
        }
    }

    /// Moves the simulated offset forward by `time_shift`, then fires what
    /// has become due on the clock, real time showing `real_now`.
    pub fn process_simulate_advance_time(&mut self, real_now: u128, time_shift: u128) -> (wake:
        Option<u128>)
        requires
            old(self).wf(),
        ensures
            final(self).wf(),
            final(self).total_num_events() == old(self).total_num_events(),
            final(self).started() == old(self).started(),
            final(self).time_shift() == clock_add(old(self).time_shift(), time_shift),
            due_count(old(self).pending(), final(self).clock_at(real_now)) <= old(
                self,
            ).pending().len(),
            final(self).pending() == old(self).pending().skip(
                due_count(old(self).pending(), final(self).clock_at(real_now)) as int,
            ),
            final(self).pending_callbacks() == old(self).pending_callbacks().skip(
                due_count(old(self).pending(), final(self).clock_at(real_now)) as int,
            ),
            final(self).fired() == old(self).fired() + old(self).pending().take(
                due_count(old(self).pending(), final(self).clock_at(real_now)) as int,
            ),
            final(self).fired_callbacks() == old(self).fired_callbacks() + old(
                self,
            ).pending_callbacks().take(
                due_count(old(self).pending(), final(self).clock_at(real_now)) as int,
            ),
            forall|i: int|
                0 <= i < due_count(old(self).pending(), final(self).clock_at(real_now)) ==> (
                #[trigger] old(self).pending_callbacks()[i]).done(),
            forall|i: int|
                0 <= i < final(self).pending().len() ==> !(#[trigger] final(self).pending()[i]).due_at(
                    final(self).clock_at(real_now),
                ),
            wake == next_wake(final(self).pending(), final(self).clock_at(real_now)),
    {
        self.simulated_time_shift = self.simulated_time_shift.saturating_add(time_shift);
        let simulated_now = self.simulated_now_at(real_now);
        self.process_timeout(simulated_now)
    }

    /// What handling `message` does to a scheduler when real time shows
    /// `real_now`: the state it leaves and the wake-up it asks for.
    pub open spec fn steps_to(
        self,
        message: SchedulerMessage,
        real_now: u128,
        next: Scheduler,
        outcome: Result<Option<u128>, EventIdsExhausted>,
    ) -> bool {
        match message {
            SchedulerMessage::ScheduleEvent { timeout, callback } => {
                let now = self.clock_at(real_now);
                let deadline = clock_add(now, duration_nanos(timeout) as u128);
                let at = due_count(self.pending(), deadline);
                if self.total_num_events() == u64::MAX {
                    &&& outcome == Err::<Option<u128>, EventIdsExhausted>(EventIdsExhausted)
                    &&& next.total_num_events() == self.total_num_events()
                    &&& next.same_clock(&self)
                    &&& next.pending() == self.pending()
                    &&& next.pending_callbacks() == self.pending_callbacks()
                    &&& next.fired() == self.fired()
                    &&& next.fired_callbacks() == self.fired_callbacks()
                } else {
                    &&& outcome == Ok::<Option<u128>, EventIdsExhausted>(
                        if at == 0 {
                            Some(clock_until(deadline, now))
                        } else {
                            None
                        },
                    )
                    &&& next.total_num_events() == self.total_num_events() + 1
                    &&& next.same_clock(&self)
                    &&& at <= self.pending().len()
                    &&& next.pending() == self.pending().insert(
                        at as int,
                        EventKey { deadline, event_id: self.total_num_events() },
                    )
                    &&& next.pending_callbacks() == self.pending_callbacks().insert(
                        at as int,
                        callback,
                    )
                    &&& next.fired() == self.fired()
                    &&& next.fired_callbacks() == self.fired_callbacks()
                }
            },
            SchedulerMessage::Timeout => {
                let now = self.clock_at(real_now);
                let due = due_count(self.pending(), now);
                &&& outcome == Ok::<Option<u128>, EventIdsExhausted>(next_wake(next.pending(), now))
                &&& next.total_num_events() == self.total_num_events()
                &&& next.same_clock(&self)
                &&& due <= self.pending().len()
                &&& next.pending() == self.pending().skip(due as int)
                &&& next.pending_callbacks() == self.pending_callbacks().skip(due as int)
                &&& next.fired() == self.fired() + self.pending().take(due as int)
                &&& next.fired_callbacks() == self.fired_callbacks()
                    + self.pending_callbacks().take(due as int)
                &&& forall|i: int| 0 <= i < due ==> (#[trigger] self.pending_callbacks()[i]).done()
            },
            SchedulerMessage::SimulateAdvanceTime { time_shift } => {
                let shift = clock_add(self.time_shift(), duration_nanos(time_shift) as u128);
                let now = clock_add(real_now, shift);
                let due = due_count(self.pending(), now);
                &&& outcome == Ok::<Option<u128>, EventIdsExhausted>(next_wake(next.pending(), now))
                &&& next.total_num_events() == self.total_num_events()
                &&& next.started() == self.started()
                &&& next.time_shift() == shift
                &&& due <= self.pending().len()
                &&& next.pending() == self.pending().skip(due as int)
                &&& next.pending_callbacks() == self.pending_callbacks().skip(due as int)
                &&& next.fired() == self.fired() + self.pending().take(due as int)
                &&& next.fired_callbacks() == self.fired_callbacks()
                    + self.pending_callbacks().take(due as int)
                &&& forall|i: int| 0 <= i < due ==> (#[trigger] self.pending_callbacks()[i]).done()
            },
        }
    }

    /// Handles one message, real time showing `real_now`. `Ok` carries the
    /// delay of the wake-up to arm in place of the outstanding one, if any.
    pub fn process_message_at(&mut self, message: SchedulerMessage, real_now: u128) -> (outcome:
        Result<Option<u128>, EventIdsExhausted>)
        requires
            old(self).wf(),
        ensures
            final(self).wf(),
            old(self).steps_to(message, real_now, *final(self), outcome),
    {
        match message {
            SchedulerMessage::ScheduleEvent { timeout, callback } => {
                if self.event_id_generator == u64::MAX {
                    Err(EventIdsExhausted)
                } else {
                    let simulated_now = self.simulated_now_at(real_now);
                    Ok(self.process_schedule_event(simulated_now, timeout.as_nanos(), callback))
                }
            },
            SchedulerMessage::Timeout => {
                let simulated_now = self.simulated_now_at(real_now);
                Ok(self.process_timeout(simulated_now))
            },
            SchedulerMessage::SimulateAdvanceTime { time_shift } => {
                Ok(self.process_simulate_advance_time(real_now, time_shift.as_nanos()))
            },
        }
    }

    /// Handles one message at the time the clock shows when it is read.
    pub fn process_message(&mut self, message: SchedulerMessage) -> (outcome: Result<
        Option<u128>,
        EventIdsExhausted,
    >)
        requires
            old(self).wf(),
        ensures
            final(self).wf(),
            exists|real_now: u128| #[trigger]
                old(self).steps_to(message, real_now, *final(self), outcome),
    {
        let real_now = self.real_now();
        self.process_message_at(message, real_now)
    }
}

/// Two callbacks with the same deadline fire in submission order: of two
/// fired events with one deadline, the one that ran first has the smaller
/// sequence number.
pub proof fn lemma_equal_deadlines_fire_in_submission_order(
    scheduler: Scheduler,
    first: int,
    second: int,
)
    requires
        scheduler.wf(),
        0 <= first < second < scheduler.fired().len(),
        scheduler.fired()[first].deadline == scheduler.fired()[second].deadline,
    ensures
        scheduler.fired()[first].event_id < scheduler.fired()[second].event_id,
{
}

/// Two pending events with the same deadline wait in submission order, and
/// both were submitted after every fired event of that deadline.
pub proof fn lemma_equal_deadlines_wait_in_submission_order(
    scheduler: Scheduler,
    front: int,
    back: int,
    past: int,
)
    requires
        scheduler.wf(),
        0 <= front < back < scheduler.pending().len(),
        scheduler.pending()[front].deadline == scheduler.pending()[back].deadline,
        0 <= past < scheduler.fired().len(),
        scheduler.fired()[past].deadline == scheduler.pending()[front].deadline,
    ensures
        scheduler.fired()[past].event_id < scheduler.pending()[front].event_id,
        scheduler.pending()[front].event_id < scheduler.pending()[back].event_id,
{
    assert(scheduler.pending()[front].precedes(scheduler.pending()[back]));
}

/// An event submitted with the deadline of a pending one waits directly
/// behind the last pending event of that deadline, and so fires after it.
pub proof fn lemma_submission_waits_behind_equal_deadlines(
    pending: Seq<EventKey>,
    deadline: u128,
    waiting: int,
)
    requires
        ascending(pending),
        0 <= waiting < pending.len(),
        pending[waiting].deadline == deadline,
    ensures
        waiting < due_count(pending, deadline) <= pending.len(),
{
    lemma_due_count_splits(pending, deadline);
    if waiting >= due_count(pending, deadline) {
        assert(!pending[waiting].due_at(deadline));
    }
}

/// Advancing the clock by a shift and by another moves it as far as
/// advancing it by both at once, and never moves it back.
pub proof fn lemma_clock_advances(real_now: u128, shift: u128, delta: u128)
    ensures
        clock_add(real_now, clock_add(shift, delta)) == clock_add(clock_add(real_now, shift), delta),
        clock_add(real_now, clock_add(shift, delta)) >= clock_add(real_now, shift),
{
}

/// After `SimulateAdvanceTime` every callback whose deadline is no later
/// than the clock before plus the shift has been run and its event is in the
/// history; nothing that is still pending is due, and what is still pending
/// is queued with the callback it had.
pub proof fn lemma_advance_time_fires_all_due(
    before: Scheduler,
    time_shift: Duration,
    real_now: u128,
    after: Scheduler,
    outcome: Result<Option<u128>, EventIdsExhausted>,
)
    requires
        before.wf(),
        before.steps_to(
            SchedulerMessage::SimulateAdvanceTime { time_shift },
            real_now,
            after,
            outcome,
        ),
    ensures
        after.clock_at(real_now) == clock_add(
            before.clock_at(real_now),
            duration_nanos(time_shift) as u128,
        ),
        forall|i: int|
            0 <= i < before.pending().len() && (#[trigger] before.pending()[i]).deadline
                <= after.clock_at(real_now) ==> after.fired().contains(before.pending()[i]),
        forall|i: int|
            0 <= i < before.pending().len() && (#[trigger] before.pending()[i]).deadline
                <= after.clock_at(real_now) ==> before.pending_callbacks()[i].done(),
        forall|i: int|
            0 <= i < after.pending().len() ==> (#[trigger] after.pending()[i]).deadline
                > after.clock_at(real_now),
        forall|i: int|
            0 <= i < after.pending().len() ==> {
                &&& (#[trigger] after.pending()[i]) == before.pending()[before.pending().len()
                    - after.pending().len() + i]
                &&& after.pending_callbacks()[i] == before.pending_callbacks()[
                    before.pending().len() - after.pending().len() + i]
            },
{
    let now = after.clock_at(real_now);
    let pending = before.pending();
    let due = due_count(pending, now) as int;
    lemma_clock_advances(real_now, before.time_shift(), duration_nanos(time_shift) as u128);
    lemma_due_count_splits(pending, now);
    assert forall|i: int| 0 <= i < pending.len() && (#[trigger] pending[i]).deadline
        <= now implies before.pending_callbacks()[i].done() by {
        if i >= due {
            assert(!pending[i].due_at(now));
        }
    }
    assert forall|i: int| 0 <= i < pending.len() && (#[trigger] pending[i]).deadline
        <= now implies after.fired().contains(pending[i]) by {
        if i >= due {
            assert(!pending[i].due_at(now));
        }
        assert(after.fired()[before.fired().len() + i] == pending.take(due)[i]);
    }
    assert forall|i: int| 0 <= i < after.pending().len() implies (
    #[trigger] after.pending()[i]).deadline > now by {
        assert(after.pending()[i] == pending[due + i]);
        assert(!pending[due + i].due_at(now));
    }
}

} // verus!
