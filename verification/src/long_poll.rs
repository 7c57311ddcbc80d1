//! The bounded long-poll loop: "notify me when X becomes true" as a fixed
//! number of predicate checks, one per polling interval, with no writer-side
//! subscriber list.
//!
//! The decision logic lives in [`LongPollCoordinator`], a small state machine
//! driven from outside: the server evaluates the caller's predicate against
//! the store (taking the lock only for that one check), feeds the outcome to
//! [`LongPollCoordinator::observe`], and either finishes with the directive's
//! terminal outcome or sleeps one interval and checks again. The first check
//! happens immediately, so a request whose state is already newer than the
//! caller's is answered without any wait, and an unavailable entity is
//! reported at once rather than retried; only "no change yet" is retried, up
//! to [`MAX_POLL_ATTEMPTS`] checks in all.

use vstd::prelude::*;

verus! {

/// How many times the predicate is evaluated before the poll gives up: one
/// immediate check, then one per polling interval.
pub const MAX_POLL_ATTEMPTS: u32 = 20;

/// What one evaluation of the caller's predicate reported.
pub enum PollEvent<R> {
    /// The store satisfies the caller; here is the result to return.
    Ready(R),
    /// Nothing new yet; worth checking again after an interval.
    NotYet,
    /// The requested entity does not exist, and waiting cannot change that
    /// without an external write; the caller should be told at once.
    Unavailable,
}

/// How a finished poll ended.
pub enum PollOutcome<R> {
    /// A check succeeded; the first result seen.
    Updated(R),
    /// The requested entity has never been created. Reported on the very
    /// first check, never retried.
    Unavailable,
    /// The whole window elapsed with no satisfying change. Not an error: the
    /// caller maps it to a benign empty response.
    Exhausted,
}

/// What the driver must do after handing one event to the coordinator.
pub enum PollDirective<R> {
    /// The poll is over; respond with this outcome.
    Finish(PollOutcome<R>),
    /// Sleep one polling interval, evaluate the predicate once more, and
    /// report back.
    Wait,
}

/// The decision the coordinator takes on one event, given how many checks
/// happened before it: a result or an absence ends the poll at once; "not
/// yet" waits, unless this check was the last of the budget.
pub open spec fn next_directive<R>(attempts_before: int, event: PollEvent<R>) -> PollDirective<R> {
    match event {
        PollEvent::Ready(r) => PollDirective::Finish(PollOutcome::Updated(r)),
        PollEvent::Unavailable => PollDirective::Finish(PollOutcome::Unavailable),
        PollEvent::NotYet => if attempts_before + 1 >= MAX_POLL_ATTEMPTS as int {
            PollDirective::Finish(PollOutcome::Exhausted)
        } else {
            PollDirective::Wait
        },
    }
}

/// The state machine behind one long-poll request: it counts the checks made
/// and turns each check's event into the next directive.
pub struct LongPollCoordinator {
    attempts_made: u32,
}

impl LongPollCoordinator {
    /// How many predicate checks have been fed to this coordinator.
    pub closed spec fn attempts(&self) -> int {
        self.attempts_made as int
    }

    /// A coordinator for a fresh request: no checks made yet.
    pub fn new() -> (c: Self)
        ensures
            c.attempts() == 0,
    {
        LongPollCoordinator { attempts_made: 0 }
    }

    /// How many predicate checks have been made, as the driver sees it.
    pub fn attempts_made(&self) -> (n: u32)
        ensures
            n == self.attempts(),
    {
        self.attempts_made
    }

    /// Takes the event of one predicate check and decides how the poll goes
    /// on. A `Wait` directive always leaves budget for another check, so a
    /// driver that only re-checks after `Wait` never exceeds the budget.
    pub fn observe<R>(&mut self, event: PollEvent<R>) -> (d: PollDirective<R>)
        requires
            old(self).attempts() < MAX_POLL_ATTEMPTS as int,
        ensures
            final(self).attempts() == old(self).attempts() + 1,
            d == next_directive(old(self).attempts(), event),
            (d is Wait ==> final(self).attempts() < MAX_POLL_ATTEMPTS as int),
    {
        self.attempts_made = self.attempts_made + 1;
        match event {
            PollEvent::Ready(r) => PollDirective::Finish(PollOutcome::Updated(r)),
            PollEvent::Unavailable => PollDirective::Finish(PollOutcome::Unavailable),
            PollEvent::NotYet => if self.attempts_made >= MAX_POLL_ATTEMPTS {
                PollDirective::Finish(PollOutcome::Exhausted)
            } else {
                PollDirective::Wait
            },
        }
    }
}

/// The whole poll, played out over the sequence of events its checks would
/// report: starting after `attempts_before` checks, follow `next_directive`
/// through the events and return how many checks were made in all, together
/// with the outcome (`None` if the events ran out while the poll still
/// wanted another check).
pub open spec fn run_from<R>(attempts_before: int, events: Seq<PollEvent<R>>) -> (
    int,
    Option<PollOutcome<R>>,
)
    decreases events.len(),
{
    if events.len() == 0 {
        (attempts_before, None)
    } else {
        match next_directive(attempts_before, events[0]) {
            PollDirective::Finish(outcome) => (attempts_before + 1, Some(outcome)),
            PollDirective::Wait => run_from(attempts_before + 1, events.drop_first()),
        }
    }
}

/// Immediate satisfaction: when the very first check already has a result,
/// the poll finishes on attempt 1 with that result — no interval is waited.
pub proof fn lemma_immediate_satisfaction<R>(events: Seq<PollEvent<R>>, r: R)
    requires
        events.len() > 0,
        events[0] == PollEvent::Ready(r),
    ensures
        run_from(0, events) == (1int, Some(PollOutcome::Updated(r))),
{
}

/// Absence is not staleness: an entity that has never been created is
/// reported on attempt 1, not after the window.
pub proof fn lemma_unavailable_immediate<R>(events: Seq<PollEvent<R>>)
    requires
        events.len() > 0,
        events[0] == PollEvent::<R>::Unavailable,
    ensures
        run_from(0, events) == (1int, Some(PollOutcome::<R>::Unavailable)),
{
}

/// Bounded wait: when no check during the window ever has news, the poll
/// ends in `Exhausted` after exactly `MAX_POLL_ATTEMPTS` checks — it neither
/// gives up earlier nor hangs on.
pub proof fn lemma_bounded_wait_exhaustion<R>(events: Seq<PollEvent<R>>)
    requires
        events.len() >= MAX_POLL_ATTEMPTS as int,
        forall|i: int| 0 <= i < events.len() ==> events[i] is NotYet,
    ensures
        run_from(0, events) == (MAX_POLL_ATTEMPTS as int, Some(PollOutcome::<R>::Exhausted)),
{
    lemma_exhaustion_from(0, events);
}

/// The induction behind `lemma_bounded_wait_exhaustion`: from any point in
/// the window, all-quiet events walk the counter up to the budget and end in
/// `Exhausted` exactly there.
proof fn lemma_exhaustion_from<R>(attempts_before: int, events: Seq<PollEvent<R>>)
    requires
        0 <= attempts_before < MAX_POLL_ATTEMPTS as int,
        attempts_before + events.len() >= MAX_POLL_ATTEMPTS as int,
        forall|i: int| 0 <= i < events.len() ==> events[i] is NotYet,
    ensures
        run_from(attempts_before, events) == (
            MAX_POLL_ATTEMPTS as int,
            Some(PollOutcome::<R>::Exhausted),
        ),
    decreases events.len(),
{
    if attempts_before + 1 < MAX_POLL_ATTEMPTS as int {
        lemma_exhaustion_from(attempts_before + 1, events.drop_first());
    }
}

} // verus!
