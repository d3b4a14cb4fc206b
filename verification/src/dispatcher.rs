//! The execution-backend capability and the concurrency-bounded
//! dispatcher's admission logic.
//!
//! The dispatcher wraps an execution backend so that at most `bound`
//! executions are in flight at once.  Its admission state is a counting
//! pool of permits plus a queue of waiting tickets, and every change to
//! that state goes through the small set of verified transitions below:
//!
//! * [`BoundedCommandRunner::submit`] — a caller asks for admission and is
//!   either admitted at once or queued;
//! * [`BoundedCommandRunner::complete`] — an admitted execution finished
//!   with a result or an error; its outcome is passed through unchanged
//!   and its permit is released;
//! * [`BoundedCommandRunner::settle`] — an admitted execution ended
//!   without an outcome to surface (the outer caller cancelled and the
//!   inner execution was cancelled or ran out silently); its permit is
//!   released all the same;
//! * [`BoundedCommandRunner::abandon`] — a still-waiting caller gave up
//!   its place in the queue; it held no permit, so none is released.
//!
//! Release is tied to the end of the inner execution, never to the outer
//! caller's continued interest, so a permit can never leak: the host that
//! drives the actual executions calls `complete` or `settle` exactly once
//! per admitted ticket, whatever became of the caller.

use vstd::prelude::*;
use crate::process_result::FallibleExecuteProcessResult;
use crate::request::ExecuteProcessRequest;

verus! {

/// An opaque work-unit tracking handle, carried through an execution for
/// observability correlation only and never consulted for control flow.
#[derive(Clone, Copy, Debug)]
pub struct WorkUnitStore {}

impl WorkUnitStore {
    pub fn new() -> WorkUnitStore {
        WorkUnitStore {  }
    }
}

/// The capability every execution backend satisfies: given a process
/// request and a work-unit tracking handle, produce either a process
/// result or a human-readable error string.  A backend never mutates the
/// request, and a result with a non-zero exit code is a successful
/// completion of this contract, not an error.
pub trait CommandRunner {
    fn run(&self, req: ExecuteProcessRequest, workunit_store: WorkUnitStore) -> Result<
        FallibleExecuteProcessResult,
        String,
    >;
}

/// The admission state as a mathematical value: the configured bound,
/// the permits currently free, the executions currently in flight, and
/// the queue of waiting tickets, longest-waiting first.
#[verifier::ext_equal]
pub struct PoolState {
    pub bound: int,
    pub available: int,
    pub in_flight: int,
    pub waiters: Seq<u64>,
}

impl PoolState {
    /// Permits are conserved: what is free plus what is in flight is
    /// always exactly the configured bound.  This is the no-leak
    /// invariant; every transition below preserves it.
    pub open spec fn inv(self) -> bool {
        &&& 1 <= self.bound
        &&& 0 <= self.available
        &&& 0 <= self.in_flight
        &&& self.available + self.in_flight == self.bound
    }

    /// Admission: take a free permit if there is one, else queue.
    pub open spec fn submit_step(self, ticket: u64) -> (PoolState, bool) {
        if self.available > 0 {
            (
                PoolState {
                    available: self.available - 1,
                    in_flight: self.in_flight + 1,
                    ..self
                },
                true,
            )
        } else {
            (PoolState { waiters: self.waiters.push(ticket), ..self }, false)
        }
    }

    /// Release at the end of an inner execution: the permit goes to the
    /// longest-waiting ticket if any caller is queued, else back to the
    /// pool.  The transition does not depend on how the execution ended.
    pub open spec fn settle_step(self) -> (PoolState, Option<u64>) {
        if self.waiters.len() > 0 {
            (PoolState { waiters: self.waiters.drop_first(), ..self }, Some(self.waiters[0]))
        } else {
            (
                PoolState {
                    available: self.available + 1,
                    in_flight: self.in_flight - 1,
                    ..self
                },
                None,
            )
        }
    }
}

/// A wrapper around an execution backend that limits the number of its
/// concurrent executions.  This type holds the verified admission state;
/// the host owning the actual backend keeps one such pool behind a shared
/// handle, drives it through the transitions, and performs the executions
/// the admissions allow.
#[derive(Debug)]
pub struct BoundedCommandRunner {
    bound: usize,
    available: usize,
    in_flight: usize,
    waiters: Vec<u64>,
}

impl View for BoundedCommandRunner {
    type V = PoolState;

    closed spec fn view(&self) -> PoolState {
        PoolState {
            bound: self.bound as int,
            available: self.available as int,
            in_flight: self.in_flight as int,
            waiters: self.waiters@,
        }
    }
}

impl BoundedCommandRunner {
    /// A fresh dispatcher with `bound` permits, all free.
    pub fn new(bound: usize) -> (r: BoundedCommandRunner)
        requires
            1 <= bound,
        ensures
            r@.inv(),
            r@.bound == bound,
            r@.available == bound,
            r@.in_flight == 0,
            r@.waiters == Seq::<u64>::empty(),
    {
        let r = BoundedCommandRunner { bound, available: bound, in_flight: 0, waiters: Vec::new() };
        proof {
            assert(r@.waiters =~= Seq::<u64>::empty());
        }
        r
    }

    /// The configured admission bound.
    pub fn bound(&self) -> (r: usize)
        ensures
            r == self@.bound,
    {
        self.bound
    }

    /// How many permits are currently free.
    pub fn available(&self) -> (r: usize)
        ensures
            r == self@.available,
    {
        self.available
    }

    /// How many admitted executions have not yet settled.
    pub fn in_flight(&self) -> (r: usize)
        ensures
            r == self@.in_flight,
    {
        self.in_flight
    }

    /// How many callers are waiting for admission.
    pub fn waiting(&self) -> (r: usize)
        ensures
            r == self@.waiters.len(),
    {
        self.waiters.len()
    }

    /// A caller identified by `ticket` asks for admission.  It is
    /// admitted immediately exactly when a permit is free; otherwise it
    /// joins the back of the queue.  Admission never fails: a full pool
    /// only delays.
    pub fn submit(&mut self, ticket: u64) -> (admitted: bool)
        requires
            old(self)@.inv(),
        ensures
            final(self)@.inv(),
            (final(self)@, admitted) == old(self)@.submit_step(ticket),
            admitted == (old(self)@.available > 0),
    {
        if self.available > 0 {
            self.available = self.available - 1;
            self.in_flight = self.in_flight + 1;
            proof {
                assert(self@ =~= old(self)@.submit_step(ticket).0);
            }
            true
        } else {
            self.waiters.push(ticket);
            proof {
                assert(self@ =~= old(self)@.submit_step(ticket).0);
            }
            false
        }
    }

    /// An admitted execution has ended with no outcome left to surface —
    /// the outer caller cancelled and the inner execution was cancelled
    /// or finished unobserved.  Its permit is released exactly as on
    /// completion: handed to the longest-waiting ticket, or returned to
    /// the pool.
    pub fn settle(&mut self) -> (next: Option<u64>)
        requires
            old(self)@.inv(),
            old(self)@.in_flight > 0,
        ensures
            final(self)@.inv(),
            (final(self)@, next) == old(self)@.settle_step(),
            old(self)@.waiters.len() > 0 ==> next == Some(old(self)@.waiters[0]),
            old(self)@.waiters.len() == 0 ==> next is None && final(self)@.available == old(
                self,
            )@.available + 1,
    {
        if self.waiters.len() > 0 {
            let t = self.waiters.remove(0);
            proof {
                assert(self@.waiters =~= old(self)@.waiters.drop_first());
                assert(self@ =~= old(self)@.settle_step().0);
            }
            Some(t)
        } else {
            self.available = self.available + 1;
            self.in_flight = self.in_flight - 1;
            proof {
                assert(self@ =~= old(self)@.settle_step().0);
            }
            None
        }
    }

    /// An admitted execution has completed with `outcome`.  The outcome
    /// — success or error alike — is passed through unchanged, with no
    /// translation and no new error kind, and the permit is released as
    /// in [`BoundedCommandRunner::settle`].
    pub fn complete(&mut self, outcome: Result<FallibleExecuteProcessResult, String>) -> (r: (
        Result<FallibleExecuteProcessResult, String>,
        Option<u64>,
    ))
        requires
            old(self)@.inv(),
            old(self)@.in_flight > 0,
        ensures
            final(self)@.inv(),
            r.0 == outcome,
            (final(self)@, r.1) == old(self)@.settle_step(),
    {
        let next = self.settle();
        (outcome, next)
    }

    /// A caller still waiting in the queue gave up (its future was
    /// dropped before admission).  Its first queued occurrence is
    /// removed; it held no permit, so the pool's counters do not move.
    pub fn abandon(&mut self, ticket: u64)
        requires
            old(self)@.inv(),
        ensures
            final(self)@.inv(),
            final(self)@.bound == old(self)@.bound,
            final(self)@.available == old(self)@.available,
            final(self)@.in_flight == old(self)@.in_flight,
            !old(self)@.waiters.contains(ticket) ==> final(self)@.waiters == old(self)@.waiters,
            old(self)@.waiters.contains(ticket) ==> exists|i: int|
                {
                    &&& 0 <= i < old(self)@.waiters.len()
                    &&& old(self)@.waiters[i] == ticket
                    &&& (forall|j: int| 0 <= j < i ==> old(self)@.waiters[j] != ticket)
                    &&& final(self)@.waiters == old(self)@.waiters.remove(i)
                },
    {
        let n = self.waiters.len();
        let mut i: usize = 0;
        while i < n
            invariant
                old(self)@.inv(),
                n == self.waiters.len(),
                i <= n,
                *self == *old(self),
                forall|j: int| 0 <= j < i ==> self.waiters@[j] != ticket,
            decreases n - i,
        {
            if self.waiters[i] == ticket {
                self.waiters.remove(i);
                proof {
                    assert(old(self)@.waiters.contains(ticket));
                }
                return ;
            }
            i = i + 1;
        }
    }
}

/// No more than `bound` executions are ever in flight: in any state the
/// transitions can reach, what is running is the configured bound less
/// the free permits, and so never exceeds the bound.
pub proof fn lemma_admission_bound(s: PoolState)
    requires
        s.inv(),
    ensures
        s.in_flight <= s.bound,
{
}

/// Permits never leak, whatever mix of completions and cancellations
/// occurs: every transition keeps free permits plus in-flight executions
/// equal to the bound, so once every admitted execution has settled the
/// pool is exactly as full as at construction.  Cancellation takes the
/// same release transition as completion, so a cancelled call frees its
/// capacity just as a completed one does: the next waiter, if any, is
/// admitted on the spot.
pub proof fn lemma_no_permit_leak(s: PoolState, ticket: u64)
    requires
        s.inv(),
    ensures
        s.submit_step(ticket).0.inv(),
        s.in_flight > 0 ==> s.settle_step().0.inv(),
        s.in_flight > 0 && s.waiters.len() > 0 ==> s.settle_step().1 == Some(s.waiters[0]),
        s.in_flight > 0 && s.waiters.len() == 0 ==> s.settle_step().0.available == s.available + 1,
{
}

/// The states and admitted tickets after `k` releases from `s`, each
/// release being the end of one in-flight execution.
pub open spec fn drain_steps(s: PoolState, k: nat) -> (PoolState, Seq<u64>)
    decreases k,
{
    if k == 0 {
        (s, Seq::<u64>::empty())
    } else {
        let (s1, next) = s.settle_step();
        let (s2, rest) = drain_steps(s1, (k - 1) as nat);
        match next {
            Some(t) => (s2, seq![t] + rest),
            None => (s2, rest),
        }
    }
}

/// No waiter starves: the queue is served longest-waiting first, so the
/// waiter at position `i` is admitted by the time `i + 1` in-flight
/// executions have ended — however the stream of releases is interleaved
/// with new submissions, which only ever join the back of the queue.
pub proof fn lemma_no_starvation(s: PoolState, k: nat)
    requires
        s.inv(),
        s.in_flight >= 1,
        k <= s.waiters.len(),
    ensures
        drain_steps(s, k).1 == s.waiters.take(k as int),
        drain_steps(s, k).0.waiters == s.waiters.skip(k as int),
        drain_steps(s, k).0.available == s.available,
        drain_steps(s, k).0.in_flight == s.in_flight,
        drain_steps(s, k).0.inv(),
    decreases k,
{
    if k == 0 {
        assert(drain_steps(s, k).1 =~= s.waiters.take(0));
        assert(drain_steps(s, k).0.waiters =~= s.waiters.skip(0));
    } else {
        let (s1, next) = s.settle_step();
        assert(s.waiters.len() > 0);
        assert(next == Some(s.waiters[0]));
        assert(s1.waiters == s.waiters.drop_first());
        lemma_no_starvation(s1, (k - 1) as nat);
        let (s2, rest) = drain_steps(s1, (k - 1) as nat);
        assert(rest == s1.waiters.take(k - 1));
        assert(drain_steps(s, k).1 == seq![s.waiters[0]] + rest);
        assert(seq![s.waiters[0]] + s.waiters.drop_first().take(k - 1) =~= s.waiters.take(
            k as int,
        ));
        assert(drain_steps(s, k).0.waiters == s1.waiters.skip(k - 1));
        assert(s.waiters.drop_first().skip(k - 1) =~= s.waiters.skip(k as int));
    }
}

/// A new submission never delays those already waiting: whether or not
/// it is admitted at once, every ticket already in the queue keeps its
/// position.
pub proof fn lemma_submission_keeps_positions(s: PoolState, ticket: u64, i: int)
    requires
        s.inv(),
        0 <= i < s.waiters.len(),
    ensures
        s.submit_step(ticket).0.waiters[i] == s.waiters[i],
{
}

} // verus!
