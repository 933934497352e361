//! The shutdown coordinator.
//!
//! After the termination signal, the coordinator owns the worker pool and
//! hands every worker out to be stopped, exactly once, whatever the outcome
//! of earlier stops. It records each outcome and aggregates them: the
//! shutdown is clean only when every worker stopped cleanly.
//!
//! Waiting for the signal and issuing the actual stop are outside work; the
//! runtime around this session performs them and reports back.

use vstd::prelude::*;

use crate::backend::WorkerHandle;
use crate::orchestrator::OrchestrationError;

verus! {

/// One shutdown run over a worker pool. The session consumes the pool: once
/// opened, the pool has a single owner, and each worker leaves it exactly
/// once.
pub struct ShutdownSession {
    initial: Ghost<Seq<WorkerHandle>>,
    handed: Ghost<Seq<WorkerHandle>>,
    remaining: Vec<WorkerHandle>,
    clean: Vec<u64>,
    failed: Vec<u64>,
}

impl ShutdownSession {
    /// The pool this session was opened with.
    pub closed spec fn spec_initial(self) -> Seq<WorkerHandle> {
        self.initial@
    }

    /// The workers handed out for stopping so far, in that order.
    pub closed spec fn spec_handed(self) -> Seq<WorkerHandle> {
        self.handed@
    }

    /// The workers not yet handed out.
    pub closed spec fn spec_remaining(self) -> Seq<WorkerHandle> {
        self.remaining@
    }

    /// The workers recorded as stopped cleanly.
    pub closed spec fn spec_clean(self) -> Seq<u64> {
        self.clean@
    }

    /// The workers recorded as failing to stop.
    pub closed spec fn spec_failed(self) -> Seq<u64> {
        self.failed@
    }

    /// The session invariant: the pool is split exactly into what was handed
    /// out and what remains, so nothing is lost and nothing is handed twice.
    pub open spec fn wf(self) -> bool {
        self.spec_initial() == self.spec_handed() + self.spec_remaining()
    }

    /// Take ownership of the pool. Nothing is handed out or recorded yet.
    pub fn new(pool: Vec<WorkerHandle>) -> (s: ShutdownSession)
        ensures
            s.wf(),
            s.spec_initial() == pool@,
            s.spec_handed() == Seq::<WorkerHandle>::empty(),
            s.spec_remaining() == pool@,
            s.spec_clean() == Seq::<u64>::empty(),
            s.spec_failed() == Seq::<u64>::empty(),
    {
        let s = ShutdownSession {
            initial: Ghost(pool@),
            handed: Ghost(Seq::empty()),
            remaining: pool,
            clean: Vec::new(),
            failed: Vec::new(),
        };
        proof {
            assert(s.spec_initial() =~= s.spec_handed() + s.spec_remaining());
        }
        s
    }

    /// Hand out the next worker to stop. Every call hands out a worker while
    /// any remains, no matter which earlier stops failed; each worker is
    /// handed out exactly once.
    pub fn next_worker(&mut self) -> (r: Option<WorkerHandle>)
        requires
            old(self).wf(),
        ensures
            final(self).wf(),
            final(self).spec_initial() == old(self).spec_initial(),
            final(self).spec_clean() == old(self).spec_clean(),
            final(self).spec_failed() == old(self).spec_failed(),
            if old(self).spec_remaining().len() == 0 {
                &&& r is None
                &&& final(self).spec_handed() == old(self).spec_handed()
                &&& final(self).spec_remaining() == old(self).spec_remaining()
            } else {
                &&& r == Some(old(self).spec_remaining().first())
                &&& final(self).spec_handed() == old(self).spec_handed().push(
                    old(self).spec_remaining().first(),
                )
                &&& final(self).spec_remaining() == old(self).spec_remaining().drop_first()
            },
    {
        if self.remaining.len() == 0 {
            return None;
        }
        let ghost rem0 = self.remaining@;
        let h = self.remaining.remove(0);
        proof {
            self.handed@ = self.handed@.push(h);
            assert(rem0.remove(0) =~= rem0.drop_first());
            assert(self.spec_initial() =~= self.spec_handed() + self.spec_remaining());
        }
        Some(h)
    }

    /// Record the outcome of stopping one worker.
    pub fn record_stop(&mut self, worker: u64, ok: bool)
        requires
            old(self).wf(),
        ensures
            final(self).wf(),
            final(self).spec_initial() == old(self).spec_initial(),
            final(self).spec_handed() == old(self).spec_handed(),
            final(self).spec_remaining() == old(self).spec_remaining(),
            ok ==> (final(self).spec_clean() == old(self).spec_clean().push(worker)
                && final(self).spec_failed() == old(self).spec_failed()),
            !ok ==> (final(self).spec_failed() == old(self).spec_failed().push(worker)
                && final(self).spec_clean() == old(self).spec_clean()),
    {
        if ok {
            self.clean.push(worker);
        } else {
            self.failed.push(worker);
        }
    }

    /// Whether every worker has been handed out.
    pub fn done(&self) -> (r: bool)
        ensures
            r == (self.spec_remaining().len() == 0),
    {
        self.remaining.len() == 0
    }

    /// Whether every recorded stop was clean so far.
    pub fn clean_shutdown(&self) -> (r: bool)
        ensures
            r == (self.spec_failed().len() == 0),
    {
        self.failed.len() == 0
    }

    /// The process exit status the run ends with: zero only when every
    /// recorded stop was clean.
    pub fn exit_status(&self) -> (r: i32)
        ensures
            r == if self.spec_failed().len() == 0 {
                0int
            } else {
                1int
            },
    {
        if self.failed.len() == 0 {
            0
        } else {
            1
        }
    }

    /// The aggregate outcome: success only if every worker stopped cleanly,
    /// else the first worker that failed to stop.
    pub fn result(&self) -> (r: Result<(), OrchestrationError>)
        ensures
            self.spec_failed().len() == 0 ==> r is Ok,
            self.spec_failed().len() > 0 ==> (r matches Err(e) && e
                matches OrchestrationError::StopFailure { worker } && worker == self.spec_failed()[
                0
            ]),
    {
        if self.failed.len() == 0 {
            Ok(())
        } else {
            Err(OrchestrationError::StopFailure { worker: self.failed[0] })
        }
    }
}

/// Once the pool is drained, exactly the whole pool was handed out for
/// stopping, in order, each worker once — regardless of how many stops were
/// recorded as failed.
pub proof fn lemma_shutdown_hands_out_pool(s: ShutdownSession)
    requires
        s.wf(),
        s.spec_remaining().len() == 0,
    ensures
        s.spec_handed() == s.spec_initial(),
{
    assert(s.spec_handed() =~= s.spec_handed() + s.spec_remaining());
}

} // verus!
