//! Upload worker pool: fail-fast scheduling of chunk uploads over a
//! bounded set of workers.
//!
//! `PoolState` holds the shared scheduling state (claim / complete /
//! verdict); a driver loop — the concurrent one lives outside the
//! verified core — repeatedly claims a chunk, performs the upload, and
//! reports the outcome back.  `run_pool` is the deterministic round
//! model of that schedule: each round dispatches up to `workers` chunks,
//! every dispatched chunk completes, and after a round that saw the
//! first failure no further chunk is dispatched.

use vstd::prelude::*;

verus! {

/// What one bulk-insert request came back with: the remote identifiers,
/// one per submitted record, or the endpoint's status and diagnostic body.
#[derive(Debug)]
pub enum UploadOutcome {
    Accepted { ids: Vec<i32> },
    Rejected { status: u16, body: String },
}

/// The first terminal error of a run: which chunk failed, with the
/// endpoint's status and body excerpt.
#[derive(Debug)]
pub struct UploadError {
    pub chunk_index: usize,
    pub status: u16,
    pub body: String,
}

/// Whether the endpoint accepted the whole batch.
pub open spec fn is_success(o: UploadOutcome) -> bool {
    o is Accepted
}

/// No failure among the first `m` outcomes.
pub open spec fn fail_free(o: Seq<UploadOutcome>, m: int) -> bool {
    forall|j: int| 0 <= j < m ==> is_success(#[trigger] o[j])
}

/// How many of the outcomes are successes: the progress counter's final
/// value over that prefix.
pub open spec fn count_successes(o: Seq<UploadOutcome>) -> int
    decreases o.len(),
{
    if o.len() == 0 {
        0
    } else {
        count_successes(o.drop_last()) + if is_success(o.last()) {
            1int
        } else {
            0int
        }
    }
}

/// `e` describes the first failing outcome of `o`, for a run over `n`
/// chunks with the given worker count: minimal failing index, the
/// endpoint's status and body, and dispatch stopped at the end of the
/// round that saw the failure.
pub open spec fn first_failure_of(
    o: Seq<UploadOutcome>,
    e: UploadError,
    attempted: int,
    workers: int,
) -> bool {
    &&& 0 <= e.chunk_index < o.len()
    &&& !is_success(o[e.chunk_index as int])
    &&& fail_free(o, e.chunk_index as int)
    &&& o[e.chunk_index as int] matches UploadOutcome::Rejected { status, body } ==> (e.status
        == status && e.body@ == body@)
    &&& attempted == vstd::math::min(o.len() as int, (e.chunk_index as int / workers + 1) * workers)
}

/// Everything the pool reports about one run.
#[derive(Debug)]
pub struct PoolReport {
    /// Chunks that some worker claimed and carried through.
    pub attempted: usize,
    /// Chunks whose upload succeeded: the progress counter's final value.
    pub completed: usize,
    /// Dispatch rounds driven before the run ended.
    pub rounds: usize,
    /// Unit success, or the first observed error.
    pub result: Result<(), UploadError>,
}

/// The pool's contract: what `r` must look like for outcome sequence `o`
/// and worker count `w`.
pub open spec fn pool_spec(o: Seq<UploadOutcome>, w: int, r: PoolReport) -> bool {
    &&& r.attempted <= o.len()
    &&& r.completed == count_successes(o.take(r.attempted as int))
    &&& (r.result is Ok <==> fail_free(o, o.len() as int))
    &&& (r.result is Ok ==> r.attempted == o.len() && r.completed == o.len())
    &&& (r.result matches Err(e) ==> first_failure_of(o, e, r.attempted as int, w))
    &&& (r.result is Err ==> r.completed < o.len())
    &&& r.rounds <= (o.len() + w - 1) as int / w
    &&& (r.result is Ok ==> r.rounds == (o.len() + w - 1) as int / w)
    &&& (r.result matches Err(e) ==> r.rounds == e.chunk_index as int / w + 1)
}

/// Runs the round model of the pool: `outcomes[i]` is what the endpoint
/// answers for chunk `i` if that chunk is ever dispatched.  Dispatches
/// up to `workers` chunks per round in file order, lets every dispatched
/// chunk finish, and stops dispatching after the first round that
/// contains a failure.  The first failing chunk (in file order) is the
/// error surfaced; later failures are suppressed.
pub fn run_pool(outcomes: &Vec<UploadOutcome>, workers: usize) -> (r: PoolReport)
    requires
        workers >= 1,
    ensures
        pool_spec(outcomes@, workers as int, r),
{
    let n: usize = outcomes.len();
    let mut i: usize = 0;
    let mut completed: usize = 0;
    let mut rounds: usize = 0;
    let mut failed: Option<UploadError> = None;
    while i < n && failed.is_none()
        invariant
            workers >= 1,
            n == outcomes@.len(),
            i <= n,
            i <= rounds * workers,
            rounds * workers <= i + workers - 1,
            i == rounds * workers || i == n,
            rounds <= i,
            completed <= i,
            completed == count_successes(outcomes@.take(i as int)),
            failed is None ==> fail_free(outcomes@, i as int),
            failed matches Some(e) ==> {
                &&& rounds >= 1
                &&& (rounds - 1) * workers <= e.chunk_index < i
                &&& !is_success(outcomes@[e.chunk_index as int])
                &&& fail_free(outcomes@, e.chunk_index as int)
                &&& outcomes@[e.chunk_index as int] matches UploadOutcome::Rejected {
                    status,
                    body,
                } ==> (e.status == status && e.body@ == body@)
                &&& completed < i
            },
        decreases n - i,
    {
        rounds = rounds + 1;
        proof {
            assert(rounds * workers == (rounds - 1) * workers + workers) by (nonlinear_arith);
        }
        let round_end: usize = if n - i >= workers {
            i + workers
        } else {
            n
        };
        let ghost round_start = i as int;
        while i < round_end
            invariant
                workers >= 1,
                n == outcomes@.len(),
                round_start <= i <= round_end <= n,
                round_end <= round_start + workers,
                round_start < n,
                round_end > round_start,
                rounds <= round_start + 1,
                rounds * workers == round_start + workers,
                completed <= i,
                completed == count_successes(outcomes@.take(i as int)),
                failed is None ==> fail_free(outcomes@, i as int),
                failed matches Some(e) ==> {
                    &&& round_start <= e.chunk_index < i
                    &&& !is_success(outcomes@[e.chunk_index as int])
                    &&& fail_free(outcomes@, e.chunk_index as int)
                    &&& outcomes@[e.chunk_index as int] matches UploadOutcome::Rejected {
                        status,
                        body,
                    } ==> (e.status == status && e.body@ == body@)
                    &&& completed < i
                },
            decreases round_end - i,
        {
            proof {
                assert(outcomes@.take(i + 1).drop_last() =~= outcomes@.take(i as int));
                assert(outcomes@.take(i + 1).last() == outcomes@[i as int]);
            }
            match &outcomes[i] {
                UploadOutcome::Accepted { ids: _ } => {
                    completed = completed + 1;
                },
                UploadOutcome::Rejected { status, body } => {
                    if failed.is_none() {
                        failed = Some(
                            UploadError {
                                chunk_index: i,
                                status: *status,
                                body: body.clone(),
                            },
                        );
                    }
                },
            }
            i = i + 1;
        }
    }
    proof {
        assert(outcomes@.take(n as int) =~= outcomes@);
        if failed is Some {
            let e = failed->0;
            let k = e.chunk_index as int;
            let w = workers as int;
            assert(k / w == rounds - 1) by (nonlinear_arith)
                requires
                    w >= 1,
                    rounds >= 1,
                    (rounds - 1) * w <= k,
                    k < rounds * w,
            ;
            assert(i == vstd::math::min(n as int, (k / w + 1) * w));
            assert(!fail_free(outcomes@, n as int));
            assert(rounds <= (n + w - 1) as int / w) by (nonlinear_arith)
                requires
                    w >= 1,
                    rounds >= 1,
                    (rounds - 1) * w <= k,
                    k < n,
            ;
        } else {
            assert(i == n);
            assert(rounds == (n + workers - 1) as int / (workers as int)) by (nonlinear_arith)
                requires
                    workers >= 1,
                    n <= rounds * workers,
                    rounds * workers <= n + workers - 1,
            ;
            lemma_count_successes_fail_free(outcomes@);
        }
    }
    match failed {
        None => PoolReport { attempted: i, completed, rounds, result: Ok(()) },
        Some(e) => PoolReport { attempted: i, completed, rounds, result: Err(e) },
    }
}

/// On a failure-free prefix the progress counter reaches the prefix
/// length: every outcome counted as a success.
pub proof fn lemma_count_successes_fail_free(o: Seq<UploadOutcome>)
    requires
        fail_free(o, o.len() as int),
    ensures
        count_successes(o) == o.len(),
    decreases o.len(),
{
    if o.len() > 0 {
        assert(is_success(o.last()));
        lemma_count_successes_fail_free(o.drop_last());
    }
}

/// The run's verdict does not depend on the worker count: for the same
/// outcome sequence, any two worker counts give the same final
/// success/failure result, surface the same first error, and — when the
/// run succeeds — attempt exactly the same chunks (all of them).
pub proof fn lemma_pool_verdict_independent_of_workers(
    o: Seq<UploadOutcome>,
    w1: int,
    w2: int,
    r1: PoolReport,
    r2: PoolReport,
)
    requires
        w1 >= 1,
        w2 >= 1,
        pool_spec(o, w1, r1),
        pool_spec(o, w2, r2),
    ensures
        r1.result is Ok <==> r2.result is Ok,
        r1.result is Err && r2.result is Err ==> {
            let e1 = r1.result->Err_0;
            let e2 = r2.result->Err_0;
            e1.chunk_index == e2.chunk_index && e1.status == e2.status && e1.body@ == e2.body@
        },
        r1.result is Ok ==> r1.attempted == o.len() && r2.attempted == o.len(),
{
    if r1.result is Err {
        if r2.result is Err {
            let k1 = r1.result->Err_0.chunk_index as int;
            let k2 = r2.result->Err_0.chunk_index as int;
            if k1 < k2 {
                assert(is_success(o[k1]));
                assert(false);
            }
            if k2 < k1 {
                assert(is_success(o[k2]));
                assert(false);
            }
        }
    }
}

/// Shared scheduling state of one pool run: the only mutable state
/// workers share.  `completed` is the progress counter; `first_error`
/// is the single-slot, first-writer-wins holder of the surfaced error;
/// `cancelled` stops any further dispatch.
#[derive(Debug)]
pub struct PoolState {
    pub total: usize,
    pub dispatched: usize,
    pub in_flight: usize,
    pub completed: usize,
    pub cancelled: bool,
    pub first_error: Option<UploadError>,
}

impl PoolState {
    /// Internal consistency of the scheduling state.
    pub open spec fn wf(self) -> bool {
        &&& self.dispatched <= self.total
        &&& self.in_flight <= self.dispatched
        &&& self.completed + self.in_flight <= self.dispatched
        &&& (self.cancelled <==> self.first_error is Some)
        &&& (self.first_error matches Some(e) ==> e.chunk_index < self.dispatched)
    }

    /// Fresh state for a run over `total` chunks: nothing dispatched,
    /// nothing completed, not cancelled.
    pub fn new(total: usize) -> (r: PoolState)
        ensures
            r.wf(),
            r.total == total,
            r.dispatched == 0,
            r.in_flight == 0,
            r.completed == 0,
            !r.cancelled,
            r.first_error is None,
    {
        PoolState {
            total,
            dispatched: 0,
            in_flight: 0,
            completed: 0,
            cancelled: false,
            first_error: None,
        }
    }

    /// A worker asks for the next chunk.  Hands out the next
    /// not-yet-claimed index in file order, or nothing once the queue is
    /// drained or the run is cancelled — no new chunk is dispatched
    /// after the first error was recorded.
    pub fn try_claim(&mut self) -> (r: Option<usize>)
        requires
            old(self).wf(),
        ensures
            final(self).wf(),
            final(self).total == old(self).total,
            final(self).completed == old(self).completed,
            final(self).cancelled == old(self).cancelled,
            final(self).first_error == old(self).first_error,
            !old(self).cancelled && old(self).dispatched < old(self).total ==> (r == Some(
                old(self).dispatched,
            ) && final(self).dispatched == old(self).dispatched + 1 && final(self).in_flight == old(
                self,
            ).in_flight + 1),
            old(self).cancelled || old(self).dispatched >= old(self).total ==> (r is None
                && *final(self) == *old(self)),
    {
        if !self.cancelled && self.dispatched < self.total {
            let idx = self.dispatched;
            self.dispatched = self.dispatched + 1;
            self.in_flight = self.in_flight + 1;
            Some(idx)
        } else {
            None
        }
    }

    /// A worker reports the outcome of the chunk it claimed.  Success
    /// increments the progress counter; the first failure is recorded
    /// and cancels further dispatch; failures after the first are
    /// suppressed.
    pub fn complete(&mut self, chunk_index: usize, outcome: UploadOutcome)
        requires
            old(self).wf(),
            old(self).in_flight >= 1,
            chunk_index < old(self).dispatched,
        ensures
            final(self).wf(),
            final(self).total == old(self).total,
            final(self).dispatched == old(self).dispatched,
            final(self).in_flight == old(self).in_flight - 1,
            is_success(outcome) ==> final(self).completed == old(self).completed + 1
                && final(self).first_error == old(self).first_error && final(self).cancelled == old(
                self,
            ).cancelled,
            !is_success(outcome) ==> final(self).completed == old(self).completed,
            !is_success(outcome) && old(self).first_error is None ==> (final(self).cancelled && (
            final(self).first_error matches Some(e) ==> e.chunk_index == chunk_index && (
            outcome matches UploadOutcome::Rejected { status, body } ==> e.status == status
                && e.body@ == body@)) && final(self).first_error is Some),
            old(self).first_error is Some ==> final(self).first_error == old(self).first_error
                && final(self).cancelled,
    {
        self.in_flight = self.in_flight - 1;
        match outcome {
            UploadOutcome::Accepted { ids: _ } => {
                self.completed = self.completed + 1;
            },
            UploadOutcome::Rejected { status, body } => {
                if self.first_error.is_none() {
                    self.first_error = Some(UploadError { chunk_index, status, body });
                    self.cancelled = true;
                }
            },
        }
    }

    /// The run is over: no chunk is in flight and no further chunk will
    /// be dispatched.
    pub fn is_done(&self) -> (r: bool)
        ensures
            r == (self.in_flight == 0 && (self.cancelled || self.dispatched == self.total)),
    {
        self.in_flight == 0 && (self.cancelled || self.dispatched == self.total)
    }

    /// The run's terminal result: unit success, or the first recorded
    /// error.
    pub fn into_verdict(self) -> (r: Result<(), UploadError>)
        ensures
            self.first_error is None ==> r is Ok,
            self.first_error matches Some(e) ==> (r matches Err(e2) && e2 == e),
    {
        match self.first_error {
            None => Ok(()),
            Some(e) => Err(e),
        }
    }
}

} // verus!
