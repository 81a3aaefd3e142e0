//! The job queue: an unbounded first-in, first-out queue of jobs that a single
//! worker serves.
//!
//! The queue is a state machine. Submitters call [`MessageBus::queue`], the
//! worker calls [`MessageBus::next_step`] and does what the answer says, and
//! whoever tears the queue down calls [`MessageBus::shutdown`]. Running a job,
//! sleeping while there is nothing to do and joining the worker's thread are
//! the caller's business: they happen between two calls, never inside one.

use std::collections::VecDeque;
use vstd::prelude::*;

verus! {

/// The error of a submission that came after shutdown. It hands the job back,
/// so that a rejected job is never lost without the caller knowing.
#[derive(Debug, PartialEq, Eq)]
pub struct SubmissionAfterShutdown<J> {
    /// The job that was not accepted.
    pub job: J,
}

/// What the worker has to do next.
#[derive(Debug, PartialEq, Eq)]
pub enum WorkerStep<J> {
    /// Run this job, then ask again.
    Run(J),
    /// Nothing is pending and the queue is still open: wait for a submission
    /// or for shutdown, then ask again.
    Wait,
    /// The queue is shut and drained: leave the loop.
    Exit,
}

/// One operation on a queue, as it appears in a history of operations.
pub enum BusOp<J> {
    /// A submission of this job.
    Queue(J),
    /// One request of the worker for its next step.
    Step,
    /// The shutdown of the submitting side.
    Shutdown,
}

/// The mathematical state of a queue.
#[verifier::ext_equal]
pub struct BusState<J> {
    /// The jobs accepted and not yet handed to the worker, oldest first.
    pub pending: Seq<J>,
    /// Whether the submitting side has been shut.
    pub closed: bool,
}

impl<J> BusState<J> {
    /// The state of a fresh queue: open, with nothing pending.
    pub open spec fn new() -> Self {
        BusState { pending: Seq::empty(), closed: false }
    }

    /// The state after submitting `job`: an open queue puts it behind all
    /// pending jobs, a shut queue stays as it is.
    pub open spec fn queue(self, job: J) -> Self {
        if self.closed {
            self
        } else {
            BusState { pending: self.pending.push(job), closed: self.closed }
        }
    }

    /// What a submission of `job` reports: success on an open queue, the job
    /// itself as the error on a shut one.
    pub open spec fn queue_result(self, job: J) -> Result<(), SubmissionAfterShutdown<J>> {
        if self.closed {
            Err(SubmissionAfterShutdown { job })
        } else {
            Ok(())
        }
    }

    /// What the worker is told in this state: to run the oldest pending job
    /// if there is one, else to leave if the queue is shut, else to wait.
    pub open spec fn next_step(self) -> WorkerStep<J> {
        if self.pending.len() > 0 {
            WorkerStep::Run(self.pending[0])
        } else if self.closed {
            WorkerStep::Exit
        } else {
            WorkerStep::Wait
        }
    }

    /// The state after the worker asked for its next step: the oldest pending
    /// job, if there was one, is no longer pending.
    pub open spec fn after_step(self) -> Self {
        if self.pending.len() > 0 {
            BusState { pending: self.pending.drop_first(), closed: self.closed }
        } else {
            self
        }
    }

    /// The state after shutdown: shut, with the pending jobs untouched.
    pub open spec fn shutdown(self) -> Self {
        BusState { pending: self.pending, closed: true }
    }

    /// The state after submitting `jobs` one by one, first to last.
    pub open spec fn queue_all(self, jobs: Seq<J>) -> Self
        decreases jobs.len(),
    {
        if jobs.len() == 0 {
            self
        } else {
            self.queue_all(jobs.drop_last()).queue(jobs.last())
        }
    }

    /// The state after the worker asked `n` times for its next step.
    pub open spec fn after_steps(self, n: nat) -> Self
        decreases n,
    {
        if n == 0 {
            self
        } else {
            self.after_steps((n - 1) as nat).after_step()
        }
    }

    /// The state after one operation of a history.
    pub open spec fn apply(self, op: BusOp<J>) -> Self {
        match op {
            BusOp::Queue(job) => self.queue(job),
            BusOp::Step => self.after_step(),
            BusOp::Shutdown => self.shutdown(),
        }
    }

    /// The state after a whole history, first operation first.
    pub open spec fn apply_all(self, ops: Seq<BusOp<J>>) -> Self
        decreases ops.len(),
    {
        if ops.len() == 0 {
            self
        } else {
            self.apply_all(ops.drop_last()).apply(ops.last())
        }
    }

    /// The jobs that the queue accepted in the course of a history, in the
    /// order of their submission.
    pub open spec fn accepted(self, ops: Seq<BusOp<J>>) -> Seq<J>
        decreases ops.len(),
    {
        if ops.len() == 0 {
            Seq::empty()
        } else {
            let before = self.apply_all(ops.drop_last());
            let earlier = self.accepted(ops.drop_last());
            match ops.last() {
                BusOp::Queue(job) => if before.closed {
                    earlier
                } else {
                    earlier.push(job)
                },
                _ => earlier,
            }
        }
    }

    /// The jobs that the worker was told to run in the course of a history,
    /// in the order in which it was told.
    pub open spec fn handed_out(self, ops: Seq<BusOp<J>>) -> Seq<J>
        decreases ops.len(),
    {
        if ops.len() == 0 {
            Seq::empty()
        } else {
            let before = self.apply_all(ops.drop_last());
            let earlier = self.handed_out(ops.drop_last());
            match (ops.last(), before.next_step()) {
                (BusOp::Step, WorkerStep::Run(job)) => earlier.push(job),
                _ => earlier,
            }
        }
    }
}

/// An unbounded first-in, first-out queue of jobs for a single worker.
pub struct MessageBus<J> {
    pending: VecDeque<J>,
    closed: bool,
}

impl<J> View for MessageBus<J> {
    type V = BusState<J>;

    closed spec fn view(&self) -> BusState<J> {
        BusState { pending: self.pending@, closed: self.closed }
    }
}

impl<J> MessageBus<J> {
    /// Makes an open queue with nothing pending.
    pub fn new() -> (bus: Self)
        ensures
            bus@ == BusState::<J>::new(),
    {
        MessageBus { pending: VecDeque::new(), closed: false }
    }

    /// Submits `job`. An open queue accepts it behind every pending job; a
    /// shut queue hands it back in the error and stays as it was.
    pub fn queue(&mut self, job: J) -> (result: Result<(), SubmissionAfterShutdown<J>>)
        ensures
            final(self)@ == old(self)@.queue(job),
            result == old(self)@.queue_result(job),
    {
        if self.closed {
            Err(SubmissionAfterShutdown { job })
        } else {
            self.pending.push_back(job);
            Ok(())
        }
    }

    /// Tells the worker what to do next, and takes the job that it hands out
    /// off the queue.
    pub fn next_step(&mut self) -> (step: WorkerStep<J>)
        ensures
            step == old(self)@.next_step(),
            final(self)@ == old(self)@.after_step(),
    {
        match self.pending.pop_front() {
            Some(job) => WorkerStep::Run(job),
            None => if self.closed {
                WorkerStep::Exit
            } else {
                WorkerStep::Wait
            },
        }
    }

    /// Shuts the submitting side. What is pending stays pending, so the
    /// worker still gets every job that was accepted before.
    pub fn shutdown(&mut self)
        ensures
            final(self)@ == old(self)@.shutdown(),
    {
        self.closed = true;
    }

    /// Whether the submitting side has been shut.
    pub fn is_closed(&self) -> (closed: bool)
        ensures
            closed == self@.closed,
    {
        self.closed
    }

    /// The number of jobs accepted and not yet handed to the worker.
    pub fn pending_jobs(&self) -> (n: usize)
        ensures
            n == self@.pending.len(),
    {
        self.pending.len()
    }
}

/// Submitting `jobs` one by one puts them, in their order, behind what was
/// pending on an open queue, and leaves a shut queue as it was.
pub proof fn lemma_queue_all<J>(start: BusState<J>, jobs: Seq<J>)
    ensures
        start.closed ==> start.queue_all(jobs) == start,
        !start.closed ==> start.queue_all(jobs).pending == start.pending + jobs,
        !start.closed ==> !start.queue_all(jobs).closed,
    decreases jobs.len(),
{
    if jobs.len() > 0 {
        lemma_queue_all(start, jobs.drop_last());
    }
}

/// The first `n` requests of the worker take the `n` oldest pending jobs.
pub proof fn lemma_after_steps<J>(state: BusState<J>, n: nat)
    requires
        n <= state.pending.len(),
    ensures
        state.after_steps(n).pending == state.pending.skip(n as int),
        state.after_steps(n).closed == state.closed,
    decreases n,
{
    if n > 0 {
        lemma_after_steps(state, (n - 1) as nat);
    }
}

/// First in, first out. When jobs are submitted to an open queue one after
/// another, the worker is told to run what was pending before and then
/// exactly these jobs, each once and in the order of their submission; after
/// the last of them it is told to wait.
pub proof fn law_fifo<J>(start: BusState<J>, jobs: Seq<J>)
    requires
        !start.closed,
    ensures
        start.queue_all(jobs).pending == start.pending + jobs,
        forall|k: nat|
            k < (start.pending + jobs).len() ==> #[trigger] start.queue_all(jobs).after_steps(
                k,
            ).next_step() == WorkerStep::Run((start.pending + jobs)[k as int]),
        start.queue_all(jobs).after_steps((start.pending + jobs).len()).next_step()
            == WorkerStep::<J>::Wait,
{
    lemma_queue_all(start, jobs);
    let filled = start.queue_all(jobs);
    assert forall|k: nat| k < filled.pending.len() implies #[trigger] filled.after_steps(
        k,
    ).next_step() == WorkerStep::Run(filled.pending[k as int]) by {
        lemma_after_steps(filled, k);
    }
    lemma_after_steps(filled, filled.pending.len());
}

/// Nothing is lost, repeated or reordered. Whatever submissions, requests of
/// the worker and shutdowns a queue goes through, and in whatever order, the
/// jobs handed to the worker so far followed by the jobs still pending are
/// the jobs pending at the start followed by the jobs accepted since, in the
/// order of their submission.
pub proof fn law_nothing_lost_or_reordered<J>(start: BusState<J>, ops: Seq<BusOp<J>>)
    ensures
        start.handed_out(ops) + start.apply_all(ops).pending == start.pending + start.accepted(
            ops,
        ),
    decreases ops.len(),
{
    if ops.len() > 0 {
        law_nothing_lost_or_reordered(start, ops.drop_last());
        let before = start.apply_all(ops.drop_last());
        let handed = start.handed_out(ops.drop_last());
        let accepted = start.accepted(ops.drop_last());
        match ops.last() {
            BusOp::Queue(job) => {
                if !before.closed {
                    assert(handed + before.pending.push(job) == (handed + before.pending).push(
                        job,
                    ));
                    assert(start.pending + accepted.push(job) == (start.pending + accepted).push(
                        job,
                    ));
                }
            },
            BusOp::Step => {
                if before.pending.len() > 0 {
                    assert(handed.push(before.pending[0]) + before.pending.drop_first() == handed
                        + before.pending);
                }
            },
            BusOp::Shutdown => {},
        }
    }
}

/// Shutdown is final. A shut queue stays shut and accepts nothing more,
/// whatever is done with it.
pub proof fn law_shutdown_is_final<J>(start: BusState<J>, ops: Seq<BusOp<J>>)
    requires
        start.closed,
    ensures
        start.apply_all(ops).closed,
        start.accepted(ops) == Seq::<J>::empty(),
    decreases ops.len(),
{
    if ops.len() > 0 {
        law_shutdown_is_final(start, ops.drop_last());
    }
}

/// Shutdown drains. After shutdown the worker is still told to run every
/// job that was pending, oldest first, and only then to leave; a job
/// submitted after shutdown is handed back in the error and changes nothing.
pub proof fn law_shutdown_drains<J>(state: BusState<J>)
    ensures
        forall|k: nat|
            k < state.pending.len() ==> #[trigger] state.shutdown().after_steps(k).next_step()
                == WorkerStep::Run(state.pending[k as int]),
        state.shutdown().after_steps(state.pending.len()).next_step() == WorkerStep::<J>::Exit,
        forall|job: J|
            #![trigger state.shutdown().queue(job)]
            #![trigger state.shutdown().queue_result(job)]
            state.shutdown().queue(job) == state.shutdown() && state.shutdown().queue_result(job)
                == Err::<(), _>((SubmissionAfterShutdown { job })),
{
    let shut = state.shutdown();
    assert forall|k: nat| k < state.pending.len() implies #[trigger] shut.after_steps(
        k,
    ).next_step() == WorkerStep::Run(state.pending[k as int]) by {
        lemma_after_steps(shut, k);
    }
    lemma_after_steps(shut, state.pending.len());
}

/// The worker leaves only when everything is done. If, after any history of
/// operations, the worker is told to leave, then the queue is shut and every
/// job that was pending at the start or accepted since has been handed to
/// the worker, in the order of submission.
pub proof fn law_exit_means_drained<J>(start: BusState<J>, ops: Seq<BusOp<J>>)
    requires
        start.apply_all(ops).next_step() == WorkerStep::<J>::Exit,
    ensures
        start.apply_all(ops).closed,
        start.handed_out(ops) == start.pending + start.accepted(ops),
{
    law_nothing_lost_or_reordered(start, ops);
}

} // verus!
