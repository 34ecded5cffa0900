//! Jobs, their progress record and the registry that owns them.

pub mod invariants;
pub mod pipeline;

use vstd::prelude::*;
use crate::jobs::pipeline::BuildResult;
use crate::jobs::pipeline::BuildResultView;

verus! {

/// The kind of work a job performs.
#[derive(Clone, Copy, Debug, PartialEq, Eq, Structural)]
pub enum Job {
    Build,
    BinDiff,
}

/// Progress of one job: written by its worker, read by observers.
#[derive(Debug)]
pub struct Status {
    pub step: u32,
    pub total: u32,
    pub message: String,
    pub error: Option<String>,
}

/// Mathematical content of a [`Status`].
pub struct StatusView {
    pub step: u32,
    pub total: u32,
    pub message: Seq<char>,
    pub error: Option<Seq<char>>,
}

/// The text of an optional string.
pub open spec fn opt_text(s: Option<String>) -> Option<Seq<char>> {
    match s {
        Some(t) => Some(t@),
        None => None,
    }
}

impl View for Status {
    type V = StatusView;

    open spec fn view(&self) -> StatusView {
        StatusView {
            step: self.step,
            total: self.total,
            message: self.message@,
            error: opt_text(self.error),
        }
    }
}

/// Returned by a checkpoint at which a cancellation token was seen.
#[derive(Clone, Copy, Debug, PartialEq, Eq, Structural)]
pub struct Cancelled;

impl StatusView {
    /// A record on which nothing has been reported yet.
    pub open spec fn fresh() -> StatusView {
        StatusView { step: 0, total: 0, message: Seq::empty(), error: None }
    }

    /// The record after a checkpoint: progress and message are overwritten,
    /// the error is kept.
    pub open spec fn report(self, message: Seq<char>, step: u32, total: u32) -> StatusView {
        StatusView { step, total, message, error: self.error }
    }

    /// The record after a failure was attached to it.
    pub open spec fn fail(self, error: Seq<char>) -> StatusView {
        StatusView { error: Some(error), ..self }
    }
}

impl Status {
    /// A fresh record for a job that has not reported anything.
    pub fn new() -> (s: Status)
        ensures
            s@ == StatusView::fresh(),
    {
        Status { step: 0, total: 0, message: String::new(), error: None }
    }
}

/// Status checkpoint: overwrites message, step and total, then looks at the
/// cancellation signal. `cancel_requested` says whether a token was received.
pub fn update_status(
    status: &mut Status,
    message: String,
    step: u32,
    total: u32,
    cancel_requested: bool,
) -> (r: Result<(), Cancelled>)
    ensures
        final(status)@ == old(status)@.report(message@, step, total),
        r.is_err() <==> cancel_requested,
{
    status.message = message;
    status.step = step;
    status.total = total;
    if cancel_requested {
        Err(Cancelled)
    } else {
        Ok(())
    }
}

/// The two objects of a whole-binary comparison.
#[derive(Debug)]
pub struct BinDiffResult<O> {
    pub first_obj: O,
    pub second_obj: O,
}

/// What a worker hands back when it ends. `Empty` stands for a job that was
/// cancelled, or that failed and left its error in its status.
#[derive(Debug)]
pub enum JobResult<O> {
    Empty,
    Build(Box<BuildResult<O>>),
    BinDiff(Box<BinDiffResult<O>>),
}

/// Mathematical content of a [`JobResult`].
pub enum JobResultView<O> {
    Empty,
    Build(BuildResultView<O>),
    BinDiff(BinDiffResult<O>),
}

impl<O> View for JobResult<O> {
    type V = JobResultView<O>;

    open spec fn view(&self) -> JobResultView<O> {
        match *self {
            JobResult::Empty => JobResultView::Empty,
            JobResult::Build(result) => JobResultView::Build(result@),
            JobResult::BinDiff(result) => JobResultView::BinDiff(*result),
        }
    }
}

/// The controller's record of one job.
#[derive(Debug)]
pub struct JobState {
    pub id: usize,
    pub job_type: Job,
    /// The object that a `Build` job builds.
    pub target: Option<String>,
    /// The status as the controller last took it over: fresh until the
    /// worker is joined, its terminal status from then on.
    pub status: Status,
    /// The worker was started and its outcome was not yet taken.
    pub running: bool,
    /// The cancellation token was handed out.
    pub cancel_sent: bool,
    pub should_remove: bool,
}

/// Mathematical content of a [`JobState`].
pub struct JobStateView {
    pub id: usize,
    pub job_type: Job,
    pub target: Option<Seq<char>>,
    pub status: StatusView,
    pub running: bool,
    pub cancel_sent: bool,
    pub should_remove: bool,
}

impl View for JobState {
    type V = JobStateView;

    open spec fn view(&self) -> JobStateView {
        JobStateView {
            id: self.id,
            job_type: self.job_type,
            target: opt_text(self.target),
            status: self.status@,
            running: self.running,
            cancel_sent: self.cancel_sent,
            should_remove: self.should_remove,
        }
    }
}

impl JobStateView {
    /// The record of a job whose worker was just started.
    pub open spec fn started(id: usize, job_type: Job, target: Option<Seq<char>>) -> JobStateView {
        JobStateView {
            id,
            job_type,
            target,
            status: StatusView::fresh(),
            running: true,
            cancel_sent: false,
            should_remove: false,
        }
    }

    /// A token can still be sent to the job `id`, and this is its record.
    pub open spec fn cancellable(self, id: usize) -> bool {
        self.id == id && self.running && !self.cancel_sent
    }

    /// The record after a cancellation of the job `id` was asked for.
    pub open spec fn cancel(self, id: usize) -> JobStateView {
        if self.cancellable(id) {
            JobStateView { cancel_sent: true, ..self }
        } else {
            self
        }
    }

    /// The worker of the job `id` can be joined, and this is its record.
    pub open spec fn joinable(self, id: usize) -> bool {
        self.id == id && self.running
    }

    /// The record after the worker of the job `id` was joined and left
    /// `status`: the outcome is taken, and the record may be removed.
    pub open spec fn complete(self, id: usize, status: StatusView) -> JobStateView {
        if self.joinable(id) {
            JobStateView { running: false, should_remove: true, status, ..self }
        } else {
            self
        }
    }

    /// Pruning keeps the record: its outcome was not taken yet, or it is not
    /// marked for removal.
    pub open spec fn kept(self) -> bool {
        self.running || !self.should_remove
    }

    /// The record of a `Build` job for `target` whose worker is in flight.
    pub open spec fn builds(self, target: Seq<char>) -> bool {
        self.running && self.job_type == Job::Build && self.target == Some(target)
    }
}

/// The contents of a list of records.
pub open spec fn job_views(jobs: Seq<JobState>) -> Seq<JobStateView> {
    Seq::new(jobs.len(), |i: int| jobs[i]@)
}

/// The jobs that are in flight or not yet pruned, oldest first, and the
/// identifier that the next job gets.
#[derive(Debug)]
pub struct JobRegistry {
    jobs: Vec<JobState>,
    next_id: usize,
}

/// Mathematical content of a [`JobRegistry`].
pub struct JobRegistryView {
    pub jobs: Seq<JobStateView>,
    pub next_id: usize,
}

impl View for JobRegistry {
    type V = JobRegistryView;

    closed spec fn view(&self) -> JobRegistryView {
        JobRegistryView { jobs: job_views(self.jobs@), next_id: self.next_id }
    }
}

impl JobRegistryView {
    /// Identifiers grow along the list and stay below the next one to be
    /// given, so no two records share one.
    pub open spec fn wf(self) -> bool {
        &&& forall|i: int, j: int|
            0 <= i < j < self.jobs.len() ==> (#[trigger] self.jobs[i]).id < (
            #[trigger] self.jobs[j]).id
        &&& forall|i: int| 0 <= i < self.jobs.len() ==> (#[trigger] self.jobs[i]).id < self.next_id
    }

    /// The registry without jobs.
    pub open spec fn empty() -> JobRegistryView {
        JobRegistryView { jobs: Seq::empty(), next_id: 0 }
    }

    /// The registry holds a record with this identifier.
    pub open spec fn has(self, id: usize) -> bool {
        exists|i: int| 0 <= i < self.jobs.len() && (#[trigger] self.jobs[i]).id == id
    }

    /// The registry after a job was started.
    pub open spec fn enqueue(self, job_type: Job, target: Option<Seq<char>>) -> JobRegistryView
        recommends
            self.next_id < usize::MAX,
    {
        JobRegistryView {
            jobs: self.jobs.push(JobStateView::started(self.next_id, job_type, target)),
            next_id: (self.next_id + 1) as usize,
        }
    }

    /// A cancellation token can be sent to the job `id`: it is in flight and
    /// none was sent to it before.
    pub open spec fn can_cancel(self, id: usize) -> bool {
        exists|i: int| 0 <= i < self.jobs.len() && (#[trigger] self.jobs[i]).cancellable(id)
    }

    /// The registry after a cancellation of the job `id` was asked for.
    pub open spec fn cancel(self, id: usize) -> JobRegistryView {
        JobRegistryView {
            jobs: Seq::new(self.jobs.len(), |i: int| self.jobs[i].cancel(id)),
            next_id: self.next_id,
        }
    }

    /// The worker of the job `id` was not joined yet.
    pub open spec fn is_running(self, id: usize) -> bool {
        exists|i: int| 0 <= i < self.jobs.len() && (#[trigger] self.jobs[i]).joinable(id)
    }

    /// The registry after the worker of the job `id` was joined.
    pub open spec fn complete(self, id: usize, status: StatusView) -> JobRegistryView {
        JobRegistryView {
            jobs: Seq::new(self.jobs.len(), |i: int| self.jobs[i].complete(id, status)),
            next_id: self.next_id,
        }
    }

    /// The registry without the records that are marked for removal and
    /// whose outcome was taken; the others stay in their order.
    pub open spec fn prune(self) -> JobRegistryView {
        JobRegistryView {
            jobs: self.jobs.filter(|j: JobStateView| j.kept()),
            next_id: self.next_id,
        }
    }

    /// A `Build` job for `target` is in flight.
    pub open spec fn build_in_flight(self, target: Seq<char>) -> bool {
        exists|i: int| 0 <= i < self.jobs.len() && (#[trigger] self.jobs[i]).builds(target)
    }

    /// Some worker was not joined yet.
    pub open spec fn any_running(self) -> bool {
        exists|i: int| 0 <= i < self.jobs.len() && (#[trigger] self.jobs[i]).running
    }
}

impl JobRegistryView {
    /// Joining a job that is not in flight changes nothing.
    pub proof fn lemma_complete_unknown(self, id: usize, status: StatusView)
        requires
            !self.is_running(id),
        ensures
            self.complete(id, status) == self,
    {
        assert(self.complete(id, status).jobs =~= self.jobs);
    }
}

/// Filtering a list that ends in `last` decides on `last` alone.
proof fn lemma_prune_push(jobs: Seq<JobStateView>, last: JobStateView, next_id: usize)
    ensures
        (JobRegistryView { jobs: jobs.push(last), next_id }).prune().jobs == if last.kept() {
            (JobRegistryView { jobs, next_id }).prune().jobs.push(last)
        } else {
            (JobRegistryView { jobs, next_id }).prune().jobs
        },
{
    reveal(Seq::filter);
    assert(jobs.push(last).drop_last() =~= jobs);
}

impl JobRegistry {
    /// A registry without jobs.
    pub fn new() -> (r: JobRegistry)
        ensures
            r@ == JobRegistryView::empty(),
    {
        let r = JobRegistry { jobs: Vec::new(), next_id: 0 };
        assert(r@.jobs =~= Seq::empty());
        r
    }

    /// The records, oldest first.
    pub fn jobs(&self) -> (r: &Vec<JobState>)
        ensures
            job_views(r@) == self@.jobs,
    {
        &self.jobs
    }

    /// The identifier that the next job gets.
    pub fn next_id(&self) -> (r: usize)
        ensures
            r == self@.next_id,
    {
        self.next_id
    }

    /// Records a job whose worker is being started, and gives its identifier.
    pub fn enqueue(&mut self, job_type: Job, target: Option<String>) -> (id: usize)
        requires
            old(self)@.next_id < usize::MAX,
        ensures
            final(self)@ == old(self)@.enqueue(job_type, opt_text(target)),
            id == old(self)@.next_id,
    {
        let id = self.next_id;
        self.jobs.push(
            JobState {
                id,
                job_type,
                target,
                status: Status::new(),
                running: true,
                cancel_sent: false,
                should_remove: false,
            },
        );
        self.next_id = id + 1;
        assert(self@.jobs =~= old(self)@.enqueue(job_type, opt_text(target)).jobs);
        id
    }

    /// Asks for the cancellation of the job `id`. Says whether a token is to
    /// be sent to its worker: not for a job that is unknown, that was joined
    /// already, or that was sent one before.
    pub fn cancel(&mut self, id: usize) -> (send: bool)
        ensures
            final(self)@ == old(self)@.cancel(id),
            send == old(self)@.can_cancel(id),
    {
        let mut send = false;
        let mut i: usize = 0;
        while i < self.jobs.len()
            invariant
                i <= self.jobs.len(),
                self.jobs.len() == old(self).jobs.len(),
                self.next_id == old(self).next_id,
                forall|k: int| 0 <= k < i ==> self.jobs[k]@ == old(self).jobs[k]@.cancel(id),
                forall|k: int| i <= k < self.jobs.len() ==> self.jobs[k] == old(self).jobs[k],
                send == exists|k: int| 0 <= k < i && (#[trigger] old(self)@.jobs[k]).cancellable(id),
            decreases self.jobs.len() - i,
        {
            assert(old(self)@.jobs[i as int] == self.jobs[i as int]@);
            if self.jobs[i].id == id && self.jobs[i].running && !self.jobs[i].cancel_sent {
                self.jobs[i].cancel_sent = true;
                send = true;
            }
            i += 1;
        }
        assert(self@.jobs =~= old(self)@.cancel(id).jobs);
        send
    }

    /// Takes over the outcome of the job `id`, whose worker was joined and
    /// left `status`. Says whether there was a worker to join: each job is
    /// joined once, and a second call for it changes nothing.
    pub fn complete(&mut self, id: usize, status: Status) -> (joined: bool)
        ensures
            final(self)@ == old(self)@.complete(id, status@),
            joined == old(self)@.is_running(id),
    {
        let mut joined = false;
        let mut i: usize = 0;
        while i < self.jobs.len()
            invariant
                i <= self.jobs.len(),
                self.jobs.len() == old(self).jobs.len(),
                self.next_id == old(self).next_id,
                forall|k: int|
                    0 <= k < i ==> self.jobs[k]@ == old(self).jobs[k]@.complete(id, status@),
                forall|k: int| i <= k < self.jobs.len() ==> self.jobs[k] == old(self).jobs[k],
                joined == exists|k: int| 0 <= k < i && (#[trigger] old(self)@.jobs[k]).joinable(id),
            decreases self.jobs.len() - i,
        {
            assert(old(self)@.jobs[i as int] == self.jobs[i as int]@);
            if self.jobs[i].id == id && self.jobs[i].running {
                self.jobs[i].running = false;
                self.jobs[i].should_remove = true;
                self.jobs[i].status = copy_status(&status);
                joined = true;
            }
            i += 1;
        }
        assert(self@.jobs =~= old(self)@.complete(id, status@).jobs);
        joined
    }

    /// Removes the records that are marked for removal and whose outcome was
    /// taken. A record whose worker was not joined is never removed.
    pub fn prune(&mut self)
        ensures
            final(self)@ == old(self)@.prune(),
    {
        let ghost before = old(self)@;
        let ghost mut seen: int = 0;
        let mut i: usize = 0;
        while i < self.jobs.len()
            invariant
                self.next_id == before.next_id,
                0 <= seen <= before.jobs.len(),
                i <= self.jobs.len(),
                self.jobs.len() - i == before.jobs.len() - seen,
                self@.jobs.take(i as int) == (JobRegistryView {
                    jobs: before.jobs.take(seen),
                    next_id: before.next_id,
                }).prune().jobs,
                self@.jobs.skip(i as int) == before.jobs.skip(seen),
            decreases self.jobs.len() - i,
        {
            let ghost now = self@.jobs;
            assert(now[i as int] == now.skip(i as int)[0]);
            assert(before.jobs[seen] == before.jobs.skip(seen)[0]);
            proof {
                lemma_prune_push(before.jobs.take(seen), before.jobs[seen], before.next_id);
                assert(before.jobs.take(seen + 1) =~= before.jobs.take(seen).push(before.jobs[seen]));
            }
            if self.jobs[i].should_remove && !self.jobs[i].running {
                self.jobs.remove(i);
                assert(self@.jobs =~= now.remove(i as int));
                assert(self@.jobs.take(i as int) =~= now.take(i as int));
                assert forall|j: int| 0 <= j < self.jobs.len() - i implies self@.jobs.skip(
                    i as int,
                )[j] == before.jobs.skip(seen + 1)[j] by {
                    assert(now.skip(i as int)[j + 1] == before.jobs.skip(seen)[j + 1]);
                }
                assert(self@.jobs.skip(i as int) =~= before.jobs.skip(seen + 1));
            } else {
                i += 1;
                assert(self@.jobs.take(i as int) =~= now.take(i - 1).push(now[i - 1]));
                assert forall|j: int| 0 <= j < self.jobs.len() - i implies self@.jobs.skip(
                    i as int,
                )[j] == before.jobs.skip(seen + 1)[j] by {
                    assert(now.skip(i - 1)[j + 1] == before.jobs.skip(seen)[j + 1]);
                }
                assert(self@.jobs.skip(i as int) =~= before.jobs.skip(seen + 1));
            }
            proof {
                seen = seen + 1;
            }
        }
        assert(self@.jobs.take(i as int) =~= self@.jobs);
        assert(before.jobs.take(seen) =~= before.jobs);
    }

    /// Whether a `Build` job for `target` is in flight.
    pub fn has_build_in_flight(&self, target: &String) -> (r: bool)
        ensures
            r == self@.build_in_flight(target@),
    {
        let mut i: usize = 0;
        while i < self.jobs.len()
            invariant
                i <= self.jobs.len(),
                forall|k: int| 0 <= k < i ==> !(#[trigger] self@.jobs[k]).builds(target@),
            decreases self.jobs.len() - i,
        {
            let job = &self.jobs[i];
            assert(self@.jobs[i as int] == job@);
            if job.running && job.job_type == Job::Build {
                match &job.target {
                    Some(t) => {
                        if *t == *target {
                            return true;
                        }
                    },
                    None => {},
                }
            }
            i += 1;
        }
        false
    }

    /// Whether some worker was not joined yet.
    pub fn any_running(&self) -> (r: bool)
        ensures
            r == self@.any_running(),
    {
        let mut i: usize = 0;
        while i < self.jobs.len()
            invariant
                i <= self.jobs.len(),
                forall|k: int| 0 <= k < i ==> !(#[trigger] self@.jobs[k]).running,
            decreases self.jobs.len() - i,
        {
            assert(self@.jobs[i as int] == self.jobs[i as int]@);
            if self.jobs[i].running {
                return true;
            }
            i += 1;
        }
        false
    }
}

/// A copy of a status.
pub fn copy_status(status: &Status) -> (r: Status)
    ensures
        r@ == status@,
{
    Status {
        step: status.step,
        total: status.total,
        message: status.message.clone(),
        error: match &status.error {
            Some(e) => Some(e.clone()),
            None => None,
        },
    }
}

} // verus!
