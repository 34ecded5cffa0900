//! What holds of every run of the pipeline, and of every registry.

use vstd::prelude::*;
use crate::jobs::pipeline::begin;
use crate::jobs::pipeline::BuildPlanView;
use crate::jobs::pipeline::BuildResultView;
use crate::jobs::pipeline::BuildRunView;
use crate::jobs::pipeline::BuildStatus;
use crate::jobs::pipeline::CommandView;
use crate::jobs::pipeline::Event;
use crate::jobs::pipeline::RunStateView;
use crate::jobs::pipeline::TOTAL_STEPS;
use crate::jobs::Job;
use crate::jobs::JobRegistryView;
use crate::jobs::JobResultView;
use crate::jobs::StatusView;

verus! {

impl StatusView {
    /// The terminal report of a run that went through.
    pub open spec fn is_complete(self) -> bool {
        self.step == TOTAL_STEPS && self.total == TOTAL_STEPS && self.message == "Complete"@
    }
}

impl<O> RunStateView<O> {
    /// What a waiting run has gathered fits the stage it is in: an object is
    /// loaded, or asked for, only on a side whose build succeeded, and the
    /// comparison is asked for only when both did.
    pub open spec fn consistent(self) -> bool {
        match self {
            RunStateView::AsmLoad { first, .. } => first.success,
            RunStateView::SrcLoad { first, second, first_obj } => second.success && (first_obj
                is Some ==> first.success),
            RunStateView::Diff { first, second } => first.success && second.success,
            _ => true,
        }
    }

    /// The step that was reported when the run began to wait in this state.
    pub open spec fn reported_step(self) -> u32 {
        match self {
            RunStateView::AsmBuild => 0,
            RunStateView::SrcBuild { .. } => 1,
            RunStateView::AsmLoad { .. } => 2,
            RunStateView::SrcLoad { .. } => 3,
            RunStateView::Diff { .. } => 4,
            RunStateView::Finished => TOTAL_STEPS,
        }
    }
}

impl<O> BuildResultView<O> {
    /// An object is there only for a side whose build succeeded.
    pub open spec fn consistent(self) -> bool {
        &&& self.first_obj is Some ==> self.first_status.success
        &&& self.second_obj is Some ==> self.second_status.success
    }
}

/// A run starts in a consistent state, and every step keeps it so.
pub proof fn lemma_run_stays_consistent<O>(
    run: BuildRunView<O>,
    plan: BuildPlanView,
    event: Event<O>,
    status: StatusView,
    cancel: bool,
)
    requires
        run.state.consistent(),
    ensures
        begin::<O>(plan, status, cancel).run.state.consistent(),
        run.advance(event, status, cancel).run.state.consistent(),
{
}

/// A run that ends at a stage boundary where no cancellation was seen leaves
/// its status at the last step with the message "Complete" and hands back a
/// build result, or leaves an error in its status and hands back nothing.
pub proof fn lemma_finished_run_is_complete_or_failed<O>(
    run: BuildRunView<O>,
    event: Event<O>,
    status: StatusView,
)
    ensures
        ({
            let t = run.advance(event, status, false);
            t.command matches CommandView::Finish(result) ==> {
                ||| result is Build && t.status.is_complete() && t.status.error == status.error
                ||| result is Empty && t.status.error is Some
            }
        }),
{
}

/// A run that is not cancelled at its first stage boundary does not end
/// there: it asks for the asm build.
pub proof fn lemma_run_begins_with_asm_build<O>(plan: BuildPlanView, status: StatusView)
    ensures
        begin::<O>(plan, status, false).command == (CommandView::<O>::Make {
            cwd: plan.project_dir,
            target: plan.asm_target,
        }),
        begin::<O>(plan, status, false).run.state is AsmBuild,
{
}

/// While a run waits, its status shows the step of the stage it waits in;
/// a step never lowers the reported step, and a run that goes on waiting
/// reports the step of its new stage.
pub proof fn lemma_reported_step_never_decreases<O>(
    run: BuildRunView<O>,
    event: Event<O>,
    status: StatusView,
    cancel: bool,
)
    requires
        status.step == run.state.reported_step(),
        run.state.consistent(),
    ensures
        ({
            let t = run.advance(event, status, cancel);
            &&& status.step <= t.status.step <= TOTAL_STEPS
            &&& !(t.command is Finish) ==> t.status.step == t.run.state.reported_step()
        }),
{
}

/// The comparison is asked for only when both builds succeeded, and a result
/// holds an object only for a side whose build succeeded.
pub proof fn lemma_objects_follow_successful_builds<O>(
    run: BuildRunView<O>,
    event: Event<O>,
    status: StatusView,
    cancel: bool,
)
    requires
        run.state.consistent(),
    ensures
        ({
            let t = run.advance(event, status, cancel);
            &&& t.command is Diff ==> (t.run.state matches RunStateView::Diff { first, second }
                && first.success && second.success)
            &&& t.command matches CommandView::Finish(JobResultView::Build(result))
                ==> result.consistent()
        }),
{
}

/// A result that holds both objects holds them as the comparison handed them
/// back: it comes from a run that waited for the comparison and got it.
pub proof fn lemma_two_objects_were_compared<O>(
    run: BuildRunView<O>,
    event: Event<O>,
    status: StatusView,
    cancel: bool,
)
    ensures
        ({
            let t = run.advance(event, status, cancel);
            match t.command {
                CommandView::Finish(JobResultView::Build(result)) => result.first_obj is Some
                    && result.second_obj is Some ==> run.state is Diff && match event {
                    Event::Diffed(Ok(pair)) => result.first_obj == Some(pair.0)
                        && result.second_obj == Some(pair.1),
                    _ => false,
                },
                _ => true,
            }
        }),
{
}

/// A run whose asm build fails and whose source build succeeds: the asm
/// object is never asked for, the source object is loaded, the comparison is
/// never asked for, and the result holds the source object alone.
pub proof fn lemma_failed_asm_build_skips_comparison<O>(
    plan: BuildPlanView,
    status: StatusView,
    first: BuildStatus,
    second: BuildStatus,
    obj: O,
)
    requires
        !first.success,
        second.success,
    ensures
        ({
            let t0 = begin::<O>(plan, status, false);
            let t1 = t0.run.advance(Event::Made(first), t0.status, false);
            let t2 = t1.run.advance(Event::Made(second), t1.status, false);
            let t3 = t2.run.advance(Event::Loaded(Ok(obj)), t2.status, false);
            &&& t0.command == (CommandView::<O>::Make {
                cwd: plan.project_dir,
                target: plan.asm_target,
            })
            &&& t1.command == (CommandView::<O>::Make {
                cwd: plan.project_dir,
                target: plan.src_target,
            })
            &&& t2.command == (CommandView::<O>::Load { path: plan.src_path })
            &&& t3.command == CommandView::Finish(
                JobResultView::Build(
                    BuildResultView {
                        first_status: first@,
                        second_status: second@,
                        first_obj: None,
                        second_obj: Some(obj),
                    },
                ),
            )
            &&& t3.status.is_complete()
            &&& t3.status.error == status.error
        }),
{
}

/// A run whose two builds succeed and whose objects load: both objects are
/// loaded, the comparison is asked for once, with the two loaded objects,
/// and the result holds the two objects as the comparison handed them back.
pub proof fn lemma_successful_builds_compare_once<O>(
    plan: BuildPlanView,
    status: StatusView,
    first: BuildStatus,
    second: BuildStatus,
    loaded: (O, O),
    compared: (O, O),
)
    requires
        first.success,
        second.success,
    ensures
        ({
            let t0 = begin::<O>(plan, status, false);
            let t1 = t0.run.advance(Event::Made(first), t0.status, false);
            let t2 = t1.run.advance(Event::Made(second), t1.status, false);
            let t3 = t2.run.advance(Event::Loaded(Ok(loaded.0)), t2.status, false);
            let t4 = t3.run.advance(Event::Loaded(Ok(loaded.1)), t3.status, false);
            let t5 = t4.run.advance(Event::Diffed(Ok(compared)), t4.status, false);
            &&& t0.command is Make
            &&& t1.command is Make
            &&& t2.command == (CommandView::<O>::Load { path: plan.asm_path })
            &&& t3.command == (CommandView::<O>::Load { path: plan.src_path })
            &&& t4.command == (CommandView::Diff { first: loaded.0, second: loaded.1 })
            &&& t5.command == CommandView::Finish(
                JobResultView::Build(
                    BuildResultView {
                        first_status: first@,
                        second_status: second@,
                        first_obj: Some(compared.0),
                        second_obj: Some(compared.1),
                    },
                ),
            )
            &&& t5.status.is_complete()
        }),
{
}

impl<O> RunStateView<O> {
    /// The run waits in this state for the result of the outside work that
    /// the command asks for.
    pub open spec fn waits_for(self, command: CommandView<O>) -> bool {
        match (self, command) {
            (RunStateView::AsmBuild, CommandView::Make { .. }) => true,
            (RunStateView::SrcBuild { .. }, CommandView::Make { .. }) => true,
            (RunStateView::AsmLoad { .. }, CommandView::Load { .. }) => true,
            (RunStateView::SrcLoad { .. }, CommandView::Load { .. }) => true,
            (RunStateView::Diff { .. }, CommandView::Diff { .. }) => true,
            _ => false,
        }
    }
}

/// The event is the result of the outside work that the command asks for.
pub open spec fn answers<O>(event: Event<O>, command: CommandView<O>) -> bool {
    match (event, command) {
        (Event::Made(_), CommandView::Make { .. }) => true,
        (Event::Loaded(_), CommandView::Load { .. }) => true,
        (Event::Diffed(_), CommandView::Diff { .. }) => true,
        _ => false,
    }
}

/// A run that is given the answer to its last command never rejects it.
/// Whenever a run goes on, at its start or after a step, it waits for the
/// command it has just handed out; and a run that waits for a command takes
/// every answer to it. So a worker that does what it is asked and hands the
/// result back sees `Invalid` at no step.
pub proof fn lemma_answered_run_never_rejects<O>(
    plan: BuildPlanView,
    run: BuildRunView<O>,
    event: Event<O>,
    command: CommandView<O>,
    answer: Event<O>,
    status: StatusView,
    cancel: bool,
)
    ensures
        ({
            let t = begin::<O>(plan, status, cancel);
            !(t.command is Invalid) && (t.command is Finish || t.run.state.waits_for(t.command))
        }),
        ({
            let t = run.advance(event, status, cancel);
            t.command is Finish || t.command is Invalid || t.run.state.waits_for(t.command)
        }),
        run.state.waits_for(command) && answers(answer, command) ==> !(run.advance(
            answer,
            status,
            cancel,
        ).command is Invalid),
{
}

/// The number of times the comparison is asked for while a run takes a
/// sequence of events, each with the cancellation seen at its boundary.
pub open spec fn comparisons<O>(
    run: BuildRunView<O>,
    status: StatusView,
    events: Seq<(Event<O>, bool)>,
) -> nat
    decreases events.len(),
{
    if events.len() == 0 {
        0
    } else {
        let t = run.advance(events[0].0, status, events[0].1);
        let asked: nat = if t.command is Diff {
            1
        } else {
            0
        };
        asked + comparisons(t.run, t.status, events.skip(1))
    }
}

/// Whatever events a run is given, in whatever order, the comparison is
/// asked for at most once, and not at all once the run waits for it or has
/// ended.
pub proof fn lemma_at_most_one_comparison<O>(
    run: BuildRunView<O>,
    status: StatusView,
    events: Seq<(Event<O>, bool)>,
)
    ensures
        comparisons(run, status, events) <= 1,
        run.state is Diff || run.state is Finished ==> comparisons(run, status, events) == 0,
    decreases events.len(),
{
    if events.len() > 0 {
        let t = run.advance(events[0].0, status, events[0].1);
        lemma_at_most_one_comparison(t.run, t.status, events.skip(1));
    }
}

/// A cancellation requested before the first stage boundary ends the run
/// there: no outside work is asked for, nothing is handed back, and no error
/// is attached to the status.
pub proof fn lemma_cancel_before_first_stage<O>(plan: BuildPlanView, status: StatusView)
    ensures
        ({
            let t = begin::<O>(plan, status, true);
            &&& t.command == CommandView::<O>::Finish(JobResultView::Empty)
            &&& t.run.state is Finished
            &&& t.status.error == status.error
        }),
{
}

/// A cancellation seen at any stage boundary ends the run without a result
/// and without touching the error.
pub proof fn lemma_cancel_ends_run_silently<O>(
    run: BuildRunView<O>,
    event: Event<O>,
    status: StatusView,
)
    ensures
        ({
            let t = run.advance(event, status, true);
            ||| t.command is Invalid
            ||| t.command == CommandView::<O>::Finish(JobResultView::Empty)
        }),
{
}

/// Once a run has ended, no event moves it.
pub proof fn lemma_finished_run_ignores_events<O>(
    run: BuildRunView<O>,
    event: Event<O>,
    status: StatusView,
    cancel: bool,
)
    requires
        run.state is Finished,
    ensures
        ({
            let t = run.advance(event, status, cancel);
            &&& t.command is Invalid
            &&& t.run == run
            &&& t.status == status
        }),
{
}

impl JobRegistryView {
    /// No two `Build` jobs for one object are in flight.
    pub open spec fn builds_exclusive(self) -> bool {
        forall|i: int, j: int, target: Seq<char>|
            0 <= i < j < self.jobs.len() && (#[trigger] self.jobs[i].builds(target)) ==> !(
            #[trigger] self.jobs[j].builds(target))
    }

    /// What pruning leaves: each record left is a kept record of the
    /// registry, each kept record of the registry is left, and identifiers
    /// that grew along the list still do.
    pub proof fn lemma_prune_contents(self)
        ensures
            forall|a: int|
                0 <= a < self.prune().jobs.len() ==> (#[trigger] self.prune().jobs[a]).kept()
                    && self.jobs.contains(self.prune().jobs[a]),
            forall|i: int|
                0 <= i < self.jobs.len() && (#[trigger] self.jobs[i]).kept()
                    ==> self.prune().jobs.contains(self.jobs[i]),
            self.wf() ==> self.prune().wf(),
            self.builds_exclusive() ==> self.prune().builds_exclusive(),
        decreases self.jobs.len(),
    {
        reveal(Seq::filter);
        if self.jobs.len() > 0 {
            let front = JobRegistryView { jobs: self.jobs.drop_last(), next_id: self.next_id };
            let last = self.jobs.last();
            front.lemma_prune_contents();
            let left = self.prune().jobs;
            let front_left = front.prune().jobs;
            assert(left == if last.kept() {
                front_left.push(last)
            } else {
                front_left
            });
            assert forall|a: int| 0 <= a < left.len() implies (#[trigger] left[a]).kept()
                && self.jobs.contains(left[a]) by {
                if a < front_left.len() {
                    assert(front.jobs.contains(front_left[a]));
                    let i = choose|i: int| 0 <= i < front.jobs.len() && front.jobs[i] == left[a];
                    assert(self.jobs[i] == left[a]);
                } else {
                    assert(self.jobs[self.jobs.len() - 1] == left[a]);
                }
            }
            assert forall|i: int| 0 <= i < self.jobs.len() && (#[trigger] self.jobs[i]).kept()
                implies left.contains(self.jobs[i]) by {
                if i < front.jobs.len() {
                    assert(front.jobs[i] == self.jobs[i]);
                    assert(front_left.contains(front.jobs[i]));
                    let a = choose|a: int| 0 <= a < front_left.len() && front_left[a] == self.jobs[i];
                    assert(left[a] == self.jobs[i]);
                } else {
                    assert(left[left.len() - 1] == self.jobs[i]);
                }
            }
            if self.wf() {
                assert(front.wf()) by {
                    assert forall|i: int, j: int| 0 <= i < j < front.jobs.len() implies (
                    #[trigger] front.jobs[i]).id < (#[trigger] front.jobs[j]).id by {
                        assert(self.jobs[i].id < self.jobs[j].id);
                    }
                    assert forall|i: int| 0 <= i < front.jobs.len() implies (
                    #[trigger] front.jobs[i]).id < front.next_id by {
                        assert(self.jobs[i].id < self.next_id);
                    }
                }
                assert forall|a: int, b: int| 0 <= a < b < left.len() implies (#[trigger] left[a]).id
                    < (#[trigger] left[b]).id by {
                    if b == front_left.len() {
                        assert(front.jobs.contains(front_left[a]));
                        let i = choose|i: int|
                            0 <= i < front.jobs.len() && front.jobs[i] == front_left[a];
                        assert(self.jobs[i].id < self.jobs[self.jobs.len() - 1].id);
                    }
                }
                assert forall|a: int| 0 <= a < left.len() implies (#[trigger] left[a]).id
                    < self.next_id by {
                    assert(self.jobs.contains(left[a]));
                    let i = choose|i: int| 0 <= i < self.jobs.len() && self.jobs[i] == left[a];
                    assert(self.jobs[i].id < self.next_id);
                }
            }
            if self.builds_exclusive() {
                assert(front.builds_exclusive()) by {
                    assert forall|i: int, j: int, target: Seq<char>|
                        0 <= i < j < front.jobs.len() && (#[trigger] front.jobs[i].builds(
                            target,
                        )) implies !(#[trigger] front.jobs[j].builds(target)) by {
                        assert(self.jobs[i].builds(target));
                        assert(!self.jobs[j].builds(target));
                    }
                }
                assert forall|a: int, b: int, target: Seq<char>|
                    0 <= a < b < left.len() && (#[trigger] left[a].builds(target)) implies !(
                #[trigger] left[b].builds(target)) by {
                    if b == front_left.len() {
                        assert(front.jobs.contains(front_left[a]));
                        let i = choose|i: int|
                            0 <= i < front.jobs.len() && front.jobs[i] == front_left[a];
                        assert(self.jobs[i].builds(target));
                        assert(!self.jobs[self.jobs.len() - 1].builds(target));
                    }
                }
            }
        }
    }

    /// Starting a job gives it an identifier that no record holds, and keeps
    /// the registry well formed.
    pub proof fn lemma_enqueue_gives_fresh_id(self, job_type: Job, target: Option<Seq<char>>)
        requires
            self.wf(),
            self.next_id < usize::MAX,
        ensures
            !self.has(self.next_id),
            self.enqueue(job_type, target).wf(),
            self.enqueue(job_type, target).has(self.next_id),
            self.enqueue(job_type, target).is_running(self.next_id),
    {
        let after = self.enqueue(job_type, target);
        assert(after.jobs[self.jobs.len() as int].joinable(self.next_id));
        assert forall|i: int, j: int| 0 <= i < j < after.jobs.len() implies (
        #[trigger] after.jobs[i]).id < (#[trigger] after.jobs[j]).id by {
            assert(after.jobs[i] == self.jobs[i]);
            if j < self.jobs.len() {
                assert(after.jobs[j] == self.jobs[j]);
            }
        }
        assert forall|i: int| 0 <= i < after.jobs.len() implies (#[trigger] after.jobs[i]).id
            < after.next_id by {
            if i < self.jobs.len() {
                assert(after.jobs[i] == self.jobs[i]);
            }
        }
    }

    /// Asking for a cancellation and joining a worker keep the registry well
    /// formed.
    pub proof fn lemma_updates_keep_wf(self, id: usize, status: StatusView)
        requires
            self.wf(),
        ensures
            self.cancel(id).wf(),
            self.complete(id, status).wf(),
    {
        assert forall|i: int, j: int| 0 <= i < j < self.jobs.len() implies (
        #[trigger] self.cancel(id).jobs[i]).id < (#[trigger] self.cancel(id).jobs[j]).id by {
            assert(self.jobs[i].id < self.jobs[j].id);
        }
        assert forall|i: int, j: int| 0 <= i < j < self.jobs.len() implies (
        #[trigger] self.complete(id, status).jobs[i]).id < (#[trigger] self.complete(
            id,
            status,
        ).jobs[j]).id by {
            assert(self.jobs[i].id < self.jobs[j].id);
        }
    }

    /// Asking for a cancellation and joining a worker start no build: they
    /// keep the `Build` jobs in flight to one for each object.
    pub proof fn lemma_updates_keep_builds_exclusive(self, id: usize, status: StatusView)
        requires
            self.builds_exclusive(),
        ensures
            self.cancel(id).builds_exclusive(),
            self.complete(id, status).builds_exclusive(),
    {
        assert forall|i: int, j: int, target: Seq<char>|
            0 <= i < j < self.jobs.len() && (#[trigger] self.cancel(id).jobs[i].builds(
                target,
            )) implies !(#[trigger] self.cancel(id).jobs[j].builds(target)) by {
            assert(self.jobs[i].builds(target));
            assert(!self.jobs[j].builds(target));
        }
        assert forall|i: int, j: int, target: Seq<char>|
            0 <= i < j < self.jobs.len() && (#[trigger] self.complete(id, status).jobs[i].builds(
                target,
            )) implies !(#[trigger] self.complete(id, status).jobs[j].builds(target)) by {
            assert(self.jobs[i].builds(target));
            assert(!self.jobs[j].builds(target));
        }
    }

    /// A cancellation has no effect on a job that was joined already, and a
    /// token is sent to a job at most once.
    pub proof fn lemma_cancel_is_one_shot(self, id: usize)
        ensures
            !self.is_running(id) ==> self.cancel(id) == self && !self.can_cancel(id),
            !self.cancel(id).can_cancel(id),
    {
        if !self.is_running(id) {
            assert forall|i: int| 0 <= i < self.jobs.len() implies self.cancel(id).jobs[i]
                == self.jobs[i] by {
                assert(!self.jobs[i].joinable(id));
            }
            assert(self.cancel(id).jobs =~= self.jobs);
            assert forall|i: int| 0 <= i < self.jobs.len() implies !(
            #[trigger] self.jobs[i]).cancellable(id) by {
                assert(!self.jobs[i].joinable(id));
            }
        }
    }

    /// A worker is joined once: after its outcome was taken the job is not
    /// in flight, and taking it again changes nothing.
    pub proof fn lemma_worker_is_joined_once(self, id: usize, first: StatusView, again: StatusView)
        ensures
            !self.complete(id, first).is_running(id),
            self.complete(id, first).complete(id, again) == self.complete(id, first),
    {
        let done = self.complete(id, first);
        assert(done.complete(id, again).jobs =~= done.jobs);
    }

    /// A job that was joined is gone once the registry is pruned, whatever
    /// its worker handed back; the jobs still in flight all stay.
    pub proof fn lemma_joined_job_is_pruned(self, id: usize, status: StatusView)
        requires
            self.wf(),
            self.is_running(id),
        ensures
            !self.complete(id, status).prune().has(id),
            forall|i: int|
                0 <= i < self.jobs.len() && (#[trigger] self.jobs[i]).running && self.jobs[i].id
                    != id ==> self.complete(id, status).prune().jobs.contains(self.jobs[i]),
    {
        let done = self.complete(id, status);
        let left = done.prune();
        done.lemma_prune_contents();
        let k = choose|k: int| 0 <= k < self.jobs.len() && (#[trigger] self.jobs[k]).joinable(id);
        assert forall|a: int| 0 <= a < left.jobs.len() implies (#[trigger] left.jobs[a]).id
            != id by {
            assert(done.jobs.contains(left.jobs[a]));
            let i = choose|i: int| 0 <= i < done.jobs.len() && done.jobs[i] == left.jobs[a];
            assert(done.jobs[i] == self.jobs[i].complete(id, status));
            if self.jobs[i].id == id {
                if i < k {
                    assert(self.jobs[i].id < self.jobs[k].id);
                } else if k < i {
                    assert(self.jobs[k].id < self.jobs[i].id);
                }
                assert(!done.jobs[i].kept());
            }
        }
        assert forall|i: int|
            0 <= i < self.jobs.len() && (#[trigger] self.jobs[i]).running && self.jobs[i].id
                != id implies left.jobs.contains(self.jobs[i]) by {
            assert(done.jobs[i] == self.jobs[i]);
            assert(done.jobs[i].kept());
        }
    }
}

} // verus!
