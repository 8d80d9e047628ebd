//! Running and shutting down a pipeline.
//!
//! Waiting for tasks, and aborting them, is the caller's part; which state comes
//! next and what becomes of each task is decided here.
use crate::traits::PipelineState;
use vstd::prelude::*;

verus! {

/// Seconds that a pipeline's tasks have to drain at shutdown.
pub const SHUTDOWN_TIMEOUT_SECS: u64 = 5;

/// What happens to a pipeline.
#[derive(Clone, Copy, Debug, PartialEq, Eq, Structural)]
pub enum LifecycleEvent {
    /// It was started.
    Started,
    /// It is to stop; its tasks are told so.
    StopRequested,
    /// Its tasks are gone.
    TasksGone,
}

/// The state after an event.
pub fn state_after(event: LifecycleEvent) -> (r: PipelineState)
    ensures
        r == match event {
            LifecycleEvent::Started => PipelineState::Running,
            LifecycleEvent::StopRequested => PipelineState::Draining,
            LifecycleEvent::TasksGone => PipelineState::Terminated,
        },
{
    match event {
        LifecycleEvent::Started => PipelineState::Running,
        LifecycleEvent::StopRequested => PipelineState::Draining,
        LifecycleEvent::TasksGone => PipelineState::Terminated,
    }
}

/// How far a shutdown has come.
#[derive(Clone, Copy, Debug, PartialEq, Eq, Structural)]
pub enum ShutdownProgress {
    /// It was asked for.
    Requested,
    /// The tasks were told to stop, and this many were taken over.
    TasksTaken(usize),
    /// They were waited for.
    Drained,
    /// Those registered meanwhile were aborted.
    LateTasksAborted,
}

/// What a shutdown does next.
#[derive(Clone, Copy, Debug, PartialEq, Eq, Structural)]
pub enum ShutdownAction {
    /// Enter the draining state, tell all tasks to stop, and take them over.
    StopAndTake,
    /// Wait for the tasks taken over.
    Drain,
    /// Abort tasks registered since they were taken over.
    AbortLate,
    /// Enter the terminated state.
    Terminate,
}

/// What a shutdown does next. Without tasks there is nothing to wait for, and
/// none that could register others.
pub fn shutdown_action(progress: ShutdownProgress) -> (r: ShutdownAction)
    ensures
        r == match progress {
            ShutdownProgress::Requested => ShutdownAction::StopAndTake,
            ShutdownProgress::TasksTaken(n) => if n == 0 {
                ShutdownAction::Terminate
            } else {
                ShutdownAction::Drain
            },
            ShutdownProgress::Drained => ShutdownAction::AbortLate,
            ShutdownProgress::LateTasksAborted => ShutdownAction::Terminate,
        },
{
    match progress {
        ShutdownProgress::Requested => ShutdownAction::StopAndTake,
        ShutdownProgress::TasksTaken(n) => if n == 0 {
            ShutdownAction::Terminate
        } else {
            ShutdownAction::Drain
        },
        ShutdownProgress::Drained => ShutdownAction::AbortLate,
        ShutdownProgress::LateTasksAborted => ShutdownAction::Terminate,
    }
}

/// How waiting for a task ended.
#[derive(Clone, Copy, Debug, PartialEq, Eq, Structural)]
pub enum TaskEnd {
    /// The deadline had passed before its turn came.
    DeadlinePassed,
    /// It completed.
    Completed,
    /// It panicked.
    Panicked,
    /// It did not complete before the deadline.
    TimedOut,
}

/// Whether a task is to be aborted: it is still running.
pub open spec fn is_aborted(end: TaskEnd) -> bool {
    end == TaskEnd::DeadlinePassed || end == TaskEnd::TimedOut
}

/// Tasks that finished and tasks that were aborted.
#[derive(Clone, Copy, Debug, PartialEq, Eq, Structural)]
pub struct DrainCounts {
    pub finished: usize,
    pub aborted: usize,
}

/// Tasks aborted in a run.
pub open spec fn aborted_in(ends: Seq<TaskEnd>) -> nat
    decreases ends.len(),
{
    if ends.len() == 0 {
        0
    } else {
        aborted_in(ends.drop_last()) + (if is_aborted(ends.last()) {
            1nat
        } else {
            0
        })
    }
}

/// Tasks finished in a run.
pub open spec fn finished_in(ends: Seq<TaskEnd>) -> nat
    decreases ends.len(),
{
    if ends.len() == 0 {
        0
    } else {
        finished_in(ends.drop_last()) + (if is_aborted(ends.last()) {
            0nat
        } else {
            1
        })
    }
}

impl DrainCounts {
    /// No task yet.
    pub fn new() -> (r: Self)
        ensures
            r.finished == 0,
            r.aborted == 0,
    {
        DrainCounts { finished: 0, aborted: 0 }
    }

    /// Counts a task, and says whether it is to be aborted. A task that panicked
    /// has finished.
    pub fn record(&mut self, end: TaskEnd) -> (r: bool)
        requires
            old(self).finished < usize::MAX,
            old(self).aborted < usize::MAX,
        ensures
            r == is_aborted(end),
            final(self).finished == old(self).finished + (if is_aborted(end) {
                0int
            } else {
                1
            }),
            final(self).aborted == old(self).aborted + (if is_aborted(end) {
                1int
            } else {
                0
            }),
    {
        match end {
            TaskEnd::DeadlinePassed | TaskEnd::TimedOut => {
                self.aborted = self.aborted + 1;
                true
            },
            TaskEnd::Completed | TaskEnd::Panicked => {
                self.finished = self.finished + 1;
                false
            },
        }
    }
}

/// Counts a run of tasks.
pub fn drain_totals(ends: &[TaskEnd]) -> (r: DrainCounts)
    ensures
        r.finished == finished_in(ends@),
        r.aborted == aborted_in(ends@),
{
    let mut counts = DrainCounts::new();
    let mut i: usize = 0;
    assert(ends@.take(0) =~= Seq::empty());
    while i < ends.len()
        invariant
            i <= ends@.len(),
            counts.finished == finished_in(ends@.take(i as int)),
            counts.aborted == aborted_in(ends@.take(i as int)),
            counts.finished + counts.aborted == i,
        decreases ends@.len() - i,
    {
        assert(ends@.take(i + 1).drop_last() =~= ends@.take(i as int));
        let _ = counts.record(ends[i]);
        i = i + 1;
    }
    assert(ends@.take(i as int) =~= ends@);
    counts
}

/// Every task is accounted for: it finished or was aborted.
pub proof fn law_every_task_is_accounted_for(ends: Seq<TaskEnd>)
    ensures
        finished_in(ends) + aborted_in(ends) == ends.len(),
    decreases ends.len(),
{
    if ends.len() > 0 {
        law_every_task_is_accounted_for(ends.drop_last());
    }
}

/// A task is aborted exactly where it still runs: it neither completed nor panicked.
pub proof fn law_only_running_tasks_are_aborted(end: TaskEnd)
    ensures
        is_aborted(end) <==> end != TaskEnd::Completed && end != TaskEnd::Panicked,
{
}

/// The totals count the tasks of a run: as many aborted as did not complete or panic, as
/// many finished as did.
pub proof fn law_totals_count_tasks(ends: Seq<TaskEnd>)
    ensures
        aborted_in(ends) == ends.filter(
            |e: TaskEnd| e == TaskEnd::DeadlinePassed || e == TaskEnd::TimedOut,
        ).len(),
        finished_in(ends) == ends.filter(
            |e: TaskEnd| e == TaskEnd::Completed || e == TaskEnd::Panicked,
        ).len(),
    decreases ends.len(),
{
    reveal(Seq::filter);
    if ends.len() > 0 {
        law_totals_count_tasks(ends.drop_last());
    }
}

/// A shutdown stops its tasks first and terminates last: where there are tasks it waits
/// for them and then aborts late ones, and where there are none it terminates at once.
pub proof fn law_shutdown_order(n: usize, a: ShutdownAction, b: ShutdownAction)
    requires
        call_ensures(shutdown_action, (ShutdownProgress::TasksTaken(n),), a),
    ensures
        a == ShutdownAction::Drain <==> n > 0,
        a == ShutdownAction::Terminate <==> n == 0,
        call_ensures(shutdown_action, (ShutdownProgress::Requested,), b) ==> b
            == ShutdownAction::StopAndTake,
        call_ensures(shutdown_action, (ShutdownProgress::Drained,), b) ==> b
            == ShutdownAction::AbortLate,
        call_ensures(shutdown_action, (ShutdownProgress::LateTasksAborted,), b) ==> b
            == ShutdownAction::Terminate,
{
}

} // verus!
