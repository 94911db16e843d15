//! What the two state machines guarantee, whatever the events that reach them.

use crate::progress::{PROGRESS_CAP, PROGRESS_DONE};
use crate::record::RecordView;
use crate::sanitize::PathView;
use crate::scheduler::{
    first_dispatchable, lemma_first_dispatchable, Decision, Input, SchedulerView,
};
use crate::task::{ActionView, EventView, Phase, TaskView};
use vstd::prelude::*;

verus! {

/// A step keeps a task well-formed and leaves its record and its path alone.
pub proof fn lemma_step_keeps_task(t: TaskView, event: EventView)
    requires
        t.wf(),
    ensures
        t.step(event).0.wf(),
        t.step(event).0.record == t.record,
        t.step(event).0.path == t.path,
{
}

/// A run keeps a task well-formed, and asks for one action for each event.
pub proof fn lemma_run_keeps_task(t: TaskView, events: Seq<EventView>)
    requires
        t.wf(),
    ensures
        t.after(events).wf(),
        t.after(events).record == t.record,
        t.after(events).path == t.path,
        t.actions(events).len() == events.len(),
    decreases events.len(),
{
    if events.len() > 0 {
        lemma_run_keeps_task(t, events.drop_last());
        lemma_step_keeps_task(t.after(events.drop_last()), events.last());
    }
}

/// Once a task has ended nothing moves it: no event changes it, and none
/// makes it ask for anything. A task that failed is never taken up again.
pub proof fn lemma_ended_task_stays(t: TaskView, events: Seq<EventView>)
    requires
        t.phase.terminal(),
    ensures
        t.after(events) == t,
        t.actions(events).len() == events.len(),
        forall|i: int| 0 <= i < events.len() ==> t.actions(events)[i] == ActionView::Ignore,
    decreases events.len(),
{
    if events.len() > 0 {
        lemma_ended_task_stays(t, events.drop_last());
    }
}

/// A task whose destination exists ends as skipped with full progress, and
/// neither its first action nor any later one starts a process, whatever
/// else is reported to it.
pub proof fn lemma_existing_destination_is_skipped(
    record: RecordView,
    path: PathView,
    rest: Seq<EventView>,
)
    ensures
        ({
            let (task, first) = TaskView::started(record, Some(path));
            let events = seq![EventView::DestinationChecked { exists: true }] + rest;
            &&& !first.invokes_process()
            &&& task.after(events).phase == Phase::Skipped
            &&& task.after(events).progress == PROGRESS_DONE
            &&& task.actions(events).len() == events.len()
            &&& forall|i: int|
                0 <= i < events.len() ==> !(#[trigger] task.actions(events)[i]).invokes_process()
        }),
    decreases rest.len(),
{
    let (task, first) = TaskView::started(record, Some(path));
    let found = EventView::DestinationChecked { exists: true };
    let events = seq![found] + rest;
    if rest.len() == 0 {
        assert(events.drop_last() =~= Seq::<EventView>::empty());
        assert(events.last() == found);
        assert(task.after(events.drop_last()) == task);
        assert(task.actions(events.drop_last()) =~= Seq::<ActionView>::empty());
    } else {
        lemma_existing_destination_is_skipped(record, path, rest.drop_last());
        assert(events.drop_last() =~= seq![found] + rest.drop_last());
        assert(events.last() == rest.last());
    }
}

/// A task that has left `Pending` for anything but `Skipped` never ends as
/// skipped.
pub proof fn lemma_no_late_skip(t: TaskView, events: Seq<EventView>)
    requires
        t.phase != Phase::Pending,
        t.phase != Phase::Skipped,
    ensures
        t.after(events).phase != Phase::Pending,
        t.after(events).phase != Phase::Skipped,
    decreases events.len(),
{
    if events.len() > 0 {
        lemma_no_late_skip(t, events.drop_last());
    }
}

/// Whether a task's file is in place after a run that found it `present`
/// and ended in `outcome`: a fetch that succeeds stores the file, and no
/// run removes one.
pub open spec fn stored_after(present: bool, outcome: Phase) -> bool {
    present || outcome == Phase::Completed
}

/// Running a task again is idle: after a run that completed or skipped
/// the task, a second run on the files that the first one left ends as
/// skipped and starts no process.
pub proof fn lemma_rerun_is_idle(
    record: RecordView,
    path: PathView,
    present: bool,
    first_run: Seq<EventView>,
    second_run: Seq<EventView>,
)
    requires
        ({
            let task = TaskView::started(record, Some(path)).0;
            let first = seq![EventView::DestinationChecked { exists: present }] + first_run;
            task.after(first).phase == Phase::Completed || task.after(first).phase
                == Phase::Skipped
        }),
    ensures
        ({
            let task = TaskView::started(record, Some(path)).0;
            let first = seq![EventView::DestinationChecked { exists: present }] + first_run;
            let again = seq![
                EventView::DestinationChecked {
                    exists: stored_after(present, task.after(first).phase),
                },
            ] + second_run;
            &&& task.after(again).phase == Phase::Skipped
            &&& task.after(again).progress == PROGRESS_DONE
            &&& forall|i: int|
                0 <= i < again.len() ==> !(#[trigger] task.actions(again)[i]).invokes_process()
        }),
{
    let task = TaskView::started(record, Some(path)).0;
    let checked = EventView::DestinationChecked { exists: present };
    let first = seq![checked] + first_run;
    if !present {
        lemma_after_first(task, checked, first_run);
        lemma_no_late_skip(task.step(checked).0, first_run);
    }
    assert(stored_after(present, task.after(first).phase));
    lemma_existing_destination_is_skipped(record, path, second_run);
}

/// A run is its first step followed by the rest.
pub proof fn lemma_after_first(t: TaskView, first: EventView, rest: Seq<EventView>)
    ensures
        t.after(seq![first] + rest) == t.step(first).0.after(rest),
    decreases rest.len(),
{
    let events = seq![first] + rest;
    if rest.len() == 0 {
        assert(events.drop_last() =~= Seq::<EventView>::empty());
        assert(events.last() == first);
        assert(t.after(events.drop_last()) == t);
    } else {
        lemma_after_first(t, first, rest.drop_last());
        assert(events.drop_last() =~= seq![first] + rest.drop_last());
        assert(events.last() == rest.last());
    }
}

/// Progress lies between 0 and 100, and is 100 exactly for a task that has
/// completed or was skipped.
pub proof fn lemma_full_progress_means_stored(t: TaskView)
    requires
        t.wf(),
    ensures
        t.progress <= PROGRESS_DONE,
        t.progress == PROGRESS_DONE <==> t.phase == Phase::Completed || t.phase == Phase::Skipped,
        t.phase == Phase::Fetching ==> t.progress <= PROGRESS_CAP,
{
}

/// No step lowers a task's progress.
pub proof fn lemma_progress_never_falls(t: TaskView, event: EventView)
    requires
        t.wf(),
    ensures
        t.progress <= t.step(event).0.progress,
{
}

/// Over a run, progress at an earlier point is never above progress at a
/// later one.
pub proof fn lemma_progress_never_falls_over_run(t: TaskView, events: Seq<EventView>, k: int)
    requires
        t.wf(),
        0 <= k <= events.len(),
    ensures
        t.after(events.take(k)).progress <= t.after(events).progress,
    decreases events.len() - k,
{
    if k == events.len() {
        assert(events.take(k) =~= events);
    } else {
        let shorter = events.drop_last();
        lemma_progress_never_falls_over_run(t, shorter, k);
        assert(shorter.take(k) =~= events.take(k));
        lemma_run_keeps_task(t, shorter);
        lemma_progress_never_falls(t.after(shorter), events.last());
    }
}

/// Unless the step is the one that finds the destination in place, progress
/// becomes full only when the running fetch is reported to have ended
/// successfully.
pub proof fn lemma_full_only_after_successful_fetch(t: TaskView, event: EventView)
    requires
        t.wf(),
        t.progress < PROGRESS_DONE,
        !(t.phase == Phase::Pending && event == (EventView::DestinationChecked { exists: true })),
        t.step(event).0.progress == PROGRESS_DONE,
    ensures
        t.phase == Phase::Fetching,
        event matches EventView::FetchExited { exit } && exit.success,
        t.step(event).0.phase == Phase::Completed,
{
}

/// A search that resolves nothing fails the task, and the fetch is never
/// started: not by that step and not by anything reported later.
pub proof fn lemma_failed_step_ends_task(t: TaskView, event: EventView, later: Seq<EventView>)
    requires
        t.wf(),
        t.step(event).0.phase == Phase::Failed,
    ensures
        !t.step(event).1.invokes_process(),
        t.step(event).0.after(later).phase == Phase::Failed,
        forall|i: int|
            0 <= i < later.len() ==> !(#[trigger] t.step(event).0.actions(
                later,
            )[i]).invokes_process(),
{
    lemma_ended_task_stays(t.step(event).0, later);
}

/// Whatever reaches a scheduler, it stays well-formed, and neither its
/// records nor its limit change.
pub proof fn lemma_input_keeps_scheduler(s: SchedulerView, input: Input)
    requires
        s.wf(),
    ensures
        s.applied(input).wf(),
        s.applied(input).records == s.records,
        s.applied(input).limit == s.limit,
        s.applied(input).auto_confirm == s.auto_confirm,
{
    lemma_first_dispatchable(s.records, s.cursor);
}

/// At every point of a run at most `limit` tasks hold a permit.
pub proof fn lemma_concurrency_is_bounded(s: SchedulerView, inputs: Seq<Input>)
    requires
        s.wf(),
    ensures
        s.after(inputs).wf(),
        s.after(inputs).running <= s.limit,
        s.after(inputs).limit == s.limit,
        s.after(inputs).records == s.records,
        s.after(inputs).auto_confirm == s.auto_confirm,
    decreases inputs.len(),
{
    if inputs.len() > 0 {
        lemma_concurrency_is_bounded(s, inputs.drop_last());
        lemma_input_keeps_scheduler(s.after(inputs.drop_last()), inputs.last());
    }
}

/// From its start on, a scheduler with a limit of at least one never has
/// more than `limit` tasks running.
pub proof fn lemma_concurrency_is_bounded_from_start(
    records: Seq<RecordView>,
    auto_confirm: bool,
    limit: nat,
    inputs: Seq<Input>,
)
    requires
        limit >= 1,
        records.len() <= usize::MAX,
    ensures
        SchedulerView::initial(records, auto_confirm, limit).after(inputs).running <= limit,
{
    lemma_concurrency_is_bounded(SchedulerView::initial(records, auto_confirm, limit), inputs);
}

/// Only a record that may be dispatched is asked for or dispatched, only a
/// dispatch takes a permit, and it takes one. The records that a decision
/// passes over may not be dispatched.
pub proof fn lemma_only_dispatchable_records_take_permits(s: SchedulerView)
    requires
        s.wf(),
    ensures
        ({
            let (next, decision) = s.decided();
            &&& decision matches Decision::Dispatch { index } ==> {
                &&& s.cursor <= index < s.records.len()
                &&& s.records[index as int].dispatchable()
                &&& next.running == s.running + 1
                &&& next.cursor == index + 1
            }
            &&& decision matches Decision::Confirm { index } ==> {
                &&& s.cursor <= index < s.records.len()
                &&& s.records[index as int].dispatchable()
                &&& next.cursor == index
            }
            &&& !(decision is Dispatch) ==> next.running == s.running
            &&& forall|i: int|
                s.cursor <= i < next.cursor && !(decision matches Decision::Dispatch { index }
                    && index == i) ==> !(#[trigger] s.records[i]).dispatchable()
        }),
{
    lemma_first_dispatchable(s.records, s.cursor);
}

/// Neither an answer nor the end of a task takes a permit.
pub proof fn lemma_permits_are_taken_by_dispatch_alone(s: SchedulerView, input: Input)
    requires
        s.wf(),
        !(input is Decide),
    ensures
        s.applied(input).running <= s.running,
{
}

/// `Done` is said only when every record was dealt with and no task runs.
pub proof fn lemma_done_means_all_ended(s: SchedulerView)
    requires
        s.wf(),
        s.decided().1 == Decision::Done,
    ensures
        s.decided().0.running == 0,
        s.decided().0.cursor == s.records.len(),
        forall|i: int| s.cursor <= i < s.records.len() ==> !(#[trigger] s.records[i]).dispatchable(),
{
    lemma_first_dispatchable(s.records, s.cursor);
}

/// Records are taken up in their order, each at most once: no input moves
/// the cursor back, and a dispatch moves it past the record it dispatches.
pub proof fn lemma_dispatch_follows_input_order(s: SchedulerView, input: Input)
    requires
        s.wf(),
    ensures
        s.cursor <= s.applied(input).cursor,
        s.decided().1 matches Decision::Dispatch { index } ==> s.cursor <= index
            < s.decided().0.cursor,
{
    lemma_first_dispatchable(s.records, s.cursor);
}

/// The caller is told to wait only while a task runs, so the wait ends.
pub proof fn lemma_wait_has_a_task_to_wait_for(s: SchedulerView)
    requires
        s.wf(),
        s.decided().1 == Decision::Wait,
    ensures
        s.decided().0.running > 0,
{
}

/// The end of a task frees its permit whatever the outcome: the scheduler
/// goes on in the same way after a failure as after a success, and a record
/// that waits for a permit is dispatched next.
pub proof fn lemma_outcome_does_not_steer(s: SchedulerView, one: Phase, other: Phase)
    requires
        s.wf(),
        one.terminal(),
        other.terminal(),
    ensures
        s.finished(one).course() == s.finished(other).course(),
        s.finished(one).decided().1 == s.finished(other).decided().1,
        s.finished(one).decided().0.course() == s.finished(other).decided().0.course(),
        s.running > 0 ==> s.finished(one).running < s.limit,
        s.running > 0 ==> s.finished(one).decided().1 != Decision::Wait || first_dispatchable(
            s.records,
            s.cursor,
        ) >= s.records.len(),
{
}

/// Two inputs that differ at most in how a task ended.
pub open spec fn alike(one: Input, other: Input) -> bool {
    match (one, other) {
        (Input::Decide, Input::Decide) => true,
        (Input::Answer { accepted: a }, Input::Answer { accepted: b }) => a == b,
        (Input::Finished { outcome: a }, Input::Finished { outcome: b }) => a.terminal()
            == b.terminal(),
        _ => false,
    }
}

/// Failures are isolated: two runs that differ only in how their tasks
/// ended dispatch the same records at the same points.
pub proof fn lemma_failures_are_isolated(s: SchedulerView, one: Seq<Input>, other: Seq<Input>)
    requires
        one.len() == other.len(),
        forall|i: int| 0 <= i < one.len() ==> alike(#[trigger] one[i], other[i]),
    ensures
        s.after(one).course() == s.after(other).course(),
        s.after(one).decided().1 == s.after(other).decided().1,
    decreases one.len(),
{
    if one.len() > 0 {
        lemma_failures_are_isolated(s, one.drop_last(), other.drop_last());
        assert(alike(one[one.len() - 1], other[one.len() - 1]));
    }
}

} // verus!
