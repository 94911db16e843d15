//! Which record is dispatched next, and when: at most `limit` tasks run at a
//! time, and the run is over when every dispatched task has ended.

use crate::bindings::{lowercase, to_lowercase};
use crate::record::{record_views, RecordView, TrackRecord};
use crate::task::Phase;
use crate::text::{to_chars, trim, trimmed};
use vstd::prelude::*;
use vstd::string::*;

verus! {

/// What the caller is to do next for the batch.
#[derive(Debug, Clone, Copy, PartialEq, Eq, Structural)]
pub enum Decision {
    /// Ask whether the record at `index` is wanted, and give the answer.
    Confirm { index: usize },
    /// Start a task for the record at `index`; its permit is taken.
    Dispatch { index: usize },
    /// Every permit is taken, or no record is left and tasks still run:
    /// wait until a task ends and report it.
    Wait,
    /// Every record was considered and every task has ended.
    Done,
}

/// How many tasks ended in which way.
#[derive(Debug, Clone, Copy, PartialEq, Eq, Structural)]
pub struct Tally {
    pub completed: usize,
    pub failed: usize,
    pub skipped: usize,
}

/// The bounded pool of workers over a list of records.
#[derive(Debug)]
pub struct Scheduler {
    records: Vec<TrackRecord>,
    auto_confirm: bool,
    limit: usize,
    cursor: usize,
    confirmed: bool,
    running: usize,
    tally: Tally,
}

pub ghost struct SchedulerView {
    /// The records, in the order in which they are dispatched.
    pub records: Seq<RecordView>,
    /// Whether records are dispatched without asking.
    pub auto_confirm: bool,
    /// How many tasks may run at a time.
    pub limit: nat,
    /// The first record that is not dealt with yet.
    pub cursor: nat,
    /// Whether the record at the cursor was asked for and wanted.
    pub confirmed: bool,
    /// How many tasks hold a permit.
    pub running: nat,
    pub completed: nat,
    pub failed: nat,
    pub skipped: nat,
}

/// What happens to a scheduler.
pub ghost enum Input {
    /// The caller asks what to do next.
    Decide,
    /// The caller answers a `Confirm`.
    Answer { accepted: bool },
    /// A task ended in `outcome`.
    Finished { outcome: Phase },
}

/// The first record at or after `from` that may be dispatched; the number of
/// records where there is none.
pub open spec fn first_dispatchable(records: Seq<RecordView>, from: nat) -> nat
    decreases records.len() - from,
{
    if from >= records.len() {
        records.len()
    } else if records[from as int].dispatchable() {
        from
    } else {
        first_dispatchable(records, from + 1)
    }
}

impl SchedulerView {
    /// What holds of every scheduler: the records can be counted, no more
    /// tasks run than the limit allows, every task that runs or has ended
    /// belongs to a record before the cursor, and only a record that may be
    /// dispatched is confirmed.
    pub open spec fn wf(self) -> bool {
        &&& self.limit >= 1
        &&& self.records.len() <= usize::MAX
        &&& self.running <= self.limit
        &&& self.cursor <= self.records.len()
        &&& self.running + self.completed + self.failed + self.skipped <= self.cursor
        &&& self.confirmed ==> self.awaits_answer_or_permit()
    }

    /// Whether the record at the cursor may be dispatched.
    pub open spec fn awaits_answer_or_permit(self) -> bool {
        self.cursor < self.records.len() && self.records[self.cursor as int].dispatchable()
    }

    /// Whether the record at the cursor waits for the caller's answer.
    pub open spec fn awaits_answer(self) -> bool {
        self.awaits_answer_or_permit() && !self.auto_confirm && !self.confirmed
    }

    /// The scheduler as it starts.
    pub open spec fn initial(
        records: Seq<RecordView>,
        auto_confirm: bool,
        limit: nat,
    ) -> SchedulerView {
        SchedulerView {
            records,
            auto_confirm,
            limit,
            cursor: 0,
            confirmed: false,
            running: 0,
            completed: 0,
            failed: 0,
            skipped: 0,
        }
    }

    /// The scheduler after it was asked what to do next, and its answer.
    ///
    /// Records that may not be dispatched are passed over. The first one
    /// that may is asked for, unless nothing is asked or it was wanted
    /// already; then it is dispatched if a permit is free, and waited for
    /// otherwise. With no record left the caller waits while tasks run.
    pub open spec fn decided(self) -> (SchedulerView, Decision) {
        let at = first_dispatchable(self.records, self.cursor);
        let here = SchedulerView { cursor: at, ..self };
        if at >= self.records.len() {
            (
                here,
                if self.running > 0 {
                    Decision::Wait
                } else {
                    Decision::Done
                },
            )
        } else if !self.auto_confirm && !self.confirmed {
            (here, Decision::Confirm { index: at as usize })
        } else if self.running < self.limit {
            (
                SchedulerView {
                    cursor: at + 1,
                    running: self.running + 1,
                    confirmed: false,
                    ..self
                },
                Decision::Dispatch { index: at as usize },
            )
        } else {
            (here, Decision::Wait)
        }
    }

    /// The scheduler after the caller's answer: a record that is wanted
    /// waits for its permit, one that is not is passed over. An answer that
    /// nothing waits for changes nothing.
    pub open spec fn answered(self, accepted: bool) -> SchedulerView {
        if !self.awaits_answer() {
            self
        } else if accepted {
            SchedulerView { confirmed: true, ..self }
        } else {
            SchedulerView { cursor: self.cursor + 1, ..self }
        }
    }

    /// The scheduler after a task ended: its permit is free again, whatever
    /// the outcome. A report that no running task can have made changes
    /// nothing.
    pub open spec fn finished(self, outcome: Phase) -> SchedulerView {
        if self.running == 0 || !outcome.terminal() {
            self
        } else {
            let freed = SchedulerView { running: (self.running - 1) as nat, ..self };
            match outcome {
                Phase::Completed => SchedulerView { completed: self.completed + 1, ..freed },
                Phase::Skipped => SchedulerView { skipped: self.skipped + 1, ..freed },
                _ => SchedulerView { failed: self.failed + 1, ..freed },
            }
        }
    }

    /// The scheduler after `input`.
    pub open spec fn applied(self, input: Input) -> SchedulerView {
        match input {
            Input::Decide => self.decided().0,
            Input::Answer { accepted } => self.answered(accepted),
            Input::Finished { outcome } => self.finished(outcome),
        }
    }

    /// The scheduler after each of `inputs` in turn.
    pub open spec fn after(self, inputs: Seq<Input>) -> SchedulerView
        decreases inputs.len(),
    {
        if inputs.len() == 0 {
            self
        } else {
            self.after(inputs.drop_last()).applied(inputs.last())
        }
    }

    /// What decides about the records to come: everything but the tally.
    pub open spec fn course(self) -> SchedulerView {
        SchedulerView { completed: 0, failed: 0, skipped: 0, ..self }
    }
}

/// `first_dispatchable` finds the first record at or after `from` that may
/// be dispatched: none lies between, and what it finds may be dispatched.
pub proof fn lemma_first_dispatchable(records: Seq<RecordView>, from: nat)
    requires
        from <= records.len(),
    ensures
        from <= first_dispatchable(records, from) <= records.len(),
        forall|i: int| from <= i < first_dispatchable(records, from) ==> !records[i].dispatchable(),
        first_dispatchable(records, from) < records.len() ==> records[first_dispatchable(
            records,
            from,
        ) as int].dispatchable(),
    decreases records.len() - from,
{
    if from < records.len() && !records[from as int].dispatchable() {
        lemma_first_dispatchable(records, from + 1);
    }
}

impl View for Scheduler {
    type V = SchedulerView;

    closed spec fn view(&self) -> SchedulerView {
        SchedulerView {
            records: record_views(self.records@),
            auto_confirm: self.auto_confirm,
            limit: self.limit as nat,
            cursor: self.cursor as nat,
            confirmed: self.confirmed,
            running: self.running as nat,
            completed: self.tally.completed as nat,
            failed: self.tally.failed as nat,
            skipped: self.tally.skipped as nat,
        }
    }
}

impl Scheduler {
    #[verifier::type_invariant]
    spec fn well_formed(self) -> bool {
        self@.wf()
    }

    /// A scheduler over `records` that lets at most `limit` tasks run at a
    /// time and asks about each record unless `auto_confirm` is set.
    pub fn new(records: Vec<TrackRecord>, auto_confirm: bool, limit: usize) -> (s: Scheduler)
        requires
            limit >= 1,
        ensures
            s@ == SchedulerView::initial(record_views(records@), auto_confirm, limit as nat),
            s@.wf(),
    {
        proof {
            assert(records.len() == records@.len());
        }
        Scheduler {
            records,
            auto_confirm,
            limit,
            cursor: 0,
            confirmed: false,
            running: 0,
            tally: Tally { completed: 0, failed: 0, skipped: 0 },
        }
    }

    /// Says what to do next. A `Dispatch` takes a permit; nothing else does.
    /// `Done` comes only when no record is left and no task runs.
    pub fn next_decision(&mut self) -> (decision: Decision)
        ensures
            (final(self)@, decision) == old(self)@.decided(),
            final(self)@.wf(),
    {
        proof {
            use_type_invariant(&*self);
        }
        let n: usize = self.records.len();
        while self.cursor < n && !self.records[self.cursor].is_dispatchable()
            invariant
                self@.wf(),
                n == self.records@.len(),
                self@ == (SchedulerView { cursor: self@.cursor, ..old(self)@ }),
                old(self)@.cursor <= self@.cursor,
                first_dispatchable(old(self)@.records, old(self)@.cursor) == first_dispatchable(
                    self@.records,
                    self@.cursor,
                ),
            decreases n - self.cursor,
        {
            self.cursor = self.cursor + 1;
        }
        if self.cursor >= n {
            if self.running > 0 {
                Decision::Wait
            } else {
                Decision::Done
            }
        } else if !self.auto_confirm && !self.confirmed {
            Decision::Confirm { index: self.cursor }
        } else if self.running < self.limit {
            let index: usize = self.cursor;
            self.confirmed = false;
            self.cursor = index + 1;
            self.running = self.running + 1;
            Decision::Dispatch { index }
        } else {
            Decision::Wait
        }
    }

    /// Takes the answer to a `Confirm`.
    pub fn answer(&mut self, accepted: bool)
        ensures
            final(self)@ == old(self)@.answered(accepted),
            final(self)@.wf(),
    {
        proof {
            use_type_invariant(&*self);
        }
        if self.auto_confirm || self.confirmed || self.cursor >= self.records.len() {
            return ;
        }
        if !self.records[self.cursor].is_dispatchable() {
            return ;
        }
        if accepted {
            self.confirmed = true;
        } else {
            self.cursor = self.cursor + 1;
        }
    }

    /// Takes the report that a task has ended in `outcome`, and frees its
    /// permit.
    pub fn task_finished(&mut self, outcome: Phase)
        ensures
            final(self)@ == old(self)@.finished(outcome),
            final(self)@.wf(),
    {
        proof {
            use_type_invariant(&*self);
        }
        if self.running == 0 || !outcome.is_terminal() {
            return ;
        }
        match outcome {
            Phase::Completed => {
                self.running = self.running - 1;
                self.tally.completed = self.tally.completed + 1;
            },
            Phase::Skipped => {
                self.running = self.running - 1;
                self.tally.skipped = self.tally.skipped + 1;
            },
            _ => {
                self.running = self.running - 1;
                self.tally.failed = self.tally.failed + 1;
            },
        }
    }

    /// The record at `index`, if there is one.
    pub fn record(&self, index: usize) -> (record: Option<&TrackRecord>)
        ensures
            match record {
                Some(r) => index < self@.records.len() && r@ == self@.records[index as int],
                None => index >= self@.records.len(),
            },
    {
        if index < self.records.len() {
            Some(&self.records[index])
        } else {
            None
        }
    }

    /// How many tasks hold a permit.
    pub fn running(&self) -> (running: usize)
        ensures
            running == self@.running,
            running <= self@.limit,
    {
        proof {
            use_type_invariant(self);
        }
        self.running
    }

    /// How many tasks may run at a time.
    pub fn limit(&self) -> (limit: usize)
        ensures
            limit == self@.limit,
    {
        self.limit
    }

    /// How many tasks have ended in which way.
    pub fn tally(&self) -> (tally: Tally)
        ensures
            tally.completed == self@.completed,
            tally.failed == self@.failed,
            tally.skipped == self@.skipped,
    {
        self.tally
    }
}

/// Whether `answer` says yes: it does if, trimmed and in lower case, it is
/// the letter `y`.
pub open spec fn affirms(answer: Seq<char>) -> bool {
    lowercase(trimmed(answer)) == seq!['y']
}

/// The question to put for `record`.
pub open spec fn prompt_for(record: RecordView) -> Seq<char> {
    "Download '"@ + record.track + "' by "@ + record.artist + "? [y/N]: "@
}

/// Whether `text` is the letter `y` and nothing else.
pub fn is_yes(text: &str) -> (b: bool)
    ensures
        b == (text@ == seq!['y']),
{
    let chars = to_chars(text);
    let b = chars.len() == 1 && chars[0] == 'y';
    proof {
        if b {
            assert(chars@ =~= seq!['y']);
        }
    }
    b
}

/// Whether `answer` says yes.
pub fn is_affirmative(answer: &str) -> (b: bool)
    ensures
        b == affirms(answer@),
{
    let lowered = to_lowercase(trim(answer));
    is_yes(lowered.as_str())
}

/// The question to put for `record`.
pub fn confirmation_prompt(record: &TrackRecord) -> (prompt: String)
    ensures
        prompt@ == prompt_for(record@),
{
    let mut prompt = String::from_str("Download '");
    prompt.append(record.track_name.as_str());
    prompt.append("' by ");
    prompt.append(record.artist_name.as_str());
    prompt.append("? [y/N]: ");
    prompt
}

} // verus!
