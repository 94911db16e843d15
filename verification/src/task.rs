//! One record's way from dispatch to its outcome, as a state machine: the
//! caller performs each action and reports what came of it as the next event.

use crate::command::{
    fetch_command, fetch_command_for, media_url, media_url_of, search_command,
    search_command_for, Command, CommandView, ExitView, ProcessExit,
};
use crate::failure::{TaskError, TaskErrorView};
use crate::progress::{
    advance_progress, advanced, fetch_exit_code, fetch_failure, POLL_INTERVAL_MS, PROGRESS_CAP,
    PROGRESS_DONE,
};
use crate::record::{RecordView, TrackRecord};
use crate::resolve::{resolution, resolve};
use crate::sanitize::{
    clean_query, get_track_path, query_for, track_path_for, PathView, TrackPath,
};
use vstd::prelude::*;

verus! {

/// Where a task stands.
#[derive(Debug, Clone, Copy, PartialEq, Eq, Structural)]
pub enum Phase {
    /// Dispatched; whether the destination exists is not known yet.
    Pending,
    /// The destination is missing; its directory is being made.
    Preparing,
    /// The search runs.
    Resolving,
    /// The fetch runs.
    Fetching,
    /// The fetch ended successfully.
    Completed,
    /// Something went wrong; the task's error says what.
    Failed,
    /// The destination was there already; nothing was run.
    Skipped,
}

impl Phase {
    /// Whether a task in this phase has ended.
    pub open spec fn terminal(self) -> bool {
        self == Phase::Completed || self == Phase::Failed || self == Phase::Skipped
    }

    /// Whether a task in this phase has ended.
    #[verifier::when_used_as_spec(terminal)]
    pub fn is_terminal(self) -> (b: bool)
        ensures
            b == self.terminal(),
    {
        match self {
            Phase::Completed | Phase::Failed | Phase::Skipped => true,
            _ => false,
        }
    }
}

/// What came of the action that the task asked for last.
#[derive(Debug)]
pub enum Event {
    /// The destination was looked for.
    DestinationChecked { exists: bool },
    /// The destination's directory is there.
    DirectoryReady,
    /// The search process ended, having printed `stdout`.
    SearchFinished { exit: ProcessExit, stdout: Vec<u8> },
    /// The fetch process was polled and still runs.
    FetchRunning,
    /// The fetch process was polled and has ended.
    FetchExited { exit: ProcessExit },
    /// The action could not be performed.
    IoFailed { detail: String },
}

pub ghost enum EventView {
    DestinationChecked { exists: bool },
    DirectoryReady,
    SearchFinished { exit: ExitView, stdout: Seq<u8> },
    FetchRunning,
    FetchExited { exit: ExitView },
    IoFailed { detail: Seq<char> },
}

impl View for Event {
    type V = EventView;

    open spec fn view(&self) -> EventView {
        match self {
            Event::DestinationChecked { exists } => EventView::DestinationChecked {
                exists: *exists,
            },
            Event::DirectoryReady => EventView::DirectoryReady,
            Event::SearchFinished { exit, stdout } => EventView::SearchFinished {
                exit: exit@,
                stdout: stdout@,
            },
            Event::FetchRunning => EventView::FetchRunning,
            Event::FetchExited { exit } => EventView::FetchExited { exit: exit@ },
            Event::IoFailed { detail } => EventView::IoFailed { detail: detail@ },
        }
    }
}

/// What the caller is to do next for a task.
#[derive(Debug)]
pub enum Action {
    /// Make sure that `album_dir` exists, as far as that is possible, and
    /// report whether `file` exists.
    CheckDestination { file: String, album_dir: String },
    /// Create `dir` with all its parents.
    CreateDirectory { dir: String },
    /// Run the search to its end and report its exit and its output.
    RunSearch { command: Command },
    /// Start the fetch and poll it at once.
    StartFetch { command: Command },
    /// Wait `millis` milliseconds, then poll the fetch again.
    PollAfter { millis: u64 },
    /// The task has ended: release its permit and report its outcome.
    Finish,
    /// The event meant nothing to the task in its phase: do nothing.
    Ignore,
}

pub ghost enum ActionView {
    CheckDestination { file: Seq<char>, album_dir: Seq<char> },
    CreateDirectory { dir: Seq<char> },
    RunSearch { command: CommandView },
    StartFetch { command: CommandView },
    PollAfter { millis: nat },
    Finish,
    Ignore,
}

impl View for Action {
    type V = ActionView;

    open spec fn view(&self) -> ActionView {
        match self {
            Action::CheckDestination { file, album_dir } => ActionView::CheckDestination {
                file: file@,
                album_dir: album_dir@,
            },
            Action::CreateDirectory { dir } => ActionView::CreateDirectory { dir: dir@ },
            Action::RunSearch { command } => ActionView::RunSearch { command: command@ },
            Action::StartFetch { command } => ActionView::StartFetch { command: command@ },
            Action::PollAfter { millis } => ActionView::PollAfter { millis: *millis as nat },
            Action::Finish => ActionView::Finish,
            Action::Ignore => ActionView::Ignore,
        }
    }
}

impl ActionView {
    /// Whether the action starts an external process.
    pub open spec fn invokes_process(self) -> bool {
        self is RunSearch || self is StartFetch
    }
}

/// The work on one record.
#[derive(Debug)]
pub struct Task {
    record: TrackRecord,
    path: Option<TrackPath>,
    phase: Phase,
    progress: u64,
    error: Option<TaskError>,
}

pub ghost struct TaskView {
    pub record: RecordView,
    pub path: Option<PathView>,
    pub phase: Phase,
    pub progress: nat,
    pub error: Option<TaskErrorView>,
}

impl TaskView {
    /// What holds of every task: progress is full exactly where the file is
    /// known to be there, nothing is estimated before the fetch runs and never
    /// more than the cap while it does, a failed task and no other has an
    /// error, and only a task that failed at once is without a path.
    pub open spec fn wf(self) -> bool {
        &&& match self.phase {
            Phase::Pending | Phase::Preparing | Phase::Resolving => self.progress == 0,
            Phase::Fetching | Phase::Failed => self.progress <= PROGRESS_CAP,
            Phase::Completed | Phase::Skipped => self.progress == PROGRESS_DONE,
        }
        &&& self.error is Some <==> self.phase == Phase::Failed
        &&& self.phase != Phase::Failed ==> self.path is Some
    }

    /// The same task in another phase.
    pub open spec fn moved_to(self, phase: Phase) -> TaskView {
        TaskView { phase, ..self }
    }

    /// The task ended by `error`.
    pub open spec fn failed_with(self, error: TaskErrorView) -> (TaskView, ActionView) {
        (TaskView { phase: Phase::Failed, error: Some(error), ..self }, ActionView::Finish)
    }

    /// The task ended with its file in place.
    pub open spec fn finished_in(self, phase: Phase) -> (TaskView, ActionView) {
        (TaskView { phase, progress: PROGRESS_DONE as nat, ..self }, ActionView::Finish)
    }

    /// The task after `event`, and what is to be done next.
    ///
    /// A destination that exists ends the task as skipped; one that is
    /// missing has its directory made, then the search run, then the fetch
    /// started and polled until it ends. Each poll that finds the fetch
    /// alive advances the estimate. A failure of any step ends the task as
    /// failed. An event that does not answer the task's last action changes
    /// nothing.
    pub open spec fn step(self, event: EventView) -> (TaskView, ActionView) {
        match (self.phase, event) {
            (Phase::Pending, EventView::DestinationChecked { exists }) => {
                if exists {
                    self.finished_in(Phase::Skipped)
                } else {
                    (
                        self.moved_to(Phase::Preparing),
                        ActionView::CreateDirectory { dir: self.path->0.album_dir },
                    )
                }
            },
            (Phase::Preparing, EventView::DirectoryReady) => {
                match query_for(self.record.track, self.record.artist) {
                    Some(query) => (
                        self.moved_to(Phase::Resolving),
                        ActionView::RunSearch { command: search_command_for(query) },
                    ),
                    None => self.failed_with(TaskErrorView::Pattern),
                }
            },
            (Phase::Resolving, EventView::SearchFinished { exit, stdout }) => {
                match resolution(exit, stdout) {
                    Ok(id) => (
                        self.moved_to(Phase::Fetching),
                        ActionView::StartFetch {
                            command: fetch_command_for(self.path->0.template, media_url_of(id)),
                        },
                    ),
                    Err(e) => self.failed_with(TaskErrorView::Resolve(e)),
                }
            },
            (Phase::Fetching, EventView::FetchRunning) => (
                TaskView { progress: advanced(self.progress), ..self },
                ActionView::PollAfter { millis: POLL_INTERVAL_MS as nat },
            ),
            (Phase::Fetching, EventView::FetchExited { exit }) => {
                match fetch_failure(exit) {
                    None => self.finished_in(Phase::Completed),
                    Some(code) => self.failed_with(TaskErrorView::Fetch { code }),
                }
            },
            (_, EventView::IoFailed { detail }) => {
                if self.phase.terminal() {
                    (self, ActionView::Ignore)
                } else {
                    self.failed_with(TaskErrorView::Io { detail })
                }
            },
            _ => (self, ActionView::Ignore),
        }
    }

    /// The task for `record` as it starts, and its first action: it looks for
    /// its destination, unless the engine rejects the pattern that sanitizes
    /// the file's name.
    pub open spec fn begun(record: RecordView) -> (TaskView, ActionView) {
        TaskView::started(record, track_path_for(record.album, record.track))
    }

    /// The task for `record` with `path` as it starts, and its first action:
    /// with a path it looks for its destination, without one it has failed
    /// already.
    pub open spec fn started(record: RecordView, path: Option<PathView>) -> (
        TaskView,
        ActionView,
    ) {
        match path {
            Some(p) => (
                TaskView { record, path, phase: Phase::Pending, progress: 0, error: None },
                ActionView::CheckDestination { file: p.file, album_dir: p.album_dir },
            ),
            None => (
                TaskView {
                    record,
                    path,
                    phase: Phase::Failed,
                    progress: 0,
                    error: Some(TaskErrorView::Pattern),
                },
                ActionView::Finish,
            ),
        }
    }

    /// The task after each of `events` in turn.
    pub open spec fn after(self, events: Seq<EventView>) -> TaskView
        decreases events.len(),
    {
        if events.len() == 0 {
            self
        } else {
            self.after(events.drop_last()).step(events.last()).0
        }
    }

    /// The actions that the task asks for as `events` come in, one for each.
    pub open spec fn actions(self, events: Seq<EventView>) -> Seq<ActionView>
        decreases events.len(),
    {
        if events.len() == 0 {
            Seq::empty()
        } else {
            self.actions(events.drop_last()).push(
                self.after(events.drop_last()).step(events.last()).1,
            )
        }
    }
}

impl View for Task {
    type V = TaskView;

    closed spec fn view(&self) -> TaskView {
        TaskView {
            record: self.record@,
            path: match self.path {
                Some(p) => Some(p@),
                None => None,
            },
            phase: self.phase,
            progress: self.progress as nat,
            error: match self.error {
                Some(e) => Some(e@),
                None => None,
            },
        }
    }
}

impl Task {
    #[verifier::type_invariant]
    spec fn well_formed(self) -> bool {
        self@.wf()
    }

    /// Begins the work on `record`: the task, and its first action.
    ///
    /// The task looks for its destination, whose file is named after the
    /// record's track. Where the regex engine rejects the pattern that
    /// sanitizes the name, the task has failed at once.
    pub fn start(record: TrackRecord) -> (r: (Task, Action))
        ensures
            (r.0@, r.1@) == TaskView::begun(record@),
            r.0@.wf(),
    {
        match get_track_path(
            record.artist_name.as_str(),
            record.album_name.as_str(),
            record.track_name.as_str(),
        ) {
            Ok(path) => {
                let action = Action::CheckDestination {
                    file: path.file.clone(),
                    album_dir: path.album_dir.clone(),
                };
                let task = Task {
                    record,
                    path: Some(path),
                    phase: Phase::Pending,
                    progress: 0,
                    error: None,
                };
                (task, action)
            },
            Err(_) => {
                let task = Task {
                    record,
                    path: None,
                    phase: Phase::Failed,
                    progress: 0,
                    error: Some(TaskError::Pattern),
                };
                (task, Action::Finish)
            },
        }
    }

    /// The task after `event`, and what the caller is to do next.
    pub fn step(self, event: Event) -> (r: (Task, Action))
        ensures
            (r.0@, r.1@) == self@.step(event@),
            r.0@.wf(),
    {
        proof {
            use_type_invariant(&self);
        }
        let Task { record, path, phase, progress, error } = self;
        if phase.is_terminal() {
            return (Task { record, path, phase, progress, error }, Action::Ignore);
        }
        let path = match path {
            Some(p) => p,
            None => {
                // Only a failed task is without a path.
                return (Task { record, path: None, phase, progress, error }, Action::Ignore);
            },
        };
        match (phase, event) {
            (Phase::Pending, Event::DestinationChecked { exists }) => {
                if exists {
                    (
                        Task {
                            record,
                            path: Some(path),
                            phase: Phase::Skipped,
                            progress: PROGRESS_DONE,
                            error,
                        },
                        Action::Finish,
                    )
                } else {
                    let dir = path.album_dir.clone();
                    (
                        Task { record, path: Some(path), phase: Phase::Preparing, progress, error },
                        Action::CreateDirectory { dir },
                    )
                }
            },
            (Phase::Preparing, Event::DirectoryReady) => {
                match clean_query(record.track_name.as_str(), record.artist_name.as_str()) {
                    Ok(query) => {
                        let command = search_command(query.as_str());
                        (
                            Task {
                                record,
                                path: Some(path),
                                phase: Phase::Resolving,
                                progress,
                                error,
                            },
                            Action::RunSearch { command },
                        )
                    },
                    Err(_) => (
                        Task {
                            record,
                            path: Some(path),
                            phase: Phase::Failed,
                            progress,
                            error: Some(TaskError::Pattern),
                        },
                        Action::Finish,
                    ),
                }
            },
            (Phase::Resolving, Event::SearchFinished { exit, stdout }) => {
                match resolve(&exit, stdout.as_slice()) {
                    Ok(media) => {
                        let url = media_url(media.media_id.as_str());
                        let command = fetch_command(path.template.as_str(), url.as_str());
                        (
                            Task {
                                record,
                                path: Some(path),
                                phase: Phase::Fetching,
                                progress,
                                error,
                            },
                            Action::StartFetch { command },
                        )
                    },
                    Err(e) => (
                        Task {
                            record,
                            path: Some(path),
                            phase: Phase::Failed,
                            progress,
                            error: Some(TaskError::Resolve(e)),
                        },
                        Action::Finish,
                    ),
                }
            },
            (Phase::Fetching, Event::FetchRunning) => (
                Task {
                    record,
                    path: Some(path),
                    phase,
                    progress: advance_progress(progress),
                    error,
                },
                Action::PollAfter { millis: POLL_INTERVAL_MS },
            ),
            (Phase::Fetching, Event::FetchExited { exit }) => {
                match fetch_exit_code(&exit) {
                    None => (
                        Task {
                            record,
                            path: Some(path),
                            phase: Phase::Completed,
                            progress: PROGRESS_DONE,
                            error,
                        },
                        Action::Finish,
                    ),
                    Some(code) => (
                        Task {
                            record,
                            path: Some(path),
                            phase: Phase::Failed,
                            progress,
                            error: Some(TaskError::Fetch { code }),
                        },
                        Action::Finish,
                    ),
                }
            },
            (_, Event::IoFailed { detail }) => (
                Task {
                    record,
                    path: Some(path),
                    phase: Phase::Failed,
                    progress,
                    error: Some(TaskError::Io { detail }),
                },
                Action::Finish,
            ),
            (_, _) => (Task { record, path: Some(path), phase, progress, error }, Action::Ignore),
        }
    }

    /// Where the task stands.
    pub fn phase(&self) -> (phase: Phase)
        ensures
            phase == self@.phase,
    {
        self.phase
    }

    /// The task's progress, from 0 to 100.
    pub fn progress(&self) -> (progress: u64)
        ensures
            progress == self@.progress,
            progress <= PROGRESS_DONE,
    {
        proof {
            use_type_invariant(self);
        }
        self.progress
    }

    /// Whether the task has ended.
    pub fn is_terminal(&self) -> (b: bool)
        ensures
            b == self@.phase.terminal(),
    {
        self.phase.is_terminal()
    }

    /// The record that the task works on.
    pub fn record(&self) -> (record: &TrackRecord)
        ensures
            record@ == self@.record,
    {
        &self.record
    }

    /// Where the task stores its file; `None` for a task that failed at once.
    pub fn path(&self) -> (path: Option<&TrackPath>)
        ensures
            match path {
                Some(p) => self@.path == Some(p@),
                None => self@.path is None,
            },
    {
        self.path.as_ref()
    }

    /// Why the task failed; `None` unless it did.
    pub fn error(&self) -> (error: Option<&TaskError>)
        ensures
            match error {
                Some(e) => self@.error == Some(e@),
                None => self@.error is None,
            },
            error is Some <==> self@.phase == Phase::Failed,
    {
        proof {
            use_type_invariant(self);
        }
        self.error.as_ref()
    }
}

} // verus!
