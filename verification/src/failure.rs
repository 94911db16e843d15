//! Why a task failed, and how the failure is reported.

use crate::record::{RecordView, TrackRecord};
use crate::text::{decimal, decimal_string};
use vstd::prelude::*;
use vstd::string::*;

verus! {

/// Why no media identifier could be had for a query.
#[derive(Debug)]
pub enum ResolveError {
    /// The search process ended unsuccessfully; `status` describes how.
    SearchFailed { status: String },
    /// The search process printed no line at all.
    NoResults,
    /// The first line printed is no JSON value; `detail` is the parser's word.
    Malformed { detail: String },
    /// The first line holds no textual `id`.
    MissingId,
}

/// Why a task ended in failure.
#[derive(Debug)]
pub enum TaskError {
    /// The regex engine rejected a sanitizing pattern.
    Pattern,
    /// Creating a directory or running a process failed.
    Io { detail: String },
    /// The search gave no usable result.
    Resolve(ResolveError),
    /// The fetch process ended unsuccessfully, with this exit code
    /// (-1 where it had none).
    Fetch { code: i32 },
}

pub ghost enum ResolveErrorView {
    SearchFailed { status: Seq<char> },
    NoResults,
    Malformed { detail: Seq<char> },
    MissingId,
}

pub ghost enum TaskErrorView {
    Pattern,
    Io { detail: Seq<char> },
    Resolve(ResolveErrorView),
    Fetch { code: int },
}

impl View for ResolveError {
    type V = ResolveErrorView;

    open spec fn view(&self) -> ResolveErrorView {
        match self {
            ResolveError::SearchFailed { status } => ResolveErrorView::SearchFailed {
                status: status@,
            },
            ResolveError::NoResults => ResolveErrorView::NoResults,
            ResolveError::Malformed { detail } => ResolveErrorView::Malformed { detail: detail@ },
            ResolveError::MissingId => ResolveErrorView::MissingId,
        }
    }
}

impl View for TaskError {
    type V = TaskErrorView;

    open spec fn view(&self) -> TaskErrorView {
        match self {
            TaskError::Pattern => TaskErrorView::Pattern,
            TaskError::Io { detail } => TaskErrorView::Io { detail: detail@ },
            TaskError::Resolve(e) => TaskErrorView::Resolve(e@),
            TaskError::Fetch { code } => TaskErrorView::Fetch { code: *code as int },
        }
    }
}

impl Clone for ResolveError {
    fn clone(&self) -> (r: Self)
        ensures
            r@ == self@,
    {
        match self {
            ResolveError::SearchFailed { status } => ResolveError::SearchFailed {
                status: status.clone(),
            },
            ResolveError::NoResults => ResolveError::NoResults,
            ResolveError::Malformed { detail } => ResolveError::Malformed {
                detail: detail.clone(),
            },
            ResolveError::MissingId => ResolveError::MissingId,
        }
    }
}

impl Clone for TaskError {
    fn clone(&self) -> (r: Self)
        ensures
            r@ == self@,
    {
        match self {
            TaskError::Pattern => TaskError::Pattern,
            TaskError::Io { detail } => TaskError::Io { detail: detail.clone() },
            TaskError::Resolve(e) => TaskError::Resolve(e.clone()),
            TaskError::Fetch { code } => TaskError::Fetch { code: *code },
        }
    }
}

impl ResolveErrorView {
    /// The text that reports the error.
    pub open spec fn message(self) -> Seq<char> {
        match self {
            ResolveErrorView::SearchFailed { status } => "yt-dlp probe failed with: "@ + status,
            ResolveErrorView::NoResults => "No results from yt-dlp"@,
            ResolveErrorView::Malformed { detail } => detail,
            ResolveErrorView::MissingId => "Failed to parse id from yt-dlp output"@,
        }
    }
}

impl TaskErrorView {
    /// The text that reports the error. A failed fetch is reported with its
    /// exit code in decimal.
    pub open spec fn message(self) -> Seq<char> {
        match self {
            TaskErrorView::Pattern => "sanitizing pattern rejected"@,
            TaskErrorView::Io { detail } => detail,
            TaskErrorView::Resolve(e) => e.message(),
            TaskErrorView::Fetch { code } => "yt-dlp failed with exit code "@ + decimal(code),
        }
    }
}

impl ResolveError {
    /// The text that reports the error.
    pub fn message(&self) -> (m: String)
        ensures
            m@ == self@.message(),
    {
        match self {
            ResolveError::SearchFailed { status } => {
                let mut m = String::from_str("yt-dlp probe failed with: ");
                m.append(status.as_str());
                m
            },
            ResolveError::NoResults => String::from_str("No results from yt-dlp"),
            ResolveError::Malformed { detail } => detail.clone(),
            ResolveError::MissingId => String::from_str("Failed to parse id from yt-dlp output"),
        }
    }
}

impl TaskError {
    /// The text that reports the error.
    pub fn message(&self) -> (m: String)
        ensures
            m@ == self@.message(),
    {
        match self {
            TaskError::Pattern => String::from_str("sanitizing pattern rejected"),
            TaskError::Io { detail } => detail.clone(),
            TaskError::Resolve(e) => e.message(),
            TaskError::Fetch { code } => {
                let mut m = String::from_str("yt-dlp failed with exit code ");
                let digits = decimal_string(*code);
                m.append(digits.as_str());
                m
            },
        }
    }
}

/// The line that reports a failed task: who it was for, then why it failed.
pub open spec fn failure_line_of(record: RecordView, error: TaskErrorView) -> Seq<char> {
    "Error downloading "@ + record.label() + ": "@ + error.message()
}

/// The label of a task's progress display once the task has ended.
pub open spec fn done_label_of(record: RecordView) -> Seq<char> {
    "Done: "@ + record.label()
}

/// The line to log for a task that failed.
pub fn failure_line(record: &TrackRecord, error: &TaskError) -> (line: String)
    ensures
        line@ == failure_line_of(record@, error@),
{
    let mut line = String::from_str("Error downloading ");
    let label = record.label();
    line.append(label.as_str());
    line.append(": ");
    let message = error.message();
    line.append(message.as_str());
    line
}

/// The label to show for a task that has ended, whatever its outcome.
pub fn done_label(record: &TrackRecord) -> (label: String)
    ensures
        label@ == done_label_of(record@),
{
    let mut label = String::from_str("Done: ");
    let name = record.label();
    label.append(name.as_str());
    label
}

/// The line that reports a failed fetch holds the record's label and the
/// exit code in decimal.
pub proof fn lemma_failure_line_names_record_and_code(record: RecordView, code: int)
    ensures
        ({
            let line = failure_line_of(record, TaskErrorView::Fetch { code });
            let head = "Error downloading "@.len() as int;
            let tail = line.len() - decimal(code).len();
            &&& line.subrange(head, head + record.label().len()) == record.label()
            &&& line.subrange(tail, line.len() as int) == decimal(code)
        }),
{
    let line = failure_line_of(record, TaskErrorView::Fetch { code });
    let head = "Error downloading "@.len() as int;
    let tail = line.len() - decimal(code).len();
    assert(line.subrange(head, head + record.label().len()) =~= record.label());
    assert(line.subrange(tail, line.len() as int) =~= decimal(code));
}

} // verus!
