//! Decisions of a bulk media downloader: which records are fetched, with
//! which commands, under which concurrency limit, and what each outcome means.
//!
//! The library never touches the disk or starts a process. A [`task::Task`]
//! says what is to be done next for one record and takes what came of it; a
//! [`scheduler::Scheduler`] says which record is started when. The caller
//! performs what they ask for.

pub mod bindings;
pub mod command;
pub mod failure;
pub mod laws;
pub mod progress;
pub mod record;
pub mod resolve;
pub mod sanitize;
pub mod scheduler;
pub mod task;
pub mod text;
