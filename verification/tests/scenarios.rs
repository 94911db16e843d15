use playlist_dl::command::ProcessExit;
use playlist_dl::failure::{failure_line, ResolveError, TaskError};
use playlist_dl::record::TrackRecord;
use playlist_dl::scheduler::{Decision, Scheduler};
use playlist_dl::task::{Action, Event, Phase, Task};

/// What the world outside answers for one record.
#[derive(Clone)]
struct World {
    destination_exists: bool,
    search_exit: i32,
    search_output: &'static str,
    polls_alive: usize,
    fetch_exit: i32,
}

/// What a run of one task did.
struct Run {
    task: Task,
    searches: usize,
    fetches: usize,
    template: Option<String>,
    progress_seen: Vec<u64>,
}

fn exited(code: i32) -> ProcessExit {
    ProcessExit { success: code == 0, code: Some(code), description: format!("exit status: {code}") }
}

/// Performs each action of a task against `world` until the task ends.
fn run_task(record: TrackRecord, world: &World) -> Run {
    let (mut task, mut action) = Task::start(record);
    let mut run = Run {
        searches: 0,
        fetches: 0,
        template: None,
        progress_seen: vec![task.progress()],
        task: Task::start(TrackRecord::new("", "", "")).0,
    };
    let mut polls_left = world.polls_alive;
    loop {
        let event = match action {
            Action::CheckDestination { .. } => {
                Event::DestinationChecked { exists: world.destination_exists }
            }
            Action::CreateDirectory { .. } => Event::DirectoryReady,
            Action::RunSearch { .. } => {
                run.searches += 1;
                Event::SearchFinished {
                    exit: exited(world.search_exit),
                    stdout: world.search_output.as_bytes().to_vec(),
                }
            }
            Action::StartFetch { command } => {
                run.fetches += 1;
                run.template = Some(command.args[8].clone());
                if polls_left > 0 {
                    polls_left -= 1;
                    Event::FetchRunning
                } else {
                    Event::FetchExited { exit: exited(world.fetch_exit) }
                }
            }
            Action::PollAfter { millis } => {
                assert_eq!(millis, 300);
                if polls_left > 0 {
                    polls_left -= 1;
                    Event::FetchRunning
                } else {
                    Event::FetchExited { exit: exited(world.fetch_exit) }
                }
            }
            Action::Finish | Action::Ignore => break,
        };
        let (next, next_action) = task.step(event);
        task = next;
        action = next_action;
        run.progress_seen.push(task.progress());
    }
    run.task = task;
    run
}

fn good_world() -> World {
    World {
        destination_exists: false,
        search_exit: 0,
        search_output: "{\"id\": \"abc123\", \"title\": \"Song A\"}\n",
        polls_alive: 5,
        fetch_exit: 0,
    }
}

fn song() -> TrackRecord {
    TrackRecord::new("Song A", "Artist X", "Album Y")
}

/// Runs a whole batch, one world per record, and gives each outcome by index.
fn run_batch(records: Vec<TrackRecord>, worlds: &[World], limit: usize) -> Vec<Option<Run>> {
    let mut outcomes: Vec<Option<Run>> = records.iter().map(|_| None).collect();
    let mut scheduler = Scheduler::new(records, true, limit);
    let mut waiting: Vec<usize> = Vec::new();
    loop {
        match scheduler.next_decision() {
            Decision::Dispatch { index } => {
                let record = scheduler.record(index).unwrap().clone();
                outcomes[index] = Some(run_task(record, &worlds[index]));
                waiting.push(index);
            }
            Decision::Wait => {
                let index = waiting.remove(0);
                scheduler.task_finished(outcomes[index].as_ref().unwrap().task.phase());
            }
            Decision::Confirm { .. } => panic!("nothing is asked"),
            Decision::Done => break,
        }
        assert!(scheduler.running() <= limit);
    }
    assert_eq!(scheduler.running(), 0);
    outcomes
}

#[test]
fn scenario_download_completes() {
    let outcomes = run_batch(vec![song()], &[good_world()], 1);
    let run = outcomes[0].as_ref().unwrap();
    assert_eq!(run.task.phase(), Phase::Completed);
    assert_eq!(run.task.progress(), 100);
    assert!(run.task.error().is_none());
    assert_eq!(run.searches, 1);
    assert_eq!(run.fetches, 1);
    let sep = std::path::MAIN_SEPARATOR;
    assert_eq!(run.template.as_deref(), Some(format!("playlists{sep}Album Y{sep}Song A").as_str()));
    let path = run.task.path().unwrap();
    assert_eq!(path.album_dir, format!("playlists{sep}Album Y"));
    assert_eq!(path.file, format!("playlists{sep}Album Y{sep}Song A.mp3"));
}

#[test]
fn scenario_fetch_exits_with_one() {
    let failing = World { fetch_exit: 1, ..good_world() };
    let records = vec![song(), TrackRecord::new("Song B", "Artist X", "Album Y")];
    let outcomes = run_batch(records, &[failing, good_world()], 1);
    let run = outcomes[0].as_ref().unwrap();
    assert_eq!(run.task.phase(), Phase::Failed);
    assert!(run.task.progress() < 100);
    let error = run.task.error().unwrap();
    assert!(matches!(error, TaskError::Fetch { code: 1 }));
    let line = failure_line(run.task.record(), error);
    assert!(line.contains("Artist X - Song A"));
    assert!(line.contains("exit code 1"));
    let sibling = outcomes[1].as_ref().unwrap();
    assert_eq!(sibling.task.phase(), Phase::Completed);
    assert_eq!(sibling.task.progress(), 100);
}

#[test]
fn scenario_search_prints_nothing() {
    let silent = World { search_output: "", ..good_world() };
    let outcomes = run_batch(vec![song()], &[silent], 1);
    let run = outcomes[0].as_ref().unwrap();
    assert_eq!(run.task.phase(), Phase::Failed);
    assert!(matches!(run.task.error(), Some(TaskError::Resolve(ResolveError::NoResults))));
    assert_eq!(run.searches, 1);
    assert_eq!(run.fetches, 0);
    assert_eq!(run.task.progress(), 0);
}

#[test]
fn existing_destination_runs_no_process() {
    let stored = World { destination_exists: true, ..good_world() };
    let run = run_task(song(), &stored);
    assert_eq!(run.task.phase(), Phase::Skipped);
    assert_eq!(run.task.progress(), 100);
    assert_eq!(run.searches, 0);
    assert_eq!(run.fetches, 0);
}

#[test]
fn progress_of_a_run_rises_to_full_only_at_the_end() {
    let slow = World { polls_alive: 60, ..good_world() };
    let run = run_task(song(), &slow);
    let seen = &run.progress_seen;
    for pair in seen.windows(2) {
        assert!(pair[0] <= pair[1]);
    }
    assert_eq!(*seen.last().unwrap(), 100);
    for p in &seen[..seen.len() - 1] {
        assert!(*p <= 90);
    }
    assert!(seen.contains(&90));
}

#[test]
fn progress_of_a_failed_run_never_becomes_full() {
    let failing = World { polls_alive: 60, fetch_exit: 3, ..good_world() };
    let run = run_task(song(), &failing);
    assert_eq!(run.task.phase(), Phase::Failed);
    assert!(run.progress_seen.iter().all(|p| *p <= 90));
    assert_eq!(run.task.progress(), 90);
}

#[test]
fn resolve_failure_of_one_record_leaves_the_others() {
    let records: Vec<TrackRecord> =
        (0..5).map(|i| TrackRecord::new(&format!("Song {i}"), "Artist", "Album")).collect();
    let mut worlds = vec![good_world(); 5];
    worlds[1].search_output = "";
    worlds[3].search_exit = 1;
    for limit in 1..=3 {
        let outcomes = run_batch(records.clone(), &worlds, limit);
        for (i, outcome) in outcomes.iter().enumerate() {
            let run = outcome.as_ref().unwrap();
            if i == 1 || i == 3 {
                assert_eq!(run.task.phase(), Phase::Failed);
                assert_eq!(run.fetches, 0);
            } else {
                assert_eq!(run.task.phase(), Phase::Completed);
                assert_eq!(run.task.progress(), 100);
            }
        }
    }
}

#[test]
fn second_run_starts_no_process() {
    let records: Vec<TrackRecord> =
        (0..4).map(|i| TrackRecord::new(&format!("Song {i}"), "Artist", "Album")).collect();
    let mut worlds = vec![good_world(); 4];
    worlds[2].destination_exists = true;
    let first = run_batch(records.clone(), &worlds, 2);
    // What the first run stored is there in the second.
    let after: Vec<World> = first
        .iter()
        .zip(&worlds)
        .map(|(run, world)| World {
            destination_exists: world.destination_exists
                || run.as_ref().unwrap().task.phase() == Phase::Completed,
            ..world.clone()
        })
        .collect();
    let second = run_batch(records, &after, 2);
    for outcome in &second {
        let run = outcome.as_ref().unwrap();
        assert_eq!(run.task.phase(), Phase::Skipped);
        assert_eq!(run.task.progress(), 100);
        assert_eq!(run.searches, 0);
        assert_eq!(run.fetches, 0);
    }
}

#[test]
fn invalid_records_are_never_run() {
    let records = vec![
        TrackRecord::new("", "Artist", "Album"),
        song(),
        TrackRecord::new("Song", " ", "Album"),
    ];
    let outcomes = run_batch(records, &vec![good_world(); 3], 2);
    assert!(outcomes[0].is_none());
    assert!(outcomes[1].is_some());
    assert!(outcomes[2].is_none());
}
