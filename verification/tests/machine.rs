//! The machine, step by step.

use std::io;

use backitup::error::BackupError;
use backitup::error::InvalidPath;
use backitup::machine::step;
use backitup::machine::step_at;
use backitup::machine::Event;
use backitup::machine::Stage;
use backitup::moment::Moment;
use backitup::target::Place;
use backitup::target::Segment;
use backitup::target::Target;

fn noon() -> Moment {
    Moment::new(2023, 6, 27, 12, 0, 0, 123_456).unwrap()
}

fn data_in_dir() -> Target {
    Target { parent: Segment::Text("dir".to_string()), file_name: Segment::Text("data".to_string()) }
}

fn place() -> Place {
    Place { parent: "dir".to_string(), base: "data".to_string() }
}

fn probing(candidate: &str) -> Stage {
    Stage::Probing { place: place(), candidate: candidate.to_string() }
}

fn renaming(candidate: &str) -> Stage {
    Stage::Renaming { place: place(), candidate: candidate.to_string() }
}

#[test]
fn start_waits_to_learn_whether_the_target_exists() {
    match Stage::start(data_in_dir()) {
        Stage::Locating { target } => {
            assert!(matches!(target.parent, Segment::Text(parent) if parent == "dir"));
            assert!(matches!(target.file_name, Segment::Text(name) if name == "data"));
        },
        _ => panic!("A backup starts by locating its target."),
    }
}

#[test]
fn a_missing_target_ends_the_backup() {
    let next = step_at(Stage::start(data_in_dir()), Event::Located { exists: false }, &noon());
    assert!(matches!(next, Stage::Finished { outcome: Err(BackupError::NotFound) }));
}

#[test]
fn a_target_without_parent_ends_the_backup() {
    let root = Target { parent: Segment::Absent, file_name: Segment::Absent };
    let next = step_at(Stage::start(root), Event::Located { exists: true }, &noon());
    assert!(matches!(
        next,
        Stage::Finished { outcome: Err(BackupError::InvalidPath(InvalidPath::Root)) }
    ));
}

#[test]
fn a_located_target_gets_its_first_name() {
    let next = step_at(Stage::start(data_in_dir()), Event::Located { exists: true }, &noon());
    match next {
        Stage::Probing { place, candidate } => {
            assert_eq!(place.parent, "dir");
            assert_eq!(place.base, "data");
            assert_eq!(candidate, "dir/#data-2023-06-27-12-00-00#");
        },
        _ => panic!("The first name should be probed."),
    }
}

#[test]
fn a_bare_name_is_backed_up_in_the_current_directory() {
    let bare = Target { parent: Segment::Text(String::new()), file_name: Segment::Text("data".to_string()) };
    let next = step_at(Stage::start(bare), Event::Located { exists: true }, &noon());
    match next {
        Stage::Probing { candidate, .. } => assert_eq!(candidate, "./#data-2023-06-27-12-00-00#"),
        _ => panic!("The first name should be probed."),
    }
}

#[test]
fn a_taken_name_is_followed_by_one_with_microseconds() {
    let next = step_at(probing("dir/#data-2023-06-27-12-00-00#"), Event::Probed { taken: true }, &noon());
    match next {
        Stage::Probing { place, candidate } => {
            assert_eq!(place.parent, "dir");
            assert_eq!(place.base, "data");
            assert_eq!(candidate, "dir/#data-2023-06-27-12-00-00-123456#");
        },
        _ => panic!("Another name should be probed."),
    }
}

#[test]
fn a_free_name_is_renamed_to() {
    let next = step_at(probing("dir/#data-2023-06-27-12-00-00#"), Event::Probed { taken: false }, &noon());
    match next {
        Stage::Renaming { candidate, .. } => assert_eq!(candidate, "dir/#data-2023-06-27-12-00-00#"),
        _ => panic!("The free name should be renamed to."),
    }
}

#[test]
fn a_rename_that_worked_ends_with_the_name() {
    let next = step_at(renaming("dir/#data-x#"), Event::Renamed { outcome: Ok(()) }, &noon());
    match next {
        Stage::Finished { outcome: Ok(path) } => assert_eq!(path, "dir/#data-x#"),
        _ => panic!("The backup should have ended with its path."),
    }
}

#[test]
fn a_rename_that_failed_ends_with_its_error() {
    let refused = io::Error::new(io::ErrorKind::AlreadyExists, "in the way");
    let next = step_at(renaming("dir/#data-x#"), Event::Renamed { outcome: Err(refused) }, &noon());
    match next {
        Stage::Finished { outcome: Err(BackupError::Io(error)) } => {
            assert_eq!(error.kind(), io::ErrorKind::AlreadyExists);
            assert_eq!(error.to_string(), "in the way");
        },
        _ => panic!("The backup should have ended with the error of the rename."),
    }
}

#[test]
fn an_event_nobody_waits_for_changes_nothing() {
    let next = step_at(Stage::start(data_in_dir()), Event::Probed { taken: true }, &noon());
    assert!(matches!(next, Stage::Locating { .. }));
    let next = step_at(Stage::start(data_in_dir()), Event::Renamed { outcome: Ok(()) }, &noon());
    assert!(matches!(next, Stage::Locating { .. }));

    let next = step_at(probing("name"), Event::Located { exists: false }, &noon());
    assert!(matches!(next, Stage::Probing { candidate, .. } if candidate == "name"));
    let next = step_at(probing("name"), Event::Renamed { outcome: Ok(()) }, &noon());
    assert!(matches!(next, Stage::Probing { candidate, .. } if candidate == "name"));

    let next = step_at(renaming("name"), Event::Probed { taken: true }, &noon());
    assert!(matches!(next, Stage::Renaming { candidate, .. } if candidate == "name"));
    let next = step_at(renaming("name"), Event::Located { exists: true }, &noon());
    assert!(matches!(next, Stage::Renaming { candidate, .. } if candidate == "name"));

    let done = Stage::Finished { outcome: Ok("name".to_string()) };
    let next = step_at(done, Event::Probed { taken: true }, &noon());
    assert!(matches!(next, Stage::Finished { outcome: Ok(path) } if path == "name"));
    let failed = Stage::Finished { outcome: Err(BackupError::NotFound) };
    let next = step_at(failed, Event::Located { exists: true }, &noon());
    assert!(matches!(next, Stage::Finished { outcome: Err(BackupError::NotFound) }));
}

/// The timestamps that chrono gives for the local time just before and just
/// after a step; the step's own reading lies between them.
fn stamp_now() -> String {
    chrono::Local::now().format("%Y-%m-%d-%H-%M-%S").to_string()
}

#[test]
fn step_names_the_backup_after_the_local_time() {
    let before = stamp_now();
    let next = step(Stage::start(data_in_dir()), Event::Located { exists: true });
    let after = stamp_now();
    match next {
        Stage::Probing { candidate, .. } => {
            let earliest = format!("dir/#data-{}#", before);
            let latest = format!("dir/#data-{}#", after);
            assert!(candidate == earliest || candidate == latest || (earliest < candidate && candidate < latest));
        },
        _ => panic!("The first name should be probed."),
    }
}

#[test]
fn step_adds_the_microseconds_of_the_local_time() {
    let before = stamp_now();
    let next = step(probing("dir/#data-taken#"), Event::Probed { taken: true });
    let after = stamp_now();
    match next {
        Stage::Probing { candidate, .. } => {
            assert!(candidate.starts_with("dir/#data-"));
            assert!(candidate.ends_with('#'));
            let mark = &candidate["dir/#data-".len()..candidate.len() - 1];
            let (stamp, micros) = mark.rsplit_once('-').unwrap();
            assert!(before.as_str() <= stamp && stamp <= after.as_str());
            assert_eq!(stamp.len(), 19);
            let micros: u32 = micros.parse().unwrap();
            assert!(micros < 1_000_000);
        },
        _ => panic!("Another name should be probed."),
    }
}

#[test]
fn step_needs_no_clock_to_end_a_backup() {
    let next = step(Stage::start(data_in_dir()), Event::Located { exists: false });
    assert!(matches!(next, Stage::Finished { outcome: Err(BackupError::NotFound) }));
    let next = step(probing("free"), Event::Probed { taken: false });
    assert!(matches!(next, Stage::Renaming { candidate, .. } if candidate == "free"));
    let next = step(renaming("free"), Event::Renamed { outcome: Ok(()) });
    assert!(matches!(next, Stage::Finished { outcome: Ok(path) } if path == "free"));
}
