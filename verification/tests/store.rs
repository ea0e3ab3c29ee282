use dotsync::effect::{Action, Event};
use dotsync::error::ErrorKind;
use dotsync::source::SourceType;
use dotsync::state::{Profile, Record, State};
use dotsync::store::{
    load, state_file_path, Delete, ReadOutcome, Save, READONLY_MODE, WRITABLE_MODE, WRITE_BITS,
};

const PATH: &str = "/home/u/.dotsync.state.json";

fn record() -> Record {
    Record {
        url: "https://example.com/repo/archive/main.zip".to_string(),
        branch: None,
        path: "~/.df".to_string(),
        backup_path: "~/.df-backup".to_string(),
        profiles: vec![Profile { name: "default".to_string(), files: vec!["~/.bashrc".to_string()] }],
        active_profile: None,
        history: None,
        source_type: Some(SourceType::Zip),
    }
}

fn failed(detail: &str) -> Event {
    Event::Failed { detail: detail.to_string() }
}

fn set_mode(mode: u32) -> Option<Action> {
    Some(Action::SetMode { path: PATH.to_string(), mode })
}

#[test]
fn state_file_lies_in_the_home_directory() {
    assert_eq!(state_file_path("/home/u"), PATH);
    assert_eq!(state_file_path("."), "./.dotsync.state.json");
}

#[test]
fn modes_deny_and_grant_write_access() {
    assert_eq!(READONLY_MODE, 0o444);
    assert_eq!(WRITABLE_MODE, 0o644);
    assert_eq!(READONLY_MODE & WRITE_BITS, 0);
    assert_eq!(WRITABLE_MODE & 0o200, 0o200);
}

#[test]
fn first_save_writes_and_locks() {
    let state = State::new(record()).unwrap();
    let (save, action) = Save::begin(&state, "/home/u");
    assert_eq!(action, Some(Action::MakeDirs { path: "/home/u".to_string() }));
    let (save, action) = save.step(&Event::Completed);
    assert_eq!(action, Some(Action::Probe { path: PATH.to_string() }));
    let (save, action) = save.step(&Event::Found { present: false });
    assert_eq!(action, Some(Action::WriteRecord { path: PATH.to_string(), record: record() }));
    let (save, action) = save.step(&Event::Completed);
    assert_eq!(action, set_mode(0o444));
    assert!(save.outcome().is_none());
    let (save, action) = save.step(&Event::Completed);
    assert_eq!(action, None);
    assert_eq!(save.outcome(), Some(Ok(())));
}

#[test]
fn later_save_unlocks_writes_and_locks() {
    let state = State::new(record()).unwrap();
    let (save, _) = Save::begin(&state, "/home/u");
    let (save, _) = save.step(&Event::Completed);
    let (save, action) = save.step(&Event::Found { present: true });
    assert_eq!(action, set_mode(0o644));
    let (save, action) = save.step(&Event::Completed);
    assert_eq!(action, Some(Action::WriteRecord { path: PATH.to_string(), record: record() }));
    let (save, action) = save.step(&Event::Completed);
    assert_eq!(action, set_mode(0o444));
    let (save, action) = save.step(&Event::Completed);
    assert_eq!(action, None);
    assert_eq!(save.outcome(), Some(Ok(())));
}

#[test]
fn failed_write_is_reported() {
    let state = State::new(record()).unwrap();
    let (save, _) = Save::begin(&state, "/home/u");
    let (save, _) = save.step(&Event::Completed);
    let (save, _) = save.step(&Event::Found { present: false });
    let (save, action) = save.step(&failed("disk full"));
    assert_eq!(action, None);
    let error = save.outcome().unwrap().unwrap_err();
    assert_eq!(error.kind, ErrorKind::Unwritable);
    assert_eq!(error.message, "failed to write state file: disk full");
}

#[test]
fn failed_unlock_and_lock_are_reported() {
    let state = State::new(record()).unwrap();
    let (save, _) = Save::begin(&state, "/home/u");
    let (save, _) = save.step(&Event::Completed);
    let (save, _) = save.step(&Event::Found { present: true });
    let (save, action) = save.step(&failed("not owner"));
    assert_eq!(action, None);
    assert_eq!(save.outcome().unwrap().unwrap_err().message, "failed to write state file: not owner");

    let (save, _) = Save::begin(&state, "/home/u");
    let (save, _) = save.step(&Event::Completed);
    let (save, _) = save.step(&Event::Found { present: false });
    let (save, _) = save.step(&Event::Completed);
    let (save, action) = save.step(&failed("chmod"));
    assert_eq!(action, None);
    assert_eq!(save.outcome().unwrap().unwrap_err().kind, ErrorKind::Unwritable);
}

#[test]
fn failed_parent_directory_ends_the_save() {
    let state = State::new(record()).unwrap();
    let (save, _) = Save::begin(&state, "/home/u");
    let (save, action) = save.step(&failed("denied"));
    assert_eq!(action, None);
    assert_eq!(save.outcome().unwrap().unwrap_err().message, "failed to write state file: denied");
}

#[test]
fn load_without_a_file_is_not_initialized() {
    let error = load(ReadOutcome::Missing).unwrap_err();
    assert_eq!(error.kind, ErrorKind::NotInitialized);
    assert_eq!(error.message, "failed to read state: there is no state file");
}

#[test]
fn load_of_an_unusable_file_is_corrupt() {
    let error = load(ReadOutcome::Unusable { detail: "expected value at line 1".to_string() }).unwrap_err();
    assert_eq!(error.kind, ErrorKind::Corrupt);
    assert_eq!(error.message, "failed to read state: expected value at line 1");
}

#[test]
fn load_of_a_record_gives_its_state() {
    let state = load(ReadOutcome::Parsed(record())).unwrap();
    assert_eq!(state.record(), record());
}

#[test]
fn load_of_a_record_with_duplicate_profiles_is_corrupt() {
    let mut r = record();
    r.profiles.push(Profile { name: "default".to_string(), files: Vec::new() });
    let error = load(ReadOutcome::Parsed(r)).unwrap_err();
    assert_eq!(error.kind, ErrorKind::Corrupt);
    assert_eq!(error.message, "failed to read state: two profiles share a name");
}

#[test]
fn saved_record_loads_as_the_same_state() {
    let state = State::new(record()).unwrap().set_active_profile("default");
    let (save, _) = Save::begin(&state, "/home/u");
    let (save, _) = save.step(&Event::Completed);
    let (_, action) = save.step(&Event::Found { present: false });
    let written = match action {
        Some(Action::WriteRecord { record, .. }) => record,
        other => panic!("unexpected action {:?}", other),
    };
    let loaded = load(ReadOutcome::Parsed(written)).unwrap();
    assert_eq!(loaded.record(), state.record());
}

#[test]
fn delete_removes_an_existing_record() {
    let (delete, action) = Delete::begin("/home/u");
    assert_eq!(action, Some(Action::Probe { path: PATH.to_string() }));
    let (delete, action) = delete.step(&Event::Found { present: true });
    assert_eq!(action, Some(Action::RemoveFile { path: PATH.to_string() }));
    let (delete, action) = delete.step(&Event::Completed);
    assert_eq!(action, None);
    assert_eq!(delete.outcome(), Some(Ok(())));
}

#[test]
fn delete_without_a_record_is_a_success() {
    let (delete, _) = Delete::begin("/home/u");
    let (delete, action) = delete.step(&Event::Found { present: false });
    assert_eq!(action, None);
    assert_eq!(delete.outcome(), Some(Ok(())));
}

#[test]
fn failed_delete_is_reported() {
    let (delete, _) = Delete::begin("/home/u");
    let (delete, _) = delete.step(&Event::Found { present: true });
    let (delete, action) = delete.step(&failed("denied"));
    assert_eq!(action, None);
    let error = delete.outcome().unwrap().unwrap_err();
    assert_eq!(error.kind, ErrorKind::Unwritable);
    assert_eq!(error.message, "failed to remove state file: denied");
}
