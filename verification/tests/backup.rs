use dotsync::backup::Backup;
use dotsync::clock::Stamps;
use dotsync::effect::{Action, Event};
use dotsync::error::ErrorKind;

fn at(second: u32) -> Stamps {
    let archive = format!("202401020304{:02}", second);
    let history = format!("2024-01-02--03-04-{:02}", second);
    Stamps::new(&archive, &history).unwrap()
}

fn strings(items: &[&str]) -> Vec<String> {
    items.iter().map(|s| s.to_string()).collect()
}

fn failed(detail: &str) -> Event {
    Event::Failed { detail: detail.to_string() }
}

fn found(present: bool) -> Event {
    Event::Found { present }
}

const ARCHIVE: &str = "/home/u/.df-backup/backup_20240102030405.zip";

fn begun(files: &[&str]) -> Backup {
    let (backup, action) = Backup::begin(&strings(files), "~/.df-backup", "/home/u", &at(5));
    assert_eq!(action, Some(Action::MakeDirs { path: "/home/u/.df-backup".to_string() }));
    let (backup, action) = backup.step(&Event::Completed);
    assert_eq!(action, Some(Action::CreateArchive { path: ARCHIVE.to_string() }));
    backup
}

#[test]
fn existing_file_is_stored_then_removed() {
    let backup = begun(&["~/.bashrc"]);
    let (backup, action) = backup.step(&Event::Completed);
    assert_eq!(action, Some(Action::Probe { path: "/home/u/.bashrc".to_string() }));
    let (backup, action) = backup.step(&found(true));
    assert_eq!(action, Some(Action::ReadFile { path: "/home/u/.bashrc".to_string() }));
    let (backup, action) = backup.step(&Event::Completed);
    assert_eq!(action, Some(Action::StartEntry { entry: "~/.bashrc".to_string() }));
    let (backup, action) = backup.step(&Event::Completed);
    assert_eq!(action, Some(Action::WriteEntry));
    let (backup, action) = backup.step(&Event::Completed);
    assert_eq!(action, Some(Action::RemoveFile { path: "/home/u/.bashrc".to_string() }));
    let (backup, action) = backup.step(&Event::Completed);
    assert_eq!(action, Some(Action::FinishArchive));
    assert!(backup.outcome().is_none());
    let (backup, action) = backup.step(&Event::Completed);
    assert_eq!(action, None);
    assert_eq!(backup.outcome(), Some(Ok(ARCHIVE.to_string())));
    assert_eq!(backup.taken(), vec![true]);
}

#[test]
fn missing_file_is_skipped_without_error() {
    let backup = begun(&["~/.bashrc", "~/.vimrc", "~/.zshrc"]);
    let (backup, action) = backup.step(&Event::Completed);
    assert_eq!(action, Some(Action::Probe { path: "/home/u/.bashrc".to_string() }));
    let (backup, _) = backup.step(&found(true));
    let (backup, _) = backup.step(&Event::Completed);
    let (backup, _) = backup.step(&Event::Completed);
    let (backup, _) = backup.step(&Event::Completed);
    let (backup, action) = backup.step(&Event::Completed);
    assert_eq!(action, Some(Action::Probe { path: "/home/u/.vimrc".to_string() }));
    let (backup, action) = backup.step(&found(false));
    assert_eq!(action, Some(Action::Probe { path: "/home/u/.zshrc".to_string() }));
    assert!(backup.outcome().is_none());
    let (backup, action) = backup.step(&found(true));
    assert_eq!(action, Some(Action::ReadFile { path: "/home/u/.zshrc".to_string() }));
    let (backup, action) = backup.step(&Event::Completed);
    assert_eq!(action, Some(Action::StartEntry { entry: "~/.zshrc".to_string() }));
    let (backup, _) = backup.step(&Event::Completed);
    let (backup, _) = backup.step(&Event::Completed);
    let (backup, action) = backup.step(&Event::Completed);
    assert_eq!(action, Some(Action::FinishArchive));
    let (backup, _) = backup.step(&Event::Completed);
    assert_eq!(backup.outcome(), Some(Ok(ARCHIVE.to_string())));
    assert_eq!(backup.taken(), vec![true, false, true]);
}

#[test]
fn backup_of_nothing_makes_an_empty_archive() {
    let backup = begun(&[]);
    let (backup, action) = backup.step(&Event::Completed);
    assert_eq!(action, Some(Action::FinishArchive));
    let (backup, action) = backup.step(&Event::Completed);
    assert_eq!(action, None);
    assert_eq!(backup.outcome(), Some(Ok(ARCHIVE.to_string())));
    assert_eq!(backup.taken(), Vec::<bool>::new());
}

#[test]
fn only_missing_files_still_succeed() {
    let backup = begun(&["a", "b"]);
    let (backup, _) = backup.step(&Event::Completed);
    let (backup, action) = backup.step(&found(false));
    assert_eq!(action, Some(Action::Probe { path: "b".to_string() }));
    let (backup, action) = backup.step(&found(false));
    assert_eq!(action, Some(Action::FinishArchive));
    let (backup, _) = backup.step(&Event::Completed);
    assert_eq!(backup.outcome(), Some(Ok(ARCHIVE.to_string())));
    assert_eq!(backup.taken(), vec![false, false]);
}

#[test]
fn file_that_cannot_be_read_is_not_removed() {
    let backup = begun(&["~/.bashrc", "~/.vimrc"]);
    let (backup, _) = backup.step(&Event::Completed);
    let (backup, _) = backup.step(&found(true));
    let (backup, action) = backup.step(&failed("permission denied"));
    assert_eq!(action, None);
    let error = backup.outcome().unwrap().unwrap_err();
    assert_eq!(error.kind, ErrorKind::Backup);
    assert_eq!(error.message, "failed to read file \"/home/u/.bashrc\": permission denied");
    let (backup, action) = backup.step(&Event::Completed);
    assert_eq!(action, None);
    assert!(backup.outcome().unwrap().is_err());
}

#[test]
fn file_whose_entry_cannot_be_begun_is_not_removed() {
    let backup = begun(&["~/.bashrc"]);
    let (backup, _) = backup.step(&Event::Completed);
    let (backup, _) = backup.step(&found(true));
    let (backup, _) = backup.step(&Event::Completed);
    let (backup, action) = backup.step(&failed("duplicate entry"));
    assert_eq!(action, None);
    assert_eq!(
        backup.outcome().unwrap().unwrap_err().message,
        "failed to add file to zip: duplicate entry"
    );
}

#[test]
fn file_that_cannot_be_written_is_not_removed() {
    let backup = begun(&["~/.bashrc"]);
    let (backup, _) = backup.step(&Event::Completed);
    let (backup, _) = backup.step(&found(true));
    let (backup, _) = backup.step(&Event::Completed);
    let (backup, _) = backup.step(&Event::Completed);
    let (backup, action) = backup.step(&failed("disk full"));
    assert_eq!(action, None);
    assert_eq!(backup.outcome().unwrap().unwrap_err().message, "failed to write to zip: disk full");
}

#[test]
fn failed_backup_directory_is_reported() {
    let (backup, _) = Backup::begin(&strings(&["a"]), "/bk", "/home/u", &at(5));
    let (backup, action) = backup.step(&failed("denied"));
    assert_eq!(action, None);
    assert_eq!(
        backup.outcome().unwrap().unwrap_err().message,
        "failed to create backup directory \"/bk\": denied"
    );
}

#[test]
fn failed_archive_creation_is_reported() {
    let (backup, _) = Backup::begin(&strings(&["a"]), "/bk", "/home/u", &at(5));
    let (backup, _) = backup.step(&Event::Completed);
    let (backup, action) = backup.step(&failed("exists"));
    assert_eq!(action, None);
    assert_eq!(
        backup.outcome().unwrap().unwrap_err().message,
        "failed to create zip file \"/bk/backup_20240102030405.zip\": exists"
    );
}

#[test]
fn failed_removal_is_reported() {
    let backup = begun(&["~/.bashrc"]);
    let (backup, _) = backup.step(&Event::Completed);
    let (backup, _) = backup.step(&found(true));
    let (backup, _) = backup.step(&Event::Completed);
    let (backup, _) = backup.step(&Event::Completed);
    let (backup, _) = backup.step(&Event::Completed);
    let (backup, action) = backup.step(&failed("busy"));
    assert_eq!(action, None);
    assert_eq!(
        backup.outcome().unwrap().unwrap_err().message,
        "failed to remove file from \"~/.bashrc\": busy"
    );
}

#[test]
fn failed_finish_is_reported() {
    let backup = begun(&[]);
    let (backup, _) = backup.step(&Event::Completed);
    let (backup, action) = backup.step(&failed("io"));
    assert_eq!(action, None);
    assert_eq!(backup.outcome().unwrap().unwrap_err().message, "failed to finalize zip: io");
}
