use dotsync::clock::Stamps;
use dotsync::destroy::destroy;
use dotsync::effect::{Action, Event};
use dotsync::error::ErrorKind;
use dotsync::init::init;
use dotsync::lifecycle::{refresh, stage, Stage};
use dotsync::report::Line;
use dotsync::setup::setup;
use dotsync::source::SourceType;
use dotsync::state::{Config, History, Profile, Record, State};
use dotsync::status::{report, status};
use dotsync::store::{load, ReadOutcome};

const HOME: &str = "/home/u";
const STATE_FILE: &str = "/home/u/.dotsync.state.json";

fn at(second: u32) -> Stamps {
    let archive = format!("202401020304{:02}", second);
    let history = format!("2024-01-02--03-04-{:02}", second);
    Stamps::new(&archive, &history).unwrap()
}

fn exited(success: bool) -> Event {
    Event::Exited { success, stderr: String::new() }
}

fn failed(detail: &str) -> Event {
    Event::Failed { detail: detail.to_string() }
}

fn found(present: bool) -> Event {
    Event::Found { present }
}

fn said(text: &str) -> Line {
    Line { error: false, text: text.to_string() }
}

fn config() -> Config {
    Config {
        url: "https://example.com/repo/archive/main.zip".to_string(),
        branch: None,
        path: "~/.df".to_string(),
        backup_path: "~/.df-backup".to_string(),
        profiles: vec![Profile { name: "default".to_string(), files: vec!["~/.bashrc".to_string()] }],
    }
}

fn initial_record() -> Record {
    Record {
        url: "https://example.com/repo/archive/main.zip".to_string(),
        branch: None,
        path: "~/.df".to_string(),
        backup_path: "~/.df-backup".to_string(),
        profiles: vec![Profile { name: "default".to_string(), files: vec!["~/.bashrc".to_string()] }],
        active_profile: None,
        history: None,
        source_type: Some(SourceType::Zip),
    }
}

fn written(action: Option<Action>) -> Record {
    match action {
        Some(Action::WriteRecord { path, record }) => {
            assert_eq!(path, STATE_FILE);
            record
        }
        other => panic!("unexpected action {:?}", other),
    }
}

#[test]
fn init_fetches_then_writes_the_state() {
    let (machine, action) = init(config(), HOME).unwrap();
    assert_eq!(machine.state().source_type(), Some(SourceType::Zip));
    assert_eq!(action, Some(Action::MakeDirs { path: "/home/u".to_string() }));
    let (machine, action) = machine.step(&Event::Completed);
    assert_eq!(
        action,
        Some(Action::Run {
            program: "curl".to_string(),
            args: vec![
                "-L".to_string(),
                "-o".to_string(),
                "/home/u/.df.zip.tmp".to_string(),
                "https://example.com/repo/archive/main.zip".to_string()
            ],
        })
    );
    let (machine, _) = machine.step(&exited(true));
    let (machine, action) = machine.step(&exited(true));
    assert_eq!(action, Some(Action::RemoveFile { path: "/home/u/.df.zip.tmp".to_string() }));
    let (machine, action) = machine.step(&Event::Completed);
    assert_eq!(action, Some(Action::MakeDirs { path: "/home/u".to_string() }));
    let (machine, action) = machine.step(&Event::Completed);
    assert_eq!(action, Some(Action::Probe { path: STATE_FILE.to_string() }));
    let (machine, action) = machine.step(&found(false));
    let record = written(action);
    assert_eq!(record, initial_record());
    let (machine, action) = machine.step(&Event::Completed);
    assert_eq!(action, Some(Action::SetMode { path: STATE_FILE.to_string(), mode: 0o444 }));
    assert!(machine.outcome().is_none());
    let (machine, action) = machine.step(&Event::Completed);
    assert_eq!(action, None);
    assert_eq!(machine.outcome(), Some(Ok(())));
    let loaded = load(ReadOutcome::Parsed(record)).unwrap();
    assert_eq!(loaded.record(), initial_record());
}

#[test]
fn init_over_an_existing_record_overwrites_it() {
    let (machine, _) = init(config(), HOME).unwrap();
    let (machine, _) = machine.step(&Event::Completed);
    let (machine, _) = machine.step(&exited(true));
    let (machine, _) = machine.step(&exited(true));
    let (machine, _) = machine.step(&Event::Completed);
    let (machine, _) = machine.step(&Event::Completed);
    let (machine, action) = machine.step(&found(true));
    assert_eq!(action, Some(Action::SetMode { path: STATE_FILE.to_string(), mode: 0o644 }));
    let (_, action) = machine.step(&Event::Completed);
    assert_eq!(written(action), initial_record());
}

#[test]
fn init_records_the_source_type_of_a_repository() {
    let mut c = config();
    c.url = "git@github.com:u/dots.git".to_string();
    c.branch = Some("main".to_string());
    let (machine, action) = init(c, HOME).unwrap();
    assert_eq!(
        action,
        Some(Action::Run { program: "git".to_string(), args: vec!["--version".to_string()] })
    );
    assert_eq!(machine.state().source_type(), Some(SourceType::GitSsh));
    assert_eq!(machine.state().branch(), Some("main".to_string()));
    assert_eq!(machine.state().url(), "git@github.com:u/dots.git");
}

#[test]
fn failed_fetch_leaves_no_state() {
    let (machine, _) = init(config(), HOME).unwrap();
    let (machine, _) = machine.step(&Event::Completed);
    let (machine, action) = machine.step(&exited(false));
    assert_eq!(action, None);
    let error = machine.outcome().unwrap().unwrap_err();
    assert_eq!(error.kind, ErrorKind::Fetch);
    let (machine, action) = machine.step(&Event::Completed);
    assert_eq!(action, None);
    assert!(machine.outcome().unwrap().is_err());
}

#[test]
fn init_without_the_client_fails_with_tool_missing() {
    let mut c = config();
    c.url = "https://github.com/u/dots.git".to_string();
    let (machine, _) = init(c, HOME).unwrap();
    let (machine, action) = machine.step(&failed("not found"));
    assert_eq!(action, None);
    assert_eq!(machine.outcome().unwrap().unwrap_err().kind, ErrorKind::ToolMissing);
}

#[test]
fn init_refuses_duplicate_profiles() {
    let mut c = config();
    c.profiles.push(Profile { name: "default".to_string(), files: Vec::new() });
    let error = init(c, HOME).unwrap_err();
    assert_eq!(error.kind, ErrorKind::Config);
}

#[test]
fn failed_save_fails_the_init() {
    let (machine, _) = init(config(), HOME).unwrap();
    let (machine, _) = machine.step(&Event::Completed);
    let (machine, _) = machine.step(&exited(true));
    let (machine, _) = machine.step(&exited(true));
    let (machine, _) = machine.step(&Event::Completed);
    let (machine, action) = machine.step(&failed("denied"));
    assert_eq!(action, None);
    assert_eq!(machine.outcome().unwrap().unwrap_err().kind, ErrorKind::Unwritable);
}

#[test]
fn setup_backs_up_links_and_records() {
    let state = State::new(initial_record()).unwrap();
    let (machine, action) = setup(state, "default".to_string(), HOME, &at(5)).unwrap();
    assert_eq!(machine.files(), vec!["~/.bashrc".to_string()]);
    assert_eq!(machine.state().active_profile(), Some("default".to_string()));
    assert_eq!(action, Some(Action::MakeDirs { path: "/home/u/.df-backup".to_string() }));
    let (machine, action) = machine.step(&Event::Completed, &at(0));
    let archive = "/home/u/.df-backup/backup_20240102030405.zip";
    assert_eq!(action, Some(Action::CreateArchive { path: archive.to_string() }));
    let (machine, action) = machine.step(&Event::Completed, &at(0));
    assert_eq!(action, Some(Action::Probe { path: "/home/u/.bashrc".to_string() }));
    let (machine, action) = machine.step(&found(true), &at(0));
    assert_eq!(action, Some(Action::ReadFile { path: "/home/u/.bashrc".to_string() }));
    let (machine, action) = machine.step(&Event::Completed, &at(0));
    assert_eq!(action, Some(Action::StartEntry { entry: "~/.bashrc".to_string() }));
    let (machine, action) = machine.step(&Event::Completed, &at(0));
    assert_eq!(action, Some(Action::WriteEntry));
    let (machine, action) = machine.step(&Event::Completed, &at(0));
    assert_eq!(action, Some(Action::RemoveFile { path: "/home/u/.bashrc".to_string() }));
    let (machine, action) = machine.step(&Event::Completed, &at(0));
    assert_eq!(action, Some(Action::FinishArchive));
    let (machine, action) = machine.step(&Event::Completed, &at(0));
    assert_eq!(action, Some(Action::Probe { path: "/home/u".to_string() }));
    let (machine, action) = machine.step(&Event::Completed, &at(0));
    assert_eq!(
        action,
        Some(Action::Symlink {
            source: "/home/u/.df/.bashrc".to_string(),
            target: "/home/u/.bashrc".to_string()
        })
    );
    let (machine, action) = machine.step(&Event::Completed, &at(9));
    assert_eq!(action, Some(Action::MakeDirs { path: "/home/u".to_string() }));
    let (machine, action) = machine.step(&Event::Completed, &at(30));
    assert_eq!(action, Some(Action::Probe { path: STATE_FILE.to_string() }));
    let (machine, action) = machine.step(&found(true), &at(30));
    assert_eq!(action, Some(Action::SetMode { path: STATE_FILE.to_string(), mode: 0o644 }));
    let (machine, action) = machine.step(&Event::Completed, &at(30));
    let mut expected = initial_record();
    expected.active_profile = Some("default".to_string());
    expected.history = Some(vec![History {
        created_at: "2024-01-02--03-04-09".to_string(),
        backup: archive.to_string(),
        files: vec!["~/.bashrc".to_string()],
    }]);
    assert_eq!(written(action), expected);
    let (machine, action) = machine.step(&Event::Completed, &at(30));
    assert_eq!(action, Some(Action::SetMode { path: STATE_FILE.to_string(), mode: 0o444 }));
    let (machine, action) = machine.step(&Event::Completed, &at(30));
    assert_eq!(action, None);
    assert_eq!(machine.outcome(), Some(Ok(())));
    assert_eq!(machine.state().record(), expected);
}

#[test]
fn setup_of_a_missing_profile_works_on_default() {
    let state = State::new(initial_record()).unwrap();
    let (named, first) = setup(state, "missing-profile".to_string(), HOME, &at(1)).unwrap();
    let state = State::new(initial_record()).unwrap();
    let (default, first_of_default) = setup(state, "default".to_string(), HOME, &at(1)).unwrap();
    assert_eq!(first, first_of_default);
    assert_eq!(named.files(), default.files());
    assert_eq!(named.state().active_profile(), Some("default".to_string()));
    assert_eq!(named.state().record(), default.state().record());
    let (mut named, mut a) = named.step(&Event::Completed, &at(0));
    let (mut default, mut b) = default.step(&Event::Completed, &at(0));
    let mut written_by_named = None;
    let mut written_by_default = None;
    loop {
        assert_eq!(a, b);
        let event = match a {
            None => break,
            Some(Action::Probe { .. }) => found(true),
            Some(Action::WriteRecord { record, .. }) => {
                written_by_named = Some(record);
                Event::Completed
            }
            Some(_) => Event::Completed,
        };
        if let Some(Action::WriteRecord { record, .. }) = b {
            written_by_default = Some(record);
        }
        let (n, x) = named.step(&event, &at(0));
        let (d, y) = default.step(&event, &at(0));
        named = n;
        default = d;
        a = x;
        b = y;
    }
    assert_eq!(named.outcome(), Some(Ok(())));
    assert_eq!(default.outcome(), Some(Ok(())));
    let record = written_by_named.unwrap();
    assert_eq!(Some(record.clone()), written_by_default);
    assert_eq!(record.active_profile, Some("default".to_string()));

    // the links that were made are found again by status and destroy
    let state = load(ReadOutcome::Parsed(record)).unwrap();
    let (_, action) = report(Some(&state), HOME);
    assert_eq!(action, Some(Action::ProbeLink { path: "/home/u/.bashrc".to_string() }));
    let (_, action) = destroy(&state, HOME);
    assert_eq!(action, Some(Action::RemoveFile { path: "/home/u/.bashrc".to_string() }));
}

#[test]
fn setup_of_an_existing_profile_makes_it_active() {
    let mut r = initial_record();
    r.profiles.push(Profile { name: "work".to_string(), files: vec!["~/.vimrc".to_string()] });
    let state = State::new(r).unwrap();
    let (machine, _) = setup(state, "work".to_string(), HOME, &at(1)).unwrap();
    assert_eq!(machine.state().active_profile(), Some("work".to_string()));
    assert_eq!(machine.files(), vec!["~/.vimrc".to_string()]);
}

#[test]
fn setup_without_profile_and_default_fails() {
    let mut r = initial_record();
    r.profiles[0].name = "work".to_string();
    let state = State::new(r.clone()).unwrap();
    let error = setup(state, "home".to_string(), HOME, &at(1)).unwrap_err();
    assert_eq!(error.kind, ErrorKind::ProfileResolution);
    assert_eq!(error.message, "no 'default' profile found!");
}

#[test]
fn failed_backup_stops_the_setup_before_any_link() {
    let state = State::new(initial_record()).unwrap();
    let (machine, _) = setup(state, "default".to_string(), HOME, &at(1)).unwrap();
    let (machine, _) = machine.step(&Event::Completed, &at(0));
    let (machine, _) = machine.step(&Event::Completed, &at(0));
    let (machine, _) = machine.step(&found(true), &at(0));
    let (machine, action) = machine.step(&failed("disk full"), &at(0));
    assert_eq!(action, None);
    let error = machine.outcome().unwrap().unwrap_err();
    assert_eq!(error.kind, ErrorKind::Backup);
    assert_eq!(machine.state().record().history, None);
}

#[test]
fn failed_link_stops_the_setup_before_the_state_is_written() {
    let state = State::new(initial_record()).unwrap();
    let (machine, _) = setup(state, "default".to_string(), HOME, &at(1)).unwrap();
    let (machine, _) = machine.step(&Event::Completed, &at(0));
    let (machine, _) = machine.step(&Event::Completed, &at(0));
    let (machine, _) = machine.step(&found(false), &at(0));
    let (machine, action) = machine.step(&Event::Completed, &at(0));
    assert_eq!(action, Some(Action::Probe { path: "/home/u".to_string() }));
    let (machine, _) = machine.step(&Event::Completed, &at(0));
    let (machine, action) = machine.step(&failed("File exists"), &at(0));
    assert_eq!(action, None);
    let error = machine.outcome().unwrap().unwrap_err();
    assert_eq!(error.kind, ErrorKind::Link);
    assert_eq!(machine.state().record().history, None);
}

#[test]
fn setup_of_an_empty_profile_records_the_run() {
    let mut r = initial_record();
    r.profiles[0].files.clear();
    let state = State::new(r).unwrap();
    let (machine, _) = setup(state, "default".to_string(), HOME, &at(7)).unwrap();
    let (machine, _) = machine.step(&Event::Completed, &at(0));
    let (machine, action) = machine.step(&Event::Completed, &at(0));
    assert_eq!(action, Some(Action::FinishArchive));
    let (machine, action) = machine.step(&Event::Completed, &at(9));
    assert_eq!(action, Some(Action::MakeDirs { path: "/home/u".to_string() }));
    assert_eq!(
        machine.state().record().history,
        Some(vec![History {
            created_at: "2024-01-02--03-04-09".to_string(),
            backup: "/home/u/.df-backup/backup_20240102030407.zip".to_string(),
            files: Vec::new(),
        }])
    );
}

#[test]
fn second_setup_appends_to_the_history() {
    let mut r = initial_record();
    r.active_profile = Some("default".to_string());
    let first = History { created_at: "t1".to_string(), backup: "b1".to_string(), files: Vec::new() };
    r.history = Some(vec![first.clone()]);
    r.profiles[0].files.clear();
    let state = State::new(r).unwrap();
    let (machine, _) = setup(state, "default".to_string(), HOME, &at(2)).unwrap();
    let (machine, _) = machine.step(&Event::Completed, &at(0));
    let (machine, _) = machine.step(&Event::Completed, &at(0));
    let (machine, _) = machine.step(&Event::Completed, &at(2));
    let history = machine.state().record().history.unwrap();
    assert_eq!(history.len(), 2);
    assert_eq!(history[0], first);
    assert_eq!(history[1].created_at, "2024-01-02--03-04-02");
}

#[test]
fn status_without_active_profile_says_so() {
    let state = State::new(initial_record()).unwrap();
    let (machine, action) = report(Some(&state), HOME);
    assert_eq!(action, None);
    assert_eq!(
        machine.outcome(),
        Some(vec![said("no active profile set."), said("run 'dotsync setup --profile=<name>' first.")])
    );
}

#[test]
fn status_marks_each_file() {
    let mut r = initial_record();
    r.active_profile = Some("default".to_string());
    r.profiles[0].files.push("~/.vimrc".to_string());
    let state = State::new(r).unwrap();
    let (machine, action) = report(Some(&state), HOME);
    assert_eq!(action, Some(Action::ProbeLink { path: "/home/u/.bashrc".to_string() }));
    assert_eq!(machine.outcome(), None);
    let (machine, action) = machine.step(&found(true));
    assert_eq!(action, Some(Action::ProbeLink { path: "/home/u/.vimrc".to_string() }));
    let (machine, action) = machine.step(&found(false));
    assert_eq!(action, None);
    assert_eq!(
        machine.outcome(),
        Some(vec![
            said("active profile: default"),
            said(""),
            said("synced dotfiles (2):"),
            said("  + ~/.bashrc"),
            said("  - ~/.vimrc"),
        ])
    );
}

#[test]
fn status_of_default_without_such_a_profile_finds_no_files() {
    let mut r = initial_record();
    r.profiles[0].name = "work".to_string();
    r.active_profile = Some("default".to_string());
    let state = State::new(r).unwrap();
    let (machine, action) = report(Some(&state), HOME);
    assert_eq!(action, None);
    assert_eq!(
        machine.outcome(),
        Some(vec![
            said("active profile: default"),
            said(""),
            said("no files found for profile 'default'"),
        ])
    );
}

#[test]
fn record_with_an_unknown_active_profile_is_read_as_default() {
    let mut r = initial_record();
    r.active_profile = Some("missing-profile".to_string());
    let state = load(ReadOutcome::Parsed(r.clone())).unwrap();
    assert_eq!(state.active_profile(), Some("default".to_string()));
    let (_, action) = status(ReadOutcome::Parsed(r), HOME).unwrap();
    assert_eq!(action, Some(Action::ProbeLink { path: "/home/u/.bashrc".to_string() }));
    let (_, action) = destroy(&state, HOME);
    assert_eq!(action, Some(Action::RemoveFile { path: "/home/u/.bashrc".to_string() }));
}

#[test]
fn status_of_an_empty_profile_lists_nothing() {
    let mut r = initial_record();
    r.active_profile = Some("default".to_string());
    r.profiles[0].files.clear();
    let state = State::new(r).unwrap();
    let (machine, action) = report(Some(&state), HOME);
    assert_eq!(action, None);
    assert_eq!(
        machine.outcome(),
        Some(vec![said("active profile: default"), said(""), said("synced dotfiles (0):")])
    );
}

#[test]
fn destroy_removes_links_then_the_state() {
    let mut r = initial_record();
    r.active_profile = Some("default".to_string());
    r.profiles[0].files.push("~/.vimrc".to_string());
    let state = State::new(r).unwrap();
    let (machine, action) = destroy(&state, HOME);
    assert_eq!(action, Some(Action::RemoveFile { path: "/home/u/.bashrc".to_string() }));
    let (machine, action) = machine.step(&Event::Completed);
    assert_eq!(action, Some(Action::RemoveFile { path: "/home/u/.vimrc".to_string() }));
    let (machine, action) = machine.step(&failed("No such file or directory"));
    assert_eq!(action, Some(Action::Probe { path: STATE_FILE.to_string() }));
    assert!(machine.outcome().is_none());
    let (machine, action) = machine.step(&found(true));
    assert_eq!(action, Some(Action::RemoveFile { path: STATE_FILE.to_string() }));
    let (machine, action) = machine.step(&Event::Completed);
    assert_eq!(action, None);
    assert_eq!(machine.outcome(), Some(Ok(())));
    assert_eq!(
        machine.lines(),
        vec![
            said("active profile: default"),
            said("removed ~/.bashrc"),
            Line {
                error: true,
                text: "couldn't remove symlink for file ~/.vimrc: No such file or directory".to_string()
            },
        ]
    );
}

#[test]
fn destroy_without_active_profile_still_removes_the_state() {
    let state = State::new(initial_record()).unwrap();
    let (machine, action) = destroy(&state, HOME);
    assert_eq!(action, Some(Action::Probe { path: STATE_FILE.to_string() }));
    assert_eq!(machine.lines(), vec![said("no active profile set.")]);
    let (machine, action) = machine.step(&found(false));
    assert_eq!(action, None);
    assert_eq!(machine.outcome(), Some(Ok(())));
}

#[test]
fn destroy_of_an_unknown_active_profile_still_removes_the_state() {
    let mut r = initial_record();
    r.profiles[0].name = "work".to_string();
    r.active_profile = Some("default".to_string());
    let state = State::new(r).unwrap();
    let (machine, action) = destroy(&state, HOME);
    assert_eq!(action, Some(Action::Probe { path: STATE_FILE.to_string() }));
    assert_eq!(
        machine.lines(),
        vec![said("active profile: default"), said("no files found for profile 'default'")]
    );
}

#[test]
fn destroy_fails_only_when_the_state_cannot_be_removed() {
    let mut r = initial_record();
    r.active_profile = Some("default".to_string());
    let state = State::new(r).unwrap();
    let (machine, _) = destroy(&state, HOME);
    let (machine, _) = machine.step(&failed("x"));
    let (machine, _) = machine.step(&found(true));
    let (machine, action) = machine.step(&failed("denied"));
    assert_eq!(action, None);
    let error = machine.outcome().unwrap().unwrap_err();
    assert_eq!(error.kind, ErrorKind::Unwritable);
    assert_eq!(error.message, "failed to remove state file: denied");
}

#[test]
fn whole_lifecycle_of_one_profile() {
    // init
    let (machine, _) = init(config(), HOME).unwrap();
    let (machine, _) = machine.step(&Event::Completed);
    let (machine, _) = machine.step(&exited(true));
    let (machine, _) = machine.step(&exited(true));
    let (machine, _) = machine.step(&Event::Completed);
    let (machine, _) = machine.step(&Event::Completed);
    let (machine, action) = machine.step(&found(false));
    let on_disk = written(action);
    let (machine, _) = machine.step(&Event::Completed);
    let (machine, _) = machine.step(&Event::Completed);
    assert_eq!(machine.outcome(), Some(Ok(())));
    assert_eq!(on_disk.source_type, Some(SourceType::Zip));

    // setup --profile=default
    let state = load(ReadOutcome::Parsed(on_disk)).unwrap();
    let (mut machine, mut action) = setup(state, "default".to_string(), HOME, &at(5)).unwrap();
    let mut on_disk = None;
    let mut linked = Vec::new();
    while let Some(a) = action {
        let event = match a {
            Action::Probe { .. } => found(true),
            Action::WriteRecord { record, .. } => {
                on_disk = Some(record);
                Event::Completed
            }
            Action::Symlink { source, target } => {
                linked.push((source, target));
                Event::Completed
            }
            _ => Event::Completed,
        };
        let (m, a) = machine.step(&event, &at(6));
        machine = m;
        action = a;
    }
    assert_eq!(machine.outcome(), Some(Ok(())));
    assert_eq!(linked, vec![("/home/u/.df/.bashrc".to_string(), "/home/u/.bashrc".to_string())]);
    let on_disk = on_disk.unwrap();
    assert_eq!(on_disk.active_profile, Some("default".to_string()));
    assert_eq!(on_disk.history.as_ref().unwrap().len(), 1);

    // status
    let state = load(ReadOutcome::Parsed(on_disk)).unwrap();
    let (report, _) = report(Some(&state), HOME);
    let (report, _) = report.step(&found(true));
    assert_eq!(report.outcome().unwrap()[3], said("  + ~/.bashrc"));

    // destroy
    let (machine, action) = destroy(&state, HOME);
    assert_eq!(action, Some(Action::RemoveFile { path: "/home/u/.bashrc".to_string() }));
    let (machine, _) = machine.step(&Event::Completed);
    let (machine, _) = machine.step(&found(true));
    let (machine, _) = machine.step(&Event::Completed);
    assert_eq!(machine.outcome(), Some(Ok(())));

    // status afterwards
    assert_eq!(load(ReadOutcome::Missing).unwrap_err().kind, ErrorKind::NotInitialized);
    let (report, action) = status(ReadOutcome::Missing, HOME).unwrap();
    assert_eq!(action, None);
    assert_eq!(report.outcome().unwrap()[0], said("no active profile set."));
}

#[test]
fn status_before_init_reports_no_active_profile() {
    let (machine, action) = status(ReadOutcome::Missing, HOME).unwrap();
    assert_eq!(action, None);
    assert_eq!(
        machine.outcome(),
        Some(vec![said("no active profile set."), said("run 'dotsync setup --profile=<name>' first.")])
    );
    let (machine, action) = report(None, HOME);
    assert_eq!(action, None);
    assert_eq!(machine.outcome().unwrap().len(), 2);
}

#[test]
fn status_of_a_corrupt_record_fails() {
    let error = status(ReadOutcome::Unusable { detail: "EOF".to_string() }, HOME).unwrap_err();
    assert_eq!(error.kind, ErrorKind::Corrupt);
    assert_eq!(error.message, "failed to read state: EOF");
}

#[test]
fn status_of_a_read_record_reports_on_it() {
    let mut r = initial_record();
    r.active_profile = Some("default".to_string());
    let (machine, action) = status(ReadOutcome::Parsed(r), HOME).unwrap();
    assert_eq!(action, Some(Action::ProbeLink { path: "/home/u/.bashrc".to_string() }));
    let (machine, _) = machine.step(&found(false));
    assert_eq!(machine.outcome().unwrap()[3], said("  - ~/.bashrc"));
}

#[test]
fn stages_follow_the_state_record() {
    assert_eq!(stage(None), Stage::Uninitialized);
    let state = State::new(initial_record()).unwrap();
    assert_eq!(stage(Some(&state)), Stage::Initialized);
    let state = state.set_active_profile("work");
    assert_eq!(stage(Some(&state)), Stage::Active("default".to_string()));
}

#[test]
fn setup_makes_the_profile_active() {
    let state = State::new(initial_record()).unwrap();
    let (machine, _) = setup(state, "default".to_string(), HOME, &at(1)).unwrap();
    assert_eq!(stage(Some(machine.state())), Stage::Active("default".to_string()));
}

#[test]
fn refresh_asks_for_nothing() {
    assert_eq!(refresh(), None);
}
