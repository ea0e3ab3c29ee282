use dotsync::effect::{Action, Event};
use dotsync::error::{Error, ErrorKind};
use dotsync::report::{copy_lines, say, warn, Line};

#[test]
fn events_say_yes_or_no() {
    assert!(Event::Completed.affirms());
    assert!(!Event::Failed { detail: "x".to_string() }.affirms());
    assert!(Event::Found { present: true }.affirms());
    assert!(!Event::Found { present: false }.affirms());
    assert!(Event::Exited { success: true, stderr: "warning".to_string() }.affirms());
    assert!(!Event::Exited { success: false, stderr: String::new() }.affirms());
}

#[test]
fn events_carry_their_detail() {
    assert_eq!(Event::Completed.detail(), "");
    assert_eq!(Event::Found { present: false }.detail(), "");
    assert_eq!(Event::Failed { detail: "denied".to_string() }.detail(), "denied");
    assert_eq!(Event::Exited { success: false, stderr: "fatal".to_string() }.detail(), "fatal");
}

#[test]
fn actions_and_errors_are_copied() {
    let action = Action::Run { program: "git".to_string(), args: vec!["clone".to_string()] };
    assert_eq!(action.duplicate(), action);
    let action = Action::Symlink { source: "a".to_string(), target: "b".to_string() };
    assert_eq!(action.duplicate(), action);
    assert_eq!(Action::FinishArchive.duplicate(), Action::FinishArchive);
    let error = Error { kind: ErrorKind::Link, message: "m".to_string() };
    assert_eq!(error.duplicate(), error);
}

#[test]
fn lines_are_ordinary_or_errors() {
    assert_eq!(say("a".to_string()), Line { error: false, text: "a".to_string() });
    assert_eq!(warn("b".to_string()), Line { error: true, text: "b".to_string() });
    let lines = vec![say("a".to_string()), warn("b".to_string())];
    assert_eq!(copy_lines(&lines), lines);
}
