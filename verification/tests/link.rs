use dotsync::clock::Stamps;
use dotsync::effect::{Action, Event};
use dotsync::error::ErrorKind;
use dotsync::link::Link;

fn at(second: u32) -> Stamps {
    let archive = format!("202401020304{:02}", second);
    let history = format!("2024-01-02--03-04-{:02}", second);
    Stamps::new(&archive, &history).unwrap()
}

fn strings(items: &[&str]) -> Vec<String> {
    items.iter().map(|s| s.to_string()).collect()
}

fn failed(detail: &str) -> Event {
    Event::Failed { detail: detail.to_string() }
}

fn found(present: bool) -> Event {
    Event::Found { present }
}

fn symlink(source: &str, target: &str) -> Option<Action> {
    Some(Action::Symlink { source: source.to_string(), target: target.to_string() })
}

fn probe(path: &str) -> Option<Action> {
    Some(Action::Probe { path: path.to_string() })
}

fn make_dirs(path: &str) -> Option<Action> {
    Some(Action::MakeDirs { path: path.to_string() })
}

#[test]
fn every_file_is_linked_in_order() {
    let files = strings(&["~/.bashrc", "~/.config/nvim/init.vim"]);
    let (link, action) = Link::begin(&files, "~/.df/", "/home/u", &at(0));
    assert_eq!(action, probe("/home/u"));
    let (link, action) = link.step(&found(true), &at(1));
    assert_eq!(action, symlink("/home/u/.df/.bashrc", "/home/u/.bashrc"));
    let (link, action) = link.step(&Event::Completed, &at(1));
    assert_eq!(link.made(), 1);
    assert_eq!(action, probe("/home/u/.config/nvim"));
    let (link, action) = link.step(&found(false), &at(1));
    assert_eq!(action, make_dirs("/home/u/.config/nvim"));
    let (link, action) = link.step(&Event::Completed, &at(1));
    assert_eq!(action, symlink("/home/u/.df/.config/nvim/init.vim", "/home/u/.config/nvim/init.vim"));
    assert!(link.outcome().is_none());
    let (link, action) = link.step(&Event::Completed, &at(2));
    assert_eq!(action, None);
    assert_eq!(link.outcome(), Some(Ok("2024-01-02--03-04-02".to_string())));
    assert_eq!(link.made(), 2);
}

#[test]
fn no_files_means_nothing_to_do() {
    let (link, action) = Link::begin(&Vec::new(), "~/.df", "/home/u", &at(0));
    assert_eq!(action, None);
    assert_eq!(link.outcome(), Some(Ok("2024-01-02--03-04-00".to_string())));
    assert_eq!(link.made(), 0);
}

#[test]
fn directory_that_is_there_is_not_made() {
    let (link, action) = Link::begin(&strings(&["~/.a"]), "/srv/dots", "/home/u", &at(0));
    assert_eq!(action, probe("/home/u"));
    let (_, action) = link.step(&found(true), &at(1));
    assert_eq!(action, symlink("/srv/dots/.a", "/home/u/.a"));
}

#[test]
fn failed_link_is_reported_and_earlier_links_stay() {
    let files = strings(&["~/.a", "~/.b", "~/.c"]);
    let (link, _) = Link::begin(&files, "/srv/dots", "/home/u", &at(0));
    let (link, _) = link.step(&found(true), &at(1));
    let (link, _) = link.step(&Event::Completed, &at(1));
    let (link, _) = link.step(&found(true), &at(1));
    let (link, action) = link.step(&failed("File exists"), &at(1));
    assert_eq!(action, None);
    assert_eq!(link.made(), 1);
    let error = link.outcome().unwrap().unwrap_err();
    assert_eq!(error.kind, ErrorKind::Link);
    assert_eq!(
        error.message,
        "failed to create symlink \"/srv/dots/.b\" -> \"/home/u/.b\": File exists"
    );
    let (link, action) = link.step(&Event::Completed, &at(1));
    assert_eq!(action, None);
    assert_eq!(link.made(), 1);
    assert!(link.outcome().unwrap().is_err());
}

#[test]
fn failed_parent_directory_is_reported() {
    let (link, _) = Link::begin(&strings(&["~/.config/x"]), "/srv/dots", "/home/u", &at(0));
    let (link, action) = link.step(&found(false), &at(1));
    assert_eq!(action, make_dirs("/home/u/.config"));
    let (link, action) = link.step(&failed("denied"), &at(1));
    assert_eq!(action, None);
    assert_eq!(link.made(), 0);
    assert_eq!(
        link.outcome().unwrap().unwrap_err().message,
        "failed to create directory \"/home/u/.config\": denied"
    );
}

#[test]
fn file_without_tilde_is_linked_where_it_is_written() {
    let (link, action) = Link::begin(&strings(&[".vimrc"]), "/srv/dots", "/home/u", &at(0));
    assert_eq!(action, probe(""));
    let (link, action) = link.step(&found(false), &at(1));
    assert_eq!(action, make_dirs(""));
    let (_, action) = link.step(&Event::Completed, &at(1));
    assert_eq!(action, symlink("/srv/dots/.vimrc", ".vimrc"));
}

#[test]
fn place_in_no_directory_is_linked_at_once() {
    let (_, action) = Link::begin(&strings(&["/"]), "/srv/dots", "/home/u", &at(0));
    assert_eq!(action, symlink("/srv/dots/", "/"));
}

#[test]
fn absolute_file_is_not_linked_to_itself() {
    let (link, action) = Link::begin(&strings(&["/etc/hosts"]), "/srv/dots", "/home/u", &at(0));
    assert_eq!(action, probe("/etc"));
    let (_, action) = link.step(&found(true), &at(1));
    assert_eq!(action, symlink("/srv/dots/etc/hosts", "/etc/hosts"));
}
