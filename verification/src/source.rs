//! Classification of the location a dotfiles tree is fetched from.

use vstd::prelude::*;
use crate::text::{contains, occurs, starts_with, to_chars};

verus! {

/// How a dotfiles source is retrieved.
#[derive(Clone, Copy, Debug, PartialEq, Eq, Structural)]
pub enum SourceType {
    /// A downloadable archive.
    Zip,
    /// A repository cloned over HTTPS.
    GitHttps,
    /// A repository cloned over SSH.
    GitSsh,
}

/// The location carries one of the markers of an archive download.
pub open spec fn has_archive_marker(url: Seq<char>) -> bool {
    ||| occurs(url, "/archive/"@)
    ||| occurs(url, "/zipball/"@)
    ||| occurs(url, "/releases/download/"@)
}

/// The location has a user before its host at the offset `at`: an `@` that
/// is not the first character and before which no `/` and no `:` stands.
pub open spec fn user_ends_at(url: Seq<char>, at: int) -> bool {
    &&& 0 < at < url.len()
    &&& url[at] == '@'
    &&& forall|j: int| 0 <= j < at ==> url[j] != '/' && url[j] != ':'
}

/// The location is written as `user@host`, as the remotes of SSH are.
pub open spec fn has_user_at_host(url: Seq<char>) -> bool {
    exists|at: int| user_ends_at(url, at)
}

/// The location is an SSH remote: it begins with the scheme of SSH, or is
/// written as `user@host`, of which `git@host` is one.
pub open spec fn has_ssh_marker(url: Seq<char>) -> bool {
    ||| "git@"@.is_prefix_of(url)
    ||| "ssh://"@.is_prefix_of(url)
    ||| has_user_at_host(url)
}

/// The source type of a location: archive markers are looked for first, SSH
/// markers second, and everything else is a repository reached over HTTPS.
pub open spec fn classify(url: Seq<char>) -> SourceType {
    if has_archive_marker(url) {
        SourceType::Zip
    } else if has_ssh_marker(url) {
        SourceType::GitSsh
    } else {
        SourceType::GitHttps
    }
}

impl SourceType {
    /// The name under which the source type is shown and stored.
    pub open spec fn label_text(self) -> Seq<char> {
        match self {
            SourceType::Zip => "zip"@,
            SourceType::GitHttps => "git-https"@,
            SourceType::GitSsh => "git-ssh"@,
        }
    }

    /// The name under which the source type is shown and stored.
    pub fn label(&self) -> (r: String)
        ensures
            r@ == self.label_text(),
    {
        match self {
            SourceType::Zip => "zip".to_owned(),
            SourceType::GitHttps => "git-https".to_owned(),
            SourceType::GitSsh => "git-ssh".to_owned(),
        }
    }
}

/// Whether a location is written as `user@host`.
pub fn is_user_at_host(url: &Vec<char>) -> (r: bool)
    ensures
        r == has_user_at_host(url@),
{
    let mut at: usize = 0;
    while at < url.len()
        invariant
            at <= url.len(),
            forall|j: int| 0 <= j < at ==> url@[j] != '/' && url@[j] != ':',
            forall|j: int| 0 < j < at ==> url@[j] != '@',
        decreases url.len() - at,
    {
        let c = url[at];
        if c == '/' || c == ':' {
            assert forall|k: int| !user_ends_at(url@, k) by {
                if user_ends_at(url@, k) {
                    assert(url@[at as int] != '/' && url@[at as int] != ':');
                }
            }
            return false;
        }
        if c == '@' && at > 0 {
            assert(user_ends_at(url@, at as int));
            return true;
        }
        at += 1;
    }
    assert forall|k: int| !user_ends_at(url@, k) by {}
    false
}

/// Classifies a source location by its text alone.
pub fn detect_source_type(url: &str) -> (kind: SourceType)
    ensures
        kind == classify(url@),
{
    let text = to_chars(url);
    if contains(&text, &to_chars("/archive/")) || contains(&text, &to_chars("/zipball/"))
        || contains(&text, &to_chars("/releases/download/")) {
        return SourceType::Zip;
    }
    if starts_with(&text, &to_chars("git@")) || starts_with(&text, &to_chars("ssh://"))
        || is_user_at_host(&text) {
        return SourceType::GitSsh;
    }
    SourceType::GitHttps
}

/// Every location has exactly one source type, and an archive marker decides
/// for the archive whether or not the location also begins as an SSH remote.
pub proof fn classification_is_total(url: Seq<char>)
    ensures
        classify(url) == SourceType::Zip <==> has_archive_marker(url),
        classify(url) == SourceType::GitSsh <==> !has_archive_marker(url) && has_ssh_marker(url),
        classify(url) == SourceType::GitHttps <==> !has_archive_marker(url) && !has_ssh_marker(
            url,
        ),
        has_archive_marker(url) && has_ssh_marker(url) ==> classify(url) == SourceType::Zip,
{
}

} // verus!
