//! Paths as text: home expansion, and where a profile's file lives in the
//! home directory and in the fetched tree.

use vstd::prelude::*;
use vstd::string::*;
use crate::text::{chain, chain3, slice, to_chars};

verus! {

/// A path with a leading `~` replaced by the home directory.
pub open spec fn expanded(path: Seq<char>, home: Seq<char>) -> Seq<char> {
    if path.len() > 0 && path[0] == '~' {
        home + path.skip(1)
    } else {
        path
    }
}

/// The home directory to expand with: the one given, or the current directory
/// when none is known.
pub open spec fn home_or_here(home: Option<Seq<char>>) -> Seq<char> {
    match home {
        Some(h) => h,
        None => "."@,
    }
}

/// A text without the slashes it ends with.
pub open spec fn without_trailing_slashes(s: Seq<char>) -> Seq<char>
    decreases s.len(),
{
    if s.len() > 0 && s.last() == '/' {
        without_trailing_slashes(s.drop_last())
    } else {
        s
    }
}

/// A text without the slashes it begins with.
pub open spec fn without_leading_slashes(s: Seq<char>) -> Seq<char>
    decreases s.len(),
{
    if s.len() > 0 && s[0] == '/' {
        without_leading_slashes(s.skip(1))
    } else {
        s
    }
}

/// `rel` adjoined to `base`: an absolute `rel` stands for itself, and a
/// separator is put between the two unless `base` is empty or ends with one.
pub open spec fn joined(base: Seq<char>, rel: Seq<char>) -> Seq<char> {
    if rel.len() > 0 && rel[0] == '/' {
        rel
    } else if base.len() == 0 || base.last() == '/' {
        base + rel
    } else {
        base + seq!['/'] + rel
    }
}

/// The part of a profile's file that names its place below the home
/// directory: for a file written with a leading `~`, what follows it and its
/// separators; for any other file, the file as written.
pub open spec fn below_home(file: Seq<char>) -> Seq<char> {
    if file.len() > 0 && file[0] == '~' {
        without_leading_slashes(file.skip(1))
    } else {
        file
    }
}

/// The root of the fetched tree: the configured location without trailing
/// separators, home-expanded.
pub open spec fn source_root(location: Seq<char>, home: Seq<char>) -> Seq<char> {
    expanded(without_trailing_slashes(location), home)
}

/// Where the symlink for a profile's file is made.
pub open spec fn link_target(file: Seq<char>, home: Seq<char>) -> Seq<char> {
    expanded(file, home)
}

/// What the symlink for a profile's file points at: the same place below the
/// root of the fetched tree that the file has below the home directory. A
/// file written as an absolute path has its place below the root as well:
/// the separators it begins with do not count.
pub open spec fn link_source(file: Seq<char>, root: Seq<char>) -> Seq<char> {
    joined(root, without_leading_slashes(below_home(file)))
}

/// What `std::path::Path::with_extension` makes of a path and an extension,
/// both as text, on the platform that the library is built for.
pub uninterp spec fn with_extension(path: Seq<char>, extension: Seq<char>) -> Seq<char>;

/// The path with its extension replaced, by `std::path::Path::with_extension`.
/// The result is named, not spelled out: what the last component of a path
/// is, and what its extension, is for the standard library to say. The
/// extension holds no separator, on which the standard library panics.
#[verifier::external_body]
fn replace_extension(path: &str, extension: &str) -> (r: String)
    requires
        !extension@.contains('/'),
        !extension@.contains('\\'),
    ensures
        r@ == with_extension(path@, extension@),
{
    std::path::Path::new(path).with_extension(extension).to_string_lossy().into_owned()
}

/// What `std::path::Path::parent` makes of a path, as text, on the platform
/// that the library is built for: the path without its last component,
/// where it has one.
pub uninterp spec fn parent_of(path: Seq<char>) -> Option<Seq<char>>;

/// The directory that a path lies in, by `std::path::Path::parent`. The
/// result is named, not spelled out: what the components of a path are is
/// for the standard library to say. There is none for a path that ends in a
/// root and for the empty path.
#[verifier::external_body]
pub(crate) fn parent_dir(path: &str) -> (r: Option<String>)
    ensures
        match r {
            Some(parent) => parent_of(path@) == Some(parent@),
            None => parent_of(path@) is None,
        },
{
    match std::path::Path::new(path).parent() {
        Some(parent) => Some(parent.to_string_lossy().into_owned()),
        None => None,
    }
}

/// Where an archive is downloaded to before it is unpacked into
/// `destination`: beside the destination, under its name with the extension
/// `zip.tmp`.
pub open spec fn temp_archive(destination: Seq<char>) -> Seq<char> {
    with_extension(destination, "zip.tmp"@)
}

/// Where an archive is downloaded to before it is unpacked.
pub fn temp_archive_path(destination: &str) -> (r: String)
    ensures
        r@ == temp_archive(destination@),
{
    proof {
        reveal_strlit("zip.tmp");
        let e = "zip.tmp"@;
        assert forall|i: int| 0 <= i < e.len() implies e[i] != '/' && e[i] != '\\' by {}
    }
    replace_extension(destination, "zip.tmp")
}

/// The home directory to expand with.
pub fn home_or_current(home: Option<String>) -> (r: String)
    ensures
        r@ == home_or_here(
            match home {
                Some(h) => Some(h@),
                None => None,
            },
        ),
{
    match home {
        Some(h) => h,
        None => ".".to_owned(),
    }
}

/// Replaces a leading `~` by the home directory.
pub fn expand_home(path: &str, home: &str) -> (r: String)
    ensures
        r@ == expanded(path@, home@),
{
    let n = path.unicode_len();
    if n > 0 && path.get_char(0) == '~' {
        let rest = slice(path, 1, n);
        assert(path@.subrange(1, n as int) == path@.skip(1));
        chain(home, rest.as_str())
    } else {
        path.to_owned()
    }
}

/// Removes the slashes a text ends with.
pub fn trim_trailing_slashes(s: &str) -> (r: String)
    ensures
        r@ == without_trailing_slashes(s@),
        r@.len() == 0 || r@.last() != '/',
{
    let chars = to_chars(s);
    let mut n: usize = chars.len();
    assert(s@.take(n as int) == s@);
    while n > 0 && chars[n - 1] == '/'
        invariant
            chars@ == s@,
            n <= chars.len(),
            without_trailing_slashes(s@) == without_trailing_slashes(s@.take(n as int)),
        decreases n,
    {
        assert(s@.take(n as int).drop_last() == s@.take(n - 1));
        n -= 1;
    }
    assert(s@.subrange(0, n as int) == s@.take(n as int));
    slice(s, 0, n)
}

/// Removes the slashes a text begins with.
pub fn trim_leading_slashes(s: &str) -> (r: String)
    ensures
        r@ == without_leading_slashes(s@),
        r@.len() == 0 || r@[0] != '/',
{
    let chars = to_chars(s);
    let mut n: usize = 0;
    assert(s@.skip(0) == s@);
    while n < chars.len() && chars[n] == '/'
        invariant
            chars@ == s@,
            n <= chars.len(),
            without_leading_slashes(s@) == without_leading_slashes(s@.skip(n as int)),
        decreases chars.len() - n,
    {
        assert(s@.skip(n as int).skip(1) == s@.skip(n + 1));
        n += 1;
    }
    assert(s@.subrange(n as int, s@.len() as int) == s@.skip(n as int));
    slice(s, n, chars.len())
}

/// Adjoins `rel` to `base`.
pub fn join_path(base: &str, rel: &str) -> (r: String)
    ensures
        r@ == joined(base@, rel@),
{
    let b = to_chars(base);
    let r = to_chars(rel);
    if r.len() > 0 && r[0] == '/' {
        rel.to_owned()
    } else if b.len() == 0 || b[b.len() - 1] == '/' {
        chain(base, rel)
    } else {
        proof {
            reveal_strlit("/");
            assert("/"@ == seq!['/']);
        }
        chain3(base, "/", rel)
    }
}

/// The root of the fetched tree for a configured location.
pub fn tree_root(location: &str, home: &str) -> (r: String)
    ensures
        r@ == source_root(location@, home@),
{
    let trimmed = trim_trailing_slashes(location);
    expand_home(trimmed.as_str(), home)
}

/// Where the symlink for a profile's file is made.
pub fn target_of(file: &str, home: &str) -> (r: String)
    ensures
        r@ == link_target(file@, home@),
{
    expand_home(file, home)
}

/// What the symlink for a profile's file points at.
pub fn source_of(file: &str, root: &str) -> (r: String)
    ensures
        r@ == link_source(file@, root@),
{
    let n = file.unicode_len();
    let below = if n > 0 && file.get_char(0) == '~' {
        let rest = slice(file, 1, n);
        assert(file@.subrange(1, n as int) == file@.skip(1));
        trim_leading_slashes(rest.as_str())
    } else {
        file.to_owned()
    };
    let place = trim_leading_slashes(below.as_str());
    join_path(root, place.as_str())
}

/// A text without the slashes it begins with begins with none.
pub proof fn leading_slashes_are_gone(s: Seq<char>)
    ensures
        without_leading_slashes(s).len() == 0 || without_leading_slashes(s)[0] != '/',
    decreases s.len(),
{
    if s.len() > 0 && s[0] == '/' {
        leading_slashes_are_gone(s.skip(1));
    }
}

/// Every link points into the fetched tree: what a symlink points at begins
/// with the root of the tree, however the file is written, so that no file
/// is ever linked to itself by way of an absolute path.
pub proof fn link_source_lies_in_the_tree(file: Seq<char>, root: Seq<char>)
    ensures
        root.is_prefix_of(link_source(file, root)),
        link_source(file, root).len() >= root.len() + without_leading_slashes(
            below_home(file),
        ).len(),
{
    let place = without_leading_slashes(below_home(file));
    leading_slashes_are_gone(below_home(file));
    assert(link_source(file, root).subrange(0, root.len() as int) =~= root);
}

} // verus!
