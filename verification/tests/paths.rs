use dotsync::paths::{
    expand_home, home_or_current, join_path, source_of, target_of, temp_archive_path, tree_root,
    trim_leading_slashes, trim_trailing_slashes,
};

#[test]
fn tilde_is_replaced_by_home() {
    assert_eq!(expand_home("~/.bashrc", "/home/u"), "/home/u/.bashrc");
    assert_eq!(expand_home("~", "/home/u"), "/home/u");
    assert_eq!(expand_home("~x", "/home/u"), "/home/ux");
}

#[test]
fn path_without_tilde_is_kept() {
    assert_eq!(expand_home("/etc/hosts", "/home/u"), "/etc/hosts");
    assert_eq!(expand_home("a/~/b", "/home/u"), "a/~/b");
    assert_eq!(expand_home("", "/home/u"), "");
}

#[test]
fn home_defaults_to_current_directory() {
    assert_eq!(home_or_current(None), ".");
    assert_eq!(home_or_current(Some("/root".to_string())), "/root");
    assert_eq!(expand_home("~/.df", &home_or_current(None)), "./.df");
}

#[test]
fn trailing_slashes_are_trimmed() {
    assert_eq!(trim_trailing_slashes("~/.df///"), "~/.df");
    assert_eq!(trim_trailing_slashes("~/.df"), "~/.df");
    assert_eq!(trim_trailing_slashes("///"), "");
    assert_eq!(trim_trailing_slashes(""), "");
    assert_eq!(trim_trailing_slashes("a/b/"), "a/b");
}

#[test]
fn leading_slashes_are_trimmed() {
    assert_eq!(trim_leading_slashes("//.bashrc"), ".bashrc");
    assert_eq!(trim_leading_slashes(".bashrc/"), ".bashrc/");
    assert_eq!(trim_leading_slashes("/"), "");
}

#[test]
fn join_puts_one_separator() {
    assert_eq!(join_path("/home/u/.df", ".bashrc"), "/home/u/.df/.bashrc");
    assert_eq!(join_path("/home/u/.df/", ".bashrc"), "/home/u/.df/.bashrc");
    assert_eq!(join_path("", ".bashrc"), ".bashrc");
    assert_eq!(join_path("a", ""), "a/");
}

#[test]
fn join_with_absolute_path_replaces() {
    assert_eq!(join_path("/home/u/.df", "/etc/hosts"), "/etc/hosts");
}

#[test]
fn join_agrees_with_the_standard_library() {
    for (base, rel) in [("/a/b", "c"), ("/a/b/", "c/d"), ("", "c"), ("a", ""), ("a", "/c"), ("/", "c")] {
        let expected = std::path::Path::new(base).join(rel).to_string_lossy().into_owned();
        assert_eq!(join_path(base, rel), expected);
    }
}

#[test]
fn tree_root_is_trimmed_and_expanded() {
    assert_eq!(tree_root("~/.df/", "/home/u"), "/home/u/.df");
    assert_eq!(tree_root("/srv/dots//", "/home/u"), "/srv/dots");
}

#[test]
fn link_target_is_the_expanded_file() {
    assert_eq!(target_of("~/.bashrc", "/home/u"), "/home/u/.bashrc");
    assert_eq!(target_of(".vimrc", "/home/u"), ".vimrc");
}

#[test]
fn link_source_lies_under_the_tree() {
    assert_eq!(source_of("~/.bashrc", "/home/u/.df"), "/home/u/.df/.bashrc");
    assert_eq!(source_of("~/.config/nvim/init.vim", "/home/u/.df"), "/home/u/.df/.config/nvim/init.vim");
    assert_eq!(source_of(".vimrc", "/home/u/.df"), "/home/u/.df/.vimrc");
    assert_eq!(source_of("~", "/home/u/.df"), "/home/u/.df/");
}

#[test]
fn absolute_file_is_linked_into_the_tree_too() {
    assert_eq!(source_of("/etc/hosts", "/home/u/.df"), "/home/u/.df/etc/hosts");
    assert_eq!(source_of("//etc/hosts", "/home/u/.df/"), "/home/u/.df/etc/hosts");
    assert_eq!(target_of("/etc/hosts", "/home/u"), "/etc/hosts");
    assert_eq!(source_of("/", "/home/u/.df"), "/home/u/.df/");
}

#[test]
fn temp_archive_lies_beside_the_destination() {
    assert_eq!(temp_archive_path("/home/u/.df"), "/home/u/.df.zip.tmp");
    assert_eq!(temp_archive_path("/srv/dots"), "/srv/dots.zip.tmp");
    assert_eq!(temp_archive_path("/srv/dots.d"), "/srv/dots.zip.tmp");
}
