//! Relativization of paths to the scan root, which pattern matching
//! operates on.

use gitscribe::paths::relative_to;

#[test]
fn strips_the_root_and_its_separator() {
    assert_eq!(relative_to("/r/a.md", "/r"), Some("a.md"));
    assert_eq!(relative_to("/r/sub/dir/a.md", "/r"), Some("sub/dir/a.md"));
}

#[test]
fn a_root_with_a_trailing_separator_works_too() {
    assert_eq!(relative_to("/r/a.md", "/r/"), Some("a.md"));
}

#[test]
fn the_root_itself_is_the_empty_relative_path() {
    assert_eq!(relative_to("/r", "/r"), Some(""));
}

#[test]
fn an_empty_root_leaves_the_path_whole() {
    assert_eq!(relative_to("a.md", ""), Some("a.md"));
}

#[test]
fn paths_not_under_the_root_do_not_relativize() {
    assert_eq!(relative_to("/rascal/a.md", "/r"), None);
    assert_eq!(relative_to("/elsewhere/a.md", "/r"), None);
    assert_eq!(relative_to("/r", "/r/deeper"), None);
}
