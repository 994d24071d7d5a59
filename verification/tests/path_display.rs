use git_overview::path_display::{cut, cut_path, render};

#[test]
fn relative_name_drops_base_and_separator() {
    assert_eq!(cut_path(false, 9)("/tmp/work/proj1/"), "proj1");
}

#[test]
fn absolute_name_keeps_the_path() {
    assert_eq!(cut_path(true, 9)("/tmp/work/proj1/"), "/tmp/work/proj1");
}

#[test]
fn absolute_name_ignores_the_base_length() {
    assert_eq!(cut_path(true, 0)("/tmp/work/proj1"), "/tmp/work/proj1");
    assert_eq!(cut_path(true, usize::MAX)("/tmp/work/proj1"), "/tmp/work/proj1");
}

#[test]
fn nested_repository_keeps_inner_separators() {
    assert_eq!(cut_path(false, 9)("/tmp/work/vendor/lib/"), "vendor/lib");
}

#[test]
fn all_trailing_separators_are_trimmed() {
    assert_eq!(cut_path(true, 0)("a///"), "a");
    assert_eq!(cut_path(false, 1)("/a/b//"), "/b");
    assert_eq!(cut_path(true, 0)("///"), "");
}

#[test]
fn path_shorter_than_base_is_empty() {
    assert_eq!(cut_path(false, 9)("/tmp"), "");
    assert_eq!(cut_path(false, 9)(""), "");
}

#[test]
fn path_equal_to_base_is_empty() {
    assert_eq!(cut_path(false, 9)("/tmp/work"), "");
    assert_eq!(cut_path(false, 9)("/tmp/work/"), "");
}

#[test]
fn largest_base_length_gives_the_empty_name() {
    assert_eq!(cut_path(false, usize::MAX)("/tmp/work/proj1/"), "");
}

#[test]
fn cut_agrees_with_cut_path() {
    assert_eq!(cut("/tmp/work/proj1/", false, 9), cut_path(false, 9)("/tmp/work/proj1/"));
    assert_eq!(cut("/tmp/work/proj1/", true, 9), cut_path(true, 9)("/tmp/work/proj1/"));
}

#[test]
fn render_round_trip_beneath_base() {
    let base = "/tmp/work";
    let path = "/tmp/work/proj1";
    assert_eq!(render(path, base, true), path);
    assert_eq!(render(path, base, false), "proj1");
}

#[test]
fn render_counts_characters_not_bytes() {
    let base = "/tmp/w\u{f6}rk";
    assert_eq!(base.len(), 10);
    assert_eq!(render("/tmp/w\u{f6}rk/proj/", base, false), "proj");
    assert_eq!(render("/tmp/w\u{f6}rk/\u{e9}t\u{e9}/", base, false), "\u{e9}t\u{e9}");
    assert_eq!(cut_path(false, 9)("/tmp/w\u{f6}rk/proj/"), "proj");
}

#[test]
fn render_of_base_itself_is_empty() {
    assert_eq!(render("/tmp/work", "/tmp/work", false), "");
    assert_eq!(render("/tmp", "/tmp/work", false), "");
    assert_eq!(render("/tmp/work/", "/tmp/work", true), "/tmp/work");
}
