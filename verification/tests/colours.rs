use colored::control::set_override;
use git_overview::emphasis::{Tag, TaggedText};
use git_overview::parser::summary;
use git_overview::info::repository_branch;
use git_overview::mapper::RepositoriesMapper;
use git_overview::repository::{Head, Repository};

fn tagged(text: &str, tag: Tag) -> TaggedText {
    TaggedText::new(String::from(text), tag)
}

#[test]
fn success_is_shown_green() {
    set_override(true);
    assert_eq!(tagged("main", Tag::Success).shown(), "\u{1b}[32mmain\u{1b}[0m");
}

#[test]
fn dim_is_shown_dimmed() {
    set_override(true);
    assert_eq!(tagged("unknown", Tag::Dim).shown(), "\u{1b}[2munknown\u{1b}[0m");
}

#[test]
fn error_is_shown_red() {
    set_override(true);
    assert_eq!(
        tagged("not implemented yet", Tag::Error).shown(),
        "\u{1b}[31mnot implemented yet\u{1b}[0m"
    );
}

#[test]
fn note_is_shown_blue() {
    set_override(true);
    assert_eq!(tagged("On branch x", Tag::Note).shown(), "\u{1b}[34mOn branch x\u{1b}[0m");
}

#[test]
fn warning_is_shown_yellow() {
    set_override(true);
    assert_eq!(
        tagged("Untracked files", Tag::Warning).shown(),
        "\u{1b}[33mUntracked files\u{1b}[0m"
    );
}

#[test]
fn alert_is_shown_bright_red() {
    set_override(true);
    assert_eq!(tagged("Changes", Tag::Alert).shown(), "\u{1b}[91mChanges\u{1b}[0m");
}

#[test]
fn neutral_is_never_styled() {
    set_override(true);
    assert_eq!(tagged("Clean", Tag::Neutral).shown(), "Clean");
    assert_eq!(tagged("", Tag::Neutral).shown(), "");
}

#[test]
fn empty_text_is_styled_too() {
    set_override(true);
    assert_eq!(tagged("", Tag::Success).shown(), "\u{1b}[32m\u{1b}[0m");
}

#[test]
fn line_holds_the_styled_information() {
    set_override(true);
    let repository = Repository::new(
        Some(String::from("/tmp/work/proj1/")),
        Head::Resolved(Some(String::from("main"))),
    );
    let mapper = RepositoriesMapper::new(false, 9, 7);
    assert_eq!(
        mapper.map(&vec![Some(repository)], repository_branch),
        vec![String::from("proj1  : \u{1b}[32mmain\u{1b}[0m")]
    );
}

#[test]
fn summary_styles_each_message() {
    set_override(true);
    let parts = vec![tagged("Untracked files", Tag::Warning), tagged("Changes", Tag::Alert)];
    assert_eq!(
        summary(&parts),
        tagged(
            "\u{1b}[33mUntracked files\u{1b}[0m, \u{1b}[91mChanges\u{1b}[0m",
            Tag::Neutral
        )
    );
}
