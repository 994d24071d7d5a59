use colored::control::set_override;
use git_overview::emphasis::{Tag, TaggedText};

fn tagged(text: &str, tag: Tag) -> TaggedText {
    TaggedText::new(String::from(text), tag)
}

#[test]
fn without_colours_every_text_is_shown_as_it_is() {
    set_override(false);
    assert_eq!(tagged("main", Tag::Success).shown(), "main");
    assert_eq!(tagged("unknown", Tag::Dim).shown(), "unknown");
    assert_eq!(tagged("not implemented yet", Tag::Error).shown(), "not implemented yet");
    assert_eq!(tagged("On branch x", Tag::Note).shown(), "On branch x");
    assert_eq!(tagged("Untracked files", Tag::Warning).shown(), "Untracked files");
    assert_eq!(tagged("Changes", Tag::Alert).shown(), "Changes");
    assert_eq!(tagged("Clean", Tag::Neutral).shown(), "Clean");
}

#[test]
fn without_colours_a_text_with_a_reset_sequence_is_kept() {
    set_override(false);
    assert_eq!(tagged("a\u{1b}[0mb", Tag::Success).shown(), "a\u{1b}[0mb");
}

#[test]
fn new_keeps_text_and_tag() {
    let tagged = TaggedText::new(String::from("main"), Tag::Success);
    assert_eq!(tagged.text, "main");
    assert_eq!(tagged.tag, Tag::Success);
}
