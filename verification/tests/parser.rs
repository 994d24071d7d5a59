use colored::control::set_override;
use git_overview::emphasis::{Tag, TaggedText};
use git_overview::parser::{classify, messages, status, summary, WorkingTree};
use git_overview::repository::{Head, Repository};

fn tree() -> WorkingTree {
    WorkingTree { on_trunk: true, untracked: false, unstaged: false, staged: false, ahead: false }
}

fn repository(head: Head) -> Repository {
    Repository::new(Some(String::from("/tmp/work/proj1/")), head)
}

fn tagged(text: &str, tag: Tag) -> TaggedText {
    TaggedText::new(String::from(text), tag)
}

#[test]
fn clean_tree_on_a_trunk() {
    assert_eq!(messages(&tree(), "master"), vec![tagged("Clean", Tag::Success)]);
}

#[test]
fn clean_tree_on_another_branch() {
    let state = WorkingTree { on_trunk: false, ..tree() };
    assert_eq!(
        messages(&state, "feature"),
        vec![tagged("On branch feature", Tag::Note), tagged("Clean", Tag::Success)]
    );
}

#[test]
fn all_kinds_of_work_in_canonical_order() {
    let state = WorkingTree {
        on_trunk: false,
        untracked: true,
        unstaged: true,
        staged: true,
        ahead: true,
    };
    assert_eq!(
        messages(&state, "topic"),
        vec![
            tagged("On branch topic", Tag::Note),
            tagged("Untracked files", Tag::Warning),
            tagged("Changes", Tag::Alert),
            tagged("Unpushed commits", Tag::Error),
        ]
    );
}

#[test]
fn each_kind_of_work_alone() {
    let untracked = WorkingTree { untracked: true, ..tree() };
    assert_eq!(messages(&untracked, ""), vec![tagged("Untracked files", Tag::Warning)]);
    let unstaged = WorkingTree { unstaged: true, ..tree() };
    assert_eq!(messages(&unstaged, ""), vec![tagged("Changes", Tag::Alert)]);
    let staged = WorkingTree { staged: true, ..tree() };
    assert_eq!(messages(&staged, ""), vec![tagged("Changes", Tag::Alert)]);
    let ahead = WorkingTree { ahead: true, ..tree() };
    assert_eq!(messages(&ahead, ""), vec![tagged("Unpushed commits", Tag::Error)]);
}

#[test]
fn classify_reads_the_markers_of_a_status() {
    let text = "On branch master\nYour branch is ahead of 'origin/master' by 1 commit.\n\n\
                Changes not staged for commit:\n\tmodified:   a.txt\n";
    assert_eq!(
        classify(text),
        WorkingTree { on_trunk: true, untracked: false, unstaged: true, staged: false, ahead: true }
    );
}

#[test]
fn classify_of_a_text_without_markers() {
    assert_eq!(
        classify(""),
        WorkingTree {
            on_trunk: false,
            untracked: false,
            unstaged: false,
            staged: false,
            ahead: false,
        }
    );
}

#[test]
fn classify_knows_both_trunks() {
    assert!(classify("On branch master\nnothing to commit").on_trunk);
    assert!(classify("On branch develop\nnothing to commit").on_trunk);
    assert!(!classify("On branch main\nnothing to commit").on_trunk);
}

#[test]
fn classify_finds_untracked_and_staged() {
    let text = "On branch develop\nnothing added to commit but untracked files present\n";
    assert!(classify(text).untracked);
    assert!(!classify(text).staged);
    let text = "On branch develop\nChanges to be committed:\n\tnew file:   b.txt\n";
    assert!(classify(text).staged);
    assert!(!classify(text).unstaged);
}

#[test]
fn summary_joins_the_messages() {
    set_override(false);
    let parts = vec![tagged("Untracked files", Tag::Warning), tagged("Changes", Tag::Alert)];
    assert_eq!(summary(&parts), tagged("Untracked files, Changes", Tag::Neutral));
    assert_eq!(summary(&Vec::new()), tagged("", Tag::Neutral));
    assert_eq!(summary(&vec![tagged("Clean", Tag::Success)]), tagged("Clean", Tag::Neutral));
}

#[test]
fn status_of_a_clean_trunk() {
    set_override(false);
    let head = Head::Resolved(Some(String::from("master")));
    let text = String::from("On branch master\nnothing to commit, working tree clean\n");
    assert_eq!(status(&repository(head), text), tagged("Clean", Tag::Neutral));
}

#[test]
fn status_names_the_branch_that_is_no_trunk() {
    set_override(false);
    let head = Head::Resolved(Some(String::from("feature")));
    let text = String::from(
        "On branch feature\nYour branch is ahead of 'origin/feature' by 2 commits.\n\n\
         Changes not staged for commit:\n\tmodified:   a.txt\n",
    );
    assert_eq!(
        status(&repository(head), text),
        tagged("On branch feature, Changes, Unpushed commits", Tag::Neutral)
    );
}

#[test]
fn status_without_a_branch_uses_the_empty_name() {
    set_override(false);
    let text = String::from("HEAD detached at 1234567\nnothing to commit\n");
    assert_eq!(
        status(&repository(Head::Unreadable), text),
        tagged("On branch , Clean", Tag::Neutral)
    );
}

#[test]
fn status_with_untracked_files_only() {
    set_override(false);
    let head = Head::Resolved(Some(String::from("develop")));
    let text = String::from(
        "On branch develop\nUntracked files:\n\tx\n\n\
         nothing added to commit but untracked files present (use \"git add\" to track)\n",
    );
    assert_eq!(status(&repository(head), text), tagged("Untracked files", Tag::Neutral));
}
