//! The summary of a working tree's state: which kinds of pending work it
//! holds, in a fixed order, or that it is clean.

use crate::emphasis::{shows, Tag, TaggedText};
use crate::repository::{current_branch, Repository, RepositoryView};
use crate::text::{characters, join, joined, occurs, occurs_in, texts};
use vstd::prelude::*;
use vstd::string::*;

verus! {

/// The state of a working tree, as far as the summary tells it.
#[derive(Clone, Copy, Debug, PartialEq, Eq, Structural)]
pub struct WorkingTree {
    /// The current branch is one of the two trunks, `master` and `develop`.
    pub on_trunk: bool,
    /// There are files that are not tracked.
    pub untracked: bool,
    /// There are changes that are not staged.
    pub unstaged: bool,
    /// There are staged changes that are not committed.
    pub staged: bool,
    /// The local branch is ahead of its upstream.
    pub ahead: bool,
}

impl WorkingTree {
    /// Whether the tree holds work of any kind.
    pub open spec fn has_work(&self) -> bool {
        self.untracked || self.unstaged || self.staged || self.ahead
    }
}

/// The state that the text of a status describes.
pub open spec fn described_tree(text: Seq<char>) -> WorkingTree {
    WorkingTree {
        on_trunk: occurs_in("On branch master"@, text) || occurs_in("On branch develop"@, text),
        untracked: occurs_in("nothing added to commit but untracked files present"@, text),
        unstaged: occurs_in("Changes not staged for commit"@, text),
        staged: occurs_in("Changes to be committed"@, text),
        ahead: occurs_in("Your branch is ahead of"@, text),
    }
}

/// One message, where `present` holds.
pub open spec fn message_if(present: bool, text: Seq<char>, tag: Tag) -> Seq<(Seq<char>, Tag)> {
    if present {
        seq![(text, tag)]
    } else {
        Seq::empty()
    }
}

/// The messages that summarise a working tree, in their canonical order: the
/// note on the branch where it is no trunk, then untracked files, changes and
/// unpushed commits, each where present; and where none of the three is, the
/// one message that the tree is clean.
pub open spec fn status_messages(tree: WorkingTree, branch: Seq<char>) -> Seq<(Seq<char>, Tag)> {
    message_if(!tree.on_trunk, "On branch "@ + branch, Tag::Note) + message_if(
        !tree.has_work(),
        "Clean"@,
        Tag::Success,
    ) + message_if(tree.untracked, "Untracked files"@, Tag::Warning) + message_if(
        tree.unstaged || tree.staged,
        "Changes"@,
        Tag::Alert,
    ) + message_if(tree.ahead, "Unpushed commits"@, Tag::Error)
}

/// The views of the given tagged texts.
pub open spec fn tagged_views(messages: Seq<TaggedText>) -> Seq<(Seq<char>, Tag)> {
    messages.map_values(|message: TaggedText| message@)
}

/// What separates the messages of a summary.
pub open spec fn message_separator() -> Seq<char> {
    seq![',', ' ']
}

/// Whether `parts` show the given messages, one part for each message.
pub open spec fn show_messages(parts: Seq<Seq<char>>, messages: Seq<(Seq<char>, Tag)>) -> bool {
    &&& parts.len() == messages.len()
    &&& forall|i: int|
        0 <= i < parts.len() ==> shows(messages[i].1, messages[i].0, #[trigger] parts[i])
}

/// Whether `summary` is the given messages, each shown with its emphasis,
/// joined by the separator.
pub open spec fn is_summary(summary: Seq<char>, messages: Seq<(Seq<char>, Tag)>) -> bool {
    exists|parts: Seq<Seq<char>>|
        show_messages(parts, messages) && summary == #[trigger] joined(parts, message_separator())
}

/// Reads the state of a working tree from the text of a status.
pub fn classify(text: &str) -> (tree: WorkingTree)
    ensures
        tree == described_tree(text@),
{
    let text: Vec<char> = characters(text);
    let on_master: bool = occurs(&text, &characters("On branch master"));
    let on_develop: bool = occurs(&text, &characters("On branch develop"));
    WorkingTree {
        on_trunk: on_master || on_develop,
        untracked: occurs(
            &text,
            &characters("nothing added to commit but untracked files present"),
        ),
        unstaged: occurs(&text, &characters("Changes not staged for commit")),
        staged: occurs(&text, &characters("Changes to be committed")),
        ahead: occurs(&text, &characters("Your branch is ahead of")),
    }
}

/// The messages that summarise a working tree on the given branch.
pub fn messages(tree: &WorkingTree, branch: &str) -> (messages: Vec<TaggedText>)
    ensures
        tagged_views(messages@) == status_messages(*tree, branch@),
{
    let mut messages: Vec<TaggedText> = Vec::new();
    proof {
        assert(tagged_views(messages@) =~= Seq::empty());
    }
    if !tree.on_trunk {
        let mut note: String = "On branch ".to_owned();
        note.append(branch);
        let ghost before = messages@;
        messages.push(TaggedText::new(note, Tag::Note));
        proof {
            assert(tagged_views(messages@) =~= tagged_views(before).push(
                ("On branch "@ + branch@, Tag::Note),
            ));
        }
    }
    if !(tree.untracked || tree.unstaged || tree.staged || tree.ahead) {
        let ghost before = messages@;
        messages.push(TaggedText::new("Clean".to_owned(), Tag::Success));
        proof {
            assert(tagged_views(messages@) =~= tagged_views(before).push(("Clean"@, Tag::Success)));
        }
    }
    if tree.untracked {
        let ghost before = messages@;
        messages.push(TaggedText::new("Untracked files".to_owned(), Tag::Warning));
        proof {
            assert(tagged_views(messages@) =~= tagged_views(before).push(
                ("Untracked files"@, Tag::Warning),
            ));
        }
    }
    if tree.unstaged || tree.staged {
        let ghost before = messages@;
        messages.push(TaggedText::new("Changes".to_owned(), Tag::Alert));
        proof {
            assert(tagged_views(messages@) =~= tagged_views(before).push(("Changes"@, Tag::Alert)));
        }
    }
    if tree.ahead {
        let ghost before = messages@;
        messages.push(TaggedText::new("Unpushed commits".to_owned(), Tag::Error));
        proof {
            assert(tagged_views(messages@) =~= tagged_views(before).push(
                ("Unpushed commits"@, Tag::Error),
            ));
        }
    }
    proof {
        assert(tagged_views(messages@) =~= status_messages(*tree, branch@));
    }
    messages
}

/// The given messages as one text: each shown with its emphasis, joined by
/// the separator. The text as a whole has no emphasis.
pub fn summary(messages: &Vec<TaggedText>) -> (summary: TaggedText)
    ensures
        summary@.1 == Tag::Neutral,
        is_summary(summary@.0, tagged_views(messages@)),
{
    let mut parts: Vec<String> = Vec::new();
    let mut i: usize = 0;
    while i < messages.len()
        invariant
            i <= messages.len(),
            parts@.len() == i,
            forall|k: int|
                0 <= k < i ==> shows(messages@[k].tag, messages@[k].text@, #[trigger] parts@[k]@),
        decreases messages.len() - i,
    {
        parts.push(messages[i].shown());
        i = i + 1;
    }
    proof {
        reveal_strlit(", ");
        assert(", "@ =~= message_separator());
    }
    let whole: String = join(&parts, ", ");
    proof {
        assert(show_messages(texts(parts@), tagged_views(messages@)));
        assert(whole@ == joined(texts(parts@), message_separator()));
    }
    TaggedText::new(whole, Tag::Neutral)
}

/// The branch name that the summary uses: the current branch, or the empty
/// name where there is none.
pub open spec fn branch_or_empty(repository: RepositoryView) -> Seq<char> {
    match current_branch(repository.head) {
        Ok(name) => name,
        Err(_) => Seq::empty(),
    }
}

/// The summary of the state that the text of a status describes, for the
/// given repository.
pub fn status(repository: &Repository, text: String) -> (summary: TaggedText)
    ensures
        summary@.1 == Tag::Neutral,
        is_summary(
            summary@.0,
            status_messages(described_tree(text@), branch_or_empty(repository@)),
        ),
{
    let tree: WorkingTree = classify(text.as_str());
    let branch: String = match repository.branch() {
        Ok(name) => name,
        Err(_) => String::new(),
    };
    let found: Vec<TaggedText> = messages(&tree, branch.as_str());
    summary(&found)
}

} // verus!
