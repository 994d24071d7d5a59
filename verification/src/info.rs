//! What each action says of a repository. Every action answers for a
//! repository with a tagged text; none of them changes anything.

use crate::args::Action;
use crate::emphasis::{Tag, TaggedText};
use crate::repository::{current_branch, HeadError, Repository, RepositoryView};
use vstd::prelude::*;

verus! {

/// What the branch action says of a repository: the short name of its
/// current branch, or a fallback where there is none to name.
pub open spec fn branch_info(repository: RepositoryView) -> (Seq<char>, Tag) {
    match current_branch(repository.head) {
        Ok(name) => (name, Tag::Success),
        Err(HeadError::UnbornBranch) => ("not on a branch"@, Tag::Dim),
        Err(HeadError::Other) => ("unknown"@, Tag::Dim),
    }
}

/// What an action says that has nothing behind it yet.
pub open spec fn not_implemented() -> (Seq<char>, Tag) {
    ("not implemented yet"@, Tag::Error)
}

/// The current branch of a repository.
pub fn repository_branch(repository: &Repository) -> (info: TaggedText)
    ensures
        info@ == branch_info(repository@),
{
    match repository.branch() {
        Ok(branch) => TaggedText::new(branch, Tag::Success),
        Err(HeadError::UnbornBranch) => TaggedText::new("not on a branch".to_owned(), Tag::Dim),
        Err(HeadError::Other) => TaggedText::new("unknown".to_owned(), Tag::Dim),
    }
}

/// The state of the working tree. Reads nothing and changes nothing.
pub fn repository_status(_repository: &Repository) -> (info: TaggedText)
    ensures
        info@ == not_implemented(),
{
    TaggedText::new("not implemented yet".to_owned(), Tag::Error)
}

/// Fetching from the remote. Reads nothing and changes nothing.
pub fn repository_fetch(_repository: &Repository) -> (info: TaggedText)
    ensures
        info@ == not_implemented(),
{
    TaggedText::new("not implemented yet".to_owned(), Tag::Error)
}

/// Pulling from the remote. Reads nothing and changes nothing.
pub fn repository_pull(_repository: &Repository) -> (info: TaggedText)
    ensures
        info@ == not_implemented(),
{
    TaggedText::new("not implemented yet".to_owned(), Tag::Error)
}

/// Pushing to the remote. Reads nothing and changes nothing.
pub fn repository_push(_repository: &Repository) -> (info: TaggedText)
    ensures
        info@ == not_implemented(),
{
    TaggedText::new("not implemented yet".to_owned(), Tag::Error)
}

/// What an action says of a repository; nothing where only names are listed.
pub open spec fn action_info(action: Action, repository: RepositoryView) -> Option<
    (Seq<char>, Tag),
> {
    match action {
        Action::ListNames => None,
        Action::ShowBranch => Some(branch_info(repository)),
        Action::ShowStatus => Some(not_implemented()),
        Action::Fetch => Some(not_implemented()),
        Action::Pull => Some(not_implemented()),
        Action::Push => Some(not_implemented()),
    }
}

} // verus!
