//! One opened repository, as far as the report reads it: where its working
//! directory lies and what its head refers to.

use crate::path_display::{cut_path, display_name};
use vstd::prelude::*;

verus! {

/// What the head of a repository refers to at the moment it is read.
#[derive(Clone, Debug, PartialEq, Eq)]
pub enum Head {
    /// A reference that resolves. Its short name is absent where the name is
    /// no valid text.
    Resolved(Option<String>),
    /// A branch without any commit yet.
    Unborn,
    /// The head could not be read for any other reason.
    Unreadable,
}

/// Why a repository names no current branch.
#[derive(Clone, Copy, Debug, PartialEq, Eq, Structural)]
pub enum HeadError {
    /// The branch exists but has no commit yet.
    UnbornBranch,
    /// Any other failure to read the head.
    Other,
}

/// The mathematical value of a `Head`.
pub enum HeadView {
    Resolved(Option<Seq<char>>),
    Unborn,
    Unreadable,
}

impl View for Head {
    type V = HeadView;

    open spec fn view(&self) -> HeadView {
        match *self {
            Head::Resolved(Some(name)) => HeadView::Resolved(Some(name@)),
            Head::Resolved(None) => HeadView::Resolved(None),
            Head::Unborn => HeadView::Unborn,
            Head::Unreadable => HeadView::Unreadable,
        }
    }
}

/// An opened repository.
#[derive(Clone, Debug, PartialEq, Eq)]
pub struct Repository {
    /// The working directory, absent for a repository that has none or whose
    /// path is no valid text.
    pub workdir: Option<String>,
    pub head: Head,
}

/// The mathematical value of a `Repository`.
pub struct RepositoryView {
    pub workdir: Option<Seq<char>>,
    pub head: HeadView,
}

impl View for Repository {
    type V = RepositoryView;

    open spec fn view(&self) -> RepositoryView {
        RepositoryView {
            workdir: match self.workdir {
                Some(path) => Some(path@),
                None => None,
            },
            head: self.head@,
        }
    }
}

/// The display name of a working directory, where there is one.
pub open spec fn workdir_name(
    workdir: Option<Seq<char>>,
    show_absolute_path: bool,
    base_path_len: nat,
) -> Option<Seq<char>> {
    match workdir {
        Some(path) => Some(display_name(path, show_absolute_path, base_path_len)),
        None => None,
    }
}

/// The name under which a repository is listed: the display name of its
/// working directory, and the empty name where it has none.
pub open spec fn repository_name(
    repository: RepositoryView,
    show_absolute_path: bool,
    base_path_len: nat,
) -> Seq<char> {
    match repository.workdir {
        Some(path) => display_name(path, show_absolute_path, base_path_len),
        None => Seq::empty(),
    }
}

/// The current branch that a head names, or why it names none. A head whose
/// short name is no valid text gives the empty name.
pub open spec fn current_branch(head: HeadView) -> Result<Seq<char>, HeadError> {
    match head {
        HeadView::Resolved(Some(name)) => Ok(name),
        HeadView::Resolved(None) => Ok(Seq::empty()),
        HeadView::Unborn => Err(HeadError::UnbornBranch),
        HeadView::Unreadable => Err(HeadError::Other),
    }
}

/// The view of the branch name that `Repository::branch` returns.
pub open spec fn branch_view(branch: Result<String, HeadError>) -> Result<Seq<char>, HeadError> {
    match branch {
        Ok(name) => Ok(name@),
        Err(error) => Err(error),
    }
}

/// The view of an optional text.
pub open spec fn text_view(text: Option<String>) -> Option<Seq<char>> {
    match text {
        Some(text) => Some(text@),
        None => None,
    }
}

impl Repository {
    /// A repository with the given working directory and head.
    pub fn new(workdir: Option<String>, head: Head) -> (repository: Repository)
        ensures
            repository@ == (RepositoryView { workdir: text_view(workdir), head: head@ }),
    {
        Repository { workdir, head }
    }

    /// The name under which the repository is listed.
    pub fn name(&self, show_absolute_path: bool, base_path_len: usize) -> (name: String)
        ensures
            name@ == repository_name(self@, show_absolute_path, base_path_len as nat),
    {
        match workdir_path(self, show_absolute_path, base_path_len) {
            Some(name) => name,
            None => String::new(),
        }
    }

    /// The short name of the current branch, or why there is none.
    pub fn branch(&self) -> (branch: Result<String, HeadError>)
        ensures
            branch_view(branch) == current_branch(self.head@),
    {
        match &self.head {
            Head::Resolved(Some(name)) => Ok(name.clone()),
            Head::Resolved(None) => Ok(String::new()),
            Head::Unborn => Err(HeadError::UnbornBranch),
            Head::Unreadable => Err(HeadError::Other),
        }
    }
}

/// The display name of the repository's working directory, where it has one.
pub fn workdir_path(repository: &Repository, show_absolute_path: bool, base_path_len: usize) -> (name:
    Option<String>)
    ensures
        text_view(name) == workdir_name(repository@.workdir, show_absolute_path, base_path_len as nat),
{
    match &repository.workdir {
        Some(path) => Some(cut_path(show_absolute_path, base_path_len)(path.as_str())),
        None => None,
    }
}

} // verus!
