//! The arguments of the command line: their names and help texts, the values
//! that were given for them, and the action that these select.

use vstd::prelude::*;

verus! {

/// An argument that the command line knows.
#[derive(Clone, Copy, Debug, PartialEq, Eq, Structural)]
pub enum Argument {
    Directory,
    AbsolutePath,
    ShowBranch,
    GitStatus,
    GitFetch,
    GitPull,
    GitPush,
}

/// What is reported of every repository. At most one action is selected in
/// one invocation.
#[derive(Clone, Copy, Debug, PartialEq, Eq, Structural)]
pub enum Action {
    ListNames,
    ShowBranch,
    ShowStatus,
    Fetch,
    Pull,
    Push,
}

/// The name of an argument, which is also its long flag.
pub open spec fn argument_name(argument: Argument) -> Seq<char> {
    match argument {
        Argument::Directory => "directory"@,
        Argument::AbsolutePath => "absolute"@,
        Argument::ShowBranch => "branch"@,
        Argument::GitStatus => "status"@,
        Argument::GitFetch => "fetch"@,
        Argument::GitPull => "pull"@,
        Argument::GitPush => "push"@,
    }
}

/// The help text of an argument.
pub open spec fn argument_description(argument: Argument) -> Seq<char> {
    match argument {
        Argument::Directory => "directory to parse sub dirs from"@,
        Argument::AbsolutePath => "show absolute paths"@,
        Argument::ShowBranch => "show branch"@,
        Argument::GitStatus => "show status"@,
        Argument::GitFetch => "fetch from remote"@,
        Argument::GitPull => "pull from remote"@,
        Argument::GitPush => "pull to remote"@,
    }
}

/// The one-letter flag of an argument: the first letter of its name, in
/// upper case for `absolute` and for `push`, which otherwise would share its
/// letter with `pull`. The directory is given by position and has no flag.
pub open spec fn argument_short(argument: Argument) -> Option<char> {
    match argument {
        Argument::Directory => None,
        Argument::AbsolutePath => Some('A'),
        Argument::ShowBranch => Some('b'),
        Argument::GitStatus => Some('s'),
        Argument::GitFetch => Some('f'),
        Argument::GitPull => Some('p'),
        Argument::GitPush => Some('P'),
    }
}

/// The action that a flag selects, for the flags that select one.
pub open spec fn argument_action(argument: Argument) -> Option<Action> {
    match argument {
        Argument::Directory => None,
        Argument::AbsolutePath => None,
        Argument::ShowBranch => Some(Action::ShowBranch),
        Argument::GitStatus => Some(Action::ShowStatus),
        Argument::GitFetch => Some(Action::Fetch),
        Argument::GitPull => Some(Action::Pull),
        Argument::GitPush => Some(Action::Push),
    }
}

/// No two arguments share a name or a one-letter flag, and no two flags
/// select the same action.
pub proof fn lemma_arguments_are_distinct(first: Argument, second: Argument)
    requires
        first != second,
    ensures
        argument_name(first) != argument_name(second),
        argument_short(first) is Some ==> argument_short(first) != argument_short(second),
        argument_action(first) is Some ==> argument_action(first) != argument_action(second),
{
    reveal_strlit("directory");
    reveal_strlit("absolute");
    reveal_strlit("branch");
    reveal_strlit("status");
    reveal_strlit("fetch");
    reveal_strlit("pull");
    reveal_strlit("push");
    let one = argument_name(first);
    let other = argument_name(second);
    if one.len() == other.len() {
        assert(one[1] != other[1] || one[2] != other[2]);
    }
}

/// The one-letter flag of an argument is the first letter of its name, in
/// lower or in upper case.
pub proof fn lemma_short_is_first_letter(argument: Argument)
    requires
        argument != Argument::Directory,
    ensures
        argument_short(argument) is Some,
        argument_short(argument)->0 == argument_name(argument)[0] || argument_short(argument)->0 as int
            + 32 == argument_name(argument)[0] as int,
{
    reveal_strlit("absolute");
    reveal_strlit("branch");
    reveal_strlit("status");
    reveal_strlit("fetch");
    reveal_strlit("pull");
    reveal_strlit("push");
}

impl Argument {
    /// The one-letter flag of the argument, if it has one.
    pub fn short(&self) -> (flag: Option<char>)
        ensures
            flag == argument_short(*self),
    {
        match *self {
            Argument::Directory => None,
            Argument::AbsolutePath => Some('A'),
            Argument::ShowBranch => Some('b'),
            Argument::GitStatus => Some('s'),
            Argument::GitFetch => Some('f'),
            Argument::GitPull => Some('p'),
            Argument::GitPush => Some('P'),
        }
    }

    /// The action that the argument selects, if it selects one.
    pub fn selects(&self) -> (action: Option<Action>)
        ensures
            action == argument_action(*self),
    {
        match *self {
            Argument::Directory => None,
            Argument::AbsolutePath => None,
            Argument::ShowBranch => Some(Action::ShowBranch),
            Argument::GitStatus => Some(Action::ShowStatus),
            Argument::GitFetch => Some(Action::Fetch),
            Argument::GitPull => Some(Action::Pull),
            Argument::GitPush => Some(Action::Push),
        }
    }

    /// The name of the argument.
    pub fn as_str(&self) -> (name: &'static str)
        ensures
            name@ == argument_name(*self),
    {
        match *self {
            Argument::Directory => "directory",
            Argument::AbsolutePath => "absolute",
            Argument::ShowBranch => "branch",
            Argument::GitStatus => "status",
            Argument::GitFetch => "fetch",
            Argument::GitPull => "pull",
            Argument::GitPush => "push",
        }
    }

    /// The help text of the argument.
    pub fn description(&self) -> (text: &'static str)
        ensures
            text@ == argument_description(*self),
    {
        match *self {
            Argument::Directory => "directory to parse sub dirs from",
            Argument::AbsolutePath => "show absolute paths",
            Argument::ShowBranch => "show branch",
            Argument::GitStatus => "show status",
            Argument::GitFetch => "fetch from remote",
            Argument::GitPull => "pull from remote",
            Argument::GitPush => "pull to remote",
        }
    }

    /// The name of the argument as an owned text, as it would be printed.
    pub fn to_text(&self) -> (name: String)
        ensures
            name@ == argument_name(*self),
    {
        self.as_str().to_owned()
    }
}

impl std::convert::AsRef<str> for Argument {
    fn as_ref(&self) -> (name: &str)
        ensures
            name@ == argument_name(*self),
    {
        self.as_str()
    }
}

/// The arguments as they were given on one command line.
#[derive(Clone, Debug, PartialEq, Eq)]
pub struct Arguments {
    /// The root to scan.
    pub directory: String,
    pub absolute_path: bool,
    pub show_branch: bool,
    pub git_status: bool,
    pub git_fetch: bool,
    pub git_pull: bool,
    pub git_push: bool,
}

/// The action that a set of flags selects: the first flag that is set, in the
/// order branch, status, fetch, pull, push, and the plain list where none is.
pub open spec fn selected_action(
    show_branch: bool,
    git_status: bool,
    git_fetch: bool,
    git_pull: bool,
    git_push: bool,
) -> Action {
    if show_branch {
        Action::ShowBranch
    } else if git_status {
        Action::ShowStatus
    } else if git_fetch {
        Action::Fetch
    } else if git_pull {
        Action::Pull
    } else if git_push {
        Action::Push
    } else {
        Action::ListNames
    }
}

/// Where exactly one of the flags that select an action is given, its action
/// is selected; where none is given, the names are listed.
pub proof fn lemma_given_flag_selects(args: Arguments, argument: Argument)
    requires
        forall|other: Argument|
            other != argument && argument_action(other) is Some ==> !args.present(other),
    ensures
        argument_action(argument) is Some && args.present(argument) ==> args.selected()
            == argument_action(argument)->0,
        argument_action(argument) is None || !args.present(argument) ==> args.selected()
            == Action::ListNames,
{
    assert(argument == Argument::ShowBranch || !args.present(Argument::ShowBranch));
    assert(argument == Argument::GitStatus || !args.present(Argument::GitStatus));
    assert(argument == Argument::GitFetch || !args.present(Argument::GitFetch));
    assert(argument == Argument::GitPull || !args.present(Argument::GitPull));
    assert(argument == Argument::GitPush || !args.present(Argument::GitPush));
}

impl Arguments {
    /// Whether a flag was given. The directory is always given.
    pub open spec fn present(&self, argument: Argument) -> bool {
        match argument {
            Argument::Directory => true,
            Argument::AbsolutePath => self.absolute_path,
            Argument::ShowBranch => self.show_branch,
            Argument::GitStatus => self.git_status,
            Argument::GitFetch => self.git_fetch,
            Argument::GitPull => self.git_pull,
            Argument::GitPush => self.git_push,
        }
    }

    /// The action that the flags select.
    pub open spec fn selected(&self) -> Action {
        selected_action(
            self.show_branch,
            self.git_status,
            self.git_fetch,
            self.git_pull,
            self.git_push,
        )
    }

    /// Whether the argument was given.
    pub fn is_present(&self, argument: Argument) -> (given: bool)
        ensures
            given == self.present(argument),
    {
        match argument {
            Argument::Directory => true,
            Argument::AbsolutePath => self.absolute_path,
            Argument::ShowBranch => self.show_branch,
            Argument::GitStatus => self.git_status,
            Argument::GitFetch => self.git_fetch,
            Argument::GitPull => self.git_pull,
            Argument::GitPush => self.git_push,
        }
    }

    /// The action to perform.
    pub fn action(&self) -> (action: Action)
        ensures
            action == self.selected(),
    {
        if self.is_present(Argument::ShowBranch) {
            Action::ShowBranch
        } else if self.is_present(Argument::GitStatus) {
            Action::ShowStatus
        } else if self.is_present(Argument::GitFetch) {
            Action::Fetch
        } else if self.is_present(Argument::GitPull) {
            Action::Pull
        } else if self.is_present(Argument::GitPush) {
            Action::Push
        } else {
            Action::ListNames
        }
    }
}

} // verus!
