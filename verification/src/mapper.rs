//! The lines of a report: a name, padded to the width of the column, a
//! separator, and what an action says of the repository of that name.

use crate::discovery::opened;
use crate::emphasis::{shows, Tag, TaggedText};
use crate::repository::{repository_name, Repository, RepositoryView};
use vstd::prelude::*;
use vstd::string::*;

verus! {

/// `name`, followed by as many spaces as it lacks to fill `width` characters.
pub open spec fn padded(name: Seq<char>, width: nat) -> Seq<char> {
    if name.len() >= width {
        name
    } else {
        name + Seq::new((width - name.len()) as nat, |i: int| ' ')
    }
}

/// What separates a name from the information behind it.
pub open spec fn name_separator() -> Seq<char> {
    seq![':', ' ']
}

/// One line of the report: the padded name, the separator and the
/// information as it is shown.
pub open spec fn line_text(name: Seq<char>, width: nat, shown: Seq<char>) -> Seq<char> {
    padded(name, width) + name_separator() + shown
}

/// Whether `line` reports `info` under `name` in a column of `width`
/// characters, in one of the ways in which `info` can be shown.
pub open spec fn is_report_line(
    line: Seq<char>,
    name: Seq<char>,
    width: nat,
    info: (Seq<char>, Tag),
) -> bool {
    exists|shown: Seq<char>|
        shows(info.1, info.0, shown) && line == #[trigger] line_text(name, width, shown)
}

/// Formats one line of the report.
pub fn format_line(name: &str, width: usize, shown: &str) -> (line: String)
    ensures
        line@ == line_text(name@, width as nat, shown@),
{
    let len: usize = name.unicode_len();
    let mut line: String = name.to_owned();
    let mut filled: usize = len;
    proof {
        reveal_strlit(" ");
        reveal_strlit(": ");
        assert(line@ =~= name@ + Seq::new(0, |i: int| ' '));
    }
    while filled < width
        invariant
            len == name@.len(),
            len <= filled,
            filled <= width || filled == len,
            " "@ == seq![' '],
            line@ == name@ + Seq::new((filled - len) as nat, |i: int| ' '),
        decreases width - filled,
    {
        line.append(" ");
        filled = filled + 1;
        assert(line@ =~= name@ + Seq::new((filled - len) as nat, |i: int| ' '));
    }
    proof {
        if len >= width {
            assert(line@ =~= name@);
        }
        assert(line@ == padded(name@, width as nat));
    }
    line.append(": ");
    line.append(shown);
    proof {
        assert(": "@ =~= name_separator());
    }
    line
}

/// What is common to all lines of one report.
#[derive(Clone, Copy, Debug, PartialEq, Eq, Structural)]
pub struct RepositoriesMapper {
    pub show_absolute_path: bool,
    /// The number of characters of the base path.
    pub base_path_len: usize,
    /// The width of the column of names.
    pub max_padding: usize,
}

impl RepositoriesMapper {
    /// A mapper that shows names absolute or relative to a base path of
    /// `base_path_len` characters, in a column of `max_padding` characters.
    pub fn new(show_absolute_path: bool, base_path_len: usize, max_padding: usize) -> (mapper:
        RepositoriesMapper)
        ensures
            mapper == (RepositoriesMapper { show_absolute_path, base_path_len, max_padding }),
    {
        RepositoriesMapper { show_absolute_path, base_path_len, max_padding }
    }

    /// The name under which this report lists a repository.
    pub open spec fn name_of(&self, repository: RepositoryView) -> Seq<char> {
        repository_name(repository, self.show_absolute_path, self.base_path_len as nat)
    }

    /// Whether `line` is the line of this report for `repository`, given what
    /// the action says of it.
    pub open spec fn reports(
        &self,
        line: Seq<char>,
        repository: RepositoryView,
        info: (Seq<char>, Tag),
    ) -> bool {
        is_report_line(line, self.name_of(repository), self.max_padding as nat, info)
    }

    /// The line of this report for one repository.
    pub fn line(&self, repository: &Repository, info: &TaggedText) -> (line: String)
        ensures
            self.reports(line@, repository@, info@),
    {
        let name: String = repository.name(self.show_absolute_path, self.base_path_len);
        let shown: String = info.shown();
        let line: String = format_line(name.as_str(), self.max_padding, shown.as_str());
        proof {
            assert(line@ == line_text(
                self.name_of(repository@),
                self.max_padding as nat,
                shown@,
            ));
        }
        line
    }

    /// Whether `line` is the line of this report for `repository`, for
    /// something that `info_getter` may say of it.
    pub open spec fn reports_by<F: Fn(&Repository) -> TaggedText>(
        &self,
        line: Seq<char>,
        repository: Repository,
        info_getter: F,
    ) -> bool {
        exists|info: TaggedText| #[trigger]
            info_getter.ensures((&repository,), info) && self.reports(line, repository@, info@)
    }

    /// One line for every repository that opened, in the order of the
    /// repositories; those that did not open are passed over.
    pub fn map<F>(&self, repositories: &Vec<Option<Repository>>, info_getter: F) -> (lines: Vec<
        String,
    >) where F: Fn(&Repository) -> TaggedText
        requires
            forall|repository: &Repository| info_getter.requires((repository,)),
        ensures
            lines@.len() == opened(repositories@).len(),
            forall|k: int|
                0 <= k < lines@.len() ==> #[trigger] self.reports_by(
                    lines@[k]@,
                    opened(repositories@)[k],
                    info_getter,
                ),
    {
        let mut lines: Vec<String> = Vec::new();
        let mut i: usize = 0;
        while i < repositories.len()
            invariant
                i <= repositories.len(),
                forall|repository: &Repository| info_getter.requires((repository,)),
                lines@.len() == opened(repositories@.take(i as int)).len(),
                forall|k: int|
                    0 <= k < lines@.len() ==> #[trigger] self.reports_by(
                        lines@[k]@,
                        opened(repositories@.take(i as int))[k],
                        info_getter,
                    ),
            decreases repositories.len() - i,
        {
            let ghost before = repositories@.take(i as int);
            let ghost after = repositories@.take(i + 1);
            proof {
                assert(after.drop_last() =~= before);
                assert(after.last() == repositories@[i as int]);
            }
            match &repositories[i] {
                Some(repository) => {
                    let info: TaggedText = info_getter(repository);
                    let line: String = self.line(repository, &info);
                    let ghost old_lines = lines@;
                    lines.push(line);
                    proof {
                        assert(opened(after) == opened(before).push(*repository));
                        assert forall|k: int| 0 <= k < lines@.len() implies #[trigger] self.reports_by(
                            lines@[k]@,
                            opened(after)[k],
                            info_getter,
                        ) by {
                            if k < old_lines.len() {
                                assert(lines@[k] == old_lines[k]);
                                assert(opened(after)[k] == opened(before)[k]);
                                assert(self.reports_by(
                                    old_lines[k]@,
                                    opened(before)[k],
                                    info_getter,
                                ));
                            } else {
                                assert(opened(after)[k] == *repository);
                                assert(info_getter.ensures((&opened(after)[k],), info));
                            }
                        }
                    }
                },
                None => {
                    proof {
                        assert(opened(after) == opened(before));
                    }
                },
            }
            i = i + 1;
        }
        proof {
            assert(repositories@.take(i as int) =~= repositories@);
        }
        lines
    }
}

} // verus!
