//! The report as a whole: its lines for the action that the arguments
//! select, and the text that is printed.

use crate::args::{Action, Argument, Arguments};
use crate::discovery::{lemma_opened_is_piecewise, opened};
use crate::emphasis::{shows, Tag, TaggedText};
use crate::info::{
    action_info, repository_branch, repository_fetch, repository_pull, repository_push,
    repository_status,
};
use crate::mapper::{line_text, RepositoriesMapper};
use crate::outcome::exit_code_of;
use crate::path_display::{cut_path, display_name};
use crate::permutation::{lemma_map_values_is_piecewise, lemma_piecewise_keeps_items};
use crate::planner::{display_names, lemma_longest_ignores_order, longest};
use crate::repository::{Repository, RepositoryView};
use crate::text::{join, joined, texts};
use vstd::prelude::*;

verus! {

/// What separates the lines of a report.
pub open spec fn line_separator() -> Seq<char> {
    seq!['\n']
}

/// Whether `lines` are the lines of the report.
///
/// Where only names are listed, there is one line for each discovered path,
/// and it is the display name of that path. For any other action there is
/// one line for each repository that opened, which reports what the action
/// says of it.
pub open spec fn is_report(
    lines: Seq<Seq<char>>,
    args: Arguments,
    mapper: RepositoriesMapper,
    paths: Seq<Seq<char>>,
    repositories: Seq<Option<Repository>>,
) -> bool {
    match args.selected() {
        Action::ListNames => lines == display_names(
            paths,
            args.absolute_path,
            mapper.base_path_len as nat,
        ),
        action => {
            &&& lines.len() == opened(repositories).len()
            &&& forall|k: int|
                0 <= k < lines.len() ==> mapper.reports(
                    #[trigger] lines[k],
                    opened(repositories)[k]@,
                    action_info(action, opened(repositories)[k]@)->0,
                )
        },
    }
}

/// The lines of the report for the action that the arguments select.
///
/// `paths` are the working directories that were discovered, `repositories`
/// what became of opening each of them again; the latter is read only where
/// an action is selected.
pub fn execute_task(
    args: &Arguments,
    mapper: &RepositoriesMapper,
    paths: &Vec<String>,
    repositories: &Vec<Option<Repository>>,
) -> (lines: Vec<String>)
    ensures
        is_report(texts(lines@), *args, *mapper, texts(paths@), repositories@),
{
    if args.is_present(Argument::ShowBranch) {
        let lines = mapper.map(repositories, repository_branch);
        proof {
            lemma_mapped_lines(*mapper, lines@, repositories@, Action::ShowBranch, repository_branch);
        }
        lines
    } else if args.is_present(Argument::GitStatus) {
        let lines = mapper.map(repositories, repository_status);
        proof {
            lemma_mapped_lines(*mapper, lines@, repositories@, Action::ShowStatus, repository_status);
        }
        lines
    } else if args.is_present(Argument::GitFetch) {
        let lines = mapper.map(repositories, repository_fetch);
        proof {
            lemma_mapped_lines(*mapper, lines@, repositories@, Action::Fetch, repository_fetch);
        }
        lines
    } else if args.is_present(Argument::GitPull) {
        let lines = mapper.map(repositories, repository_pull);
        proof {
            lemma_mapped_lines(*mapper, lines@, repositories@, Action::Pull, repository_pull);
        }
        lines
    } else if args.is_present(Argument::GitPush) {
        let lines = mapper.map(repositories, repository_push);
        proof {
            lemma_mapped_lines(*mapper, lines@, repositories@, Action::Push, repository_push);
        }
        lines
    } else {
        let show_absolute_path: bool = args.is_present(Argument::AbsolutePath);
        let render = cut_path(show_absolute_path, mapper.base_path_len);
        let mut lines: Vec<String> = Vec::new();
        let mut i: usize = 0;
        while i < paths.len()
            invariant
                i <= paths.len(),
                forall|path: &str| render.requires((path,)),
                forall|path: &str, name: String|
                    render.ensures((path,), name) ==> name@ == display_name(
                        path@,
                        show_absolute_path,
                        mapper.base_path_len as nat,
                    ),
                lines@.len() == i,
                texts(lines@) == display_names(
                    texts(paths@),
                    show_absolute_path,
                    mapper.base_path_len as nat,
                ).take(i as int),
            decreases paths.len() - i,
        {
            let name: String = render(paths[i].as_str());
            let ghost before = lines@;
            lines.push(name);
            proof {
                let names = display_names(
                    texts(paths@),
                    show_absolute_path,
                    mapper.base_path_len as nat,
                );
                assert forall|k: int| 0 <= k < i + 1 implies texts(lines@)[k] == names.take(
                    i + 1,
                )[k] by {
                    if k < i {
                        assert(texts(before)[k] == names.take(i as int)[k]);
                    }
                }
                assert(texts(lines@) =~= names.take(i + 1));
            }
            i = i + 1;
        }
        proof {
            let names = display_names(
                texts(paths@),
                show_absolute_path,
                mapper.base_path_len as nat,
            );
            assert(names.take(i as int) =~= names);
        }
        lines
    }
}

/// Lines that the mapper made with the getter of an action report what that
/// action says.
proof fn lemma_mapped_lines<F: Fn(&Repository) -> TaggedText>(
    mapper: RepositoriesMapper,
    lines: Seq<String>,
    repositories: Seq<Option<Repository>>,
    action: Action,
    info_getter: F,
)
    requires
        action != Action::ListNames,
        lines.len() == opened(repositories).len(),
        forall|k: int|
            0 <= k < lines.len() ==> #[trigger] mapper.reports_by(
                lines[k]@,
                opened(repositories)[k],
                info_getter,
            ),
        forall|repository: &Repository, info: TaggedText|
            info_getter.ensures((repository,), info) ==> Some(info@) == action_info(
                action,
                repository@,
            ),
    ensures
        texts(lines).len() == opened(repositories).len(),
        forall|k: int|
            0 <= k < lines.len() ==> mapper.reports(
                #[trigger] texts(lines)[k],
                opened(repositories)[k]@,
                action_info(action, opened(repositories)[k]@)->0,
            ),
{
    assert forall|k: int| 0 <= k < lines.len() implies mapper.reports(
        #[trigger] texts(lines)[k],
        opened(repositories)[k]@,
        action_info(action, opened(repositories)[k]@)->0,
    ) by {
        assert(mapper.reports_by(lines[k]@, opened(repositories)[k], info_getter));
    }
}

/// Whether `text` is the report on the given discovery: the lines of the
/// report as it was planned for the paths, joined by line breaks.
pub open spec fn is_report_text(
    text: Seq<char>,
    args: Arguments,
    base_path: Seq<char>,
    paths: Seq<Seq<char>>,
    repositories: Seq<Option<Repository>>,
) -> bool {
    exists|lines: Seq<Seq<char>>, mapper: RepositoriesMapper|
        #![trigger is_report(lines, args, mapper, paths, repositories)]
        {
            &&& mapper.is_plan_for(base_path, args.absolute_path, paths)
            &&& is_report(lines, args, mapper, paths, repositories)
            &&& text == joined(lines, line_separator())
        }
}

/// The whole report as one text: the lines of the report for the selected
/// action, in a column as wide as the longest display name, joined by line
/// breaks. Where nothing was discovered, the text is empty.
pub fn report(
    args: &Arguments,
    base_path: &str,
    paths: &Vec<String>,
    repositories: &Vec<Option<Repository>>,
) -> (text: String)
    ensures
        is_report_text(text@, *args, base_path@, texts(paths@), repositories@),
        paths@.len() == 0 && repositories@.len() == 0 ==> text@ == Seq::<char>::empty(),
{
    let mapper = RepositoriesMapper::plan(
        base_path,
        args.is_present(Argument::AbsolutePath),
        paths,
    );
    let lines = execute_task(args, &mapper, paths, repositories);
    proof {
        reveal_strlit("\n");
        assert("\n"@ =~= line_separator());
    }
    let text = join(&lines, "\n");
    proof {
        assert(text@ == joined(texts(lines@), line_separator()));
        assert(is_report(texts(lines@), *args, mapper, texts(paths@), repositories@));
        if paths@.len() == 0 && repositories@.len() == 0 {
            assert(texts(paths@) =~= Seq::<Seq<char>>::empty());
            assert(repositories@ =~= Seq::<Option<Repository>>::empty());
            lemma_empty_report_has_no_line(texts(lines@), *args, mapper);
        }
    }
    text
}

/// Where nothing was discovered and nothing opened, the report has no line.
pub proof fn lemma_empty_report_has_no_line(
    lines: Seq<Seq<char>>,
    args: Arguments,
    mapper: RepositoriesMapper,
)
    requires
        is_report(lines, args, mapper, Seq::empty(), Seq::empty()),
    ensures
        lines == Seq::<Seq<char>>::empty(),
{
    assert(opened(Seq::<Option<Repository>>::empty()).len() == 0);
    assert(display_names(
        Seq::<Seq<char>>::empty(),
        args.absolute_path,
        mapper.base_path_len as nat,
    ).len() == 0);
    assert(lines =~= Seq::<Seq<char>>::empty());
}

/// A root without repositories is no failure: the text of the report is
/// empty, and the run that printed it exits with the code of success, 0.
pub proof fn lemma_empty_report(text: Seq<char>, args: Arguments, base_path: Seq<char>)
    requires
        is_report_text(text, args, base_path, Seq::empty(), Seq::empty()),
    ensures
        text == Seq::<char>::empty(),
        exit_code_of(Ok(())) == 0,
{
    let (lines, mapper) = choose|lines: Seq<Seq<char>>, mapper: RepositoriesMapper|
        #![trigger is_report(lines, args, mapper, Seq::empty(), Seq::empty())]
        {
            &&& mapper.is_plan_for(base_path, args.absolute_path, Seq::empty())
            &&& is_report(lines, args, mapper, Seq::empty(), Seq::empty())
            &&& text == joined(lines, line_separator())
        };
    lemma_empty_report_has_no_line(lines, args, mapper);
}

/// Whether `show` is a way to show tagged text: it shows every text in one
/// of the ways that its emphasis allows.
pub open spec fn is_way_to_show(show: spec_fn((Seq<char>, Tag)) -> Seq<char>) -> bool {
    forall|info: (Seq<char>, Tag)| shows(info.1, info.0, #[trigger] show(info))
}

/// The way to show tagged text where the output takes no colours: every
/// text as it is.
pub open spec fn show_plain() -> spec_fn((Seq<char>, Tag)) -> Seq<char> {
    |info: (Seq<char>, Tag)| info.0
}

/// The line of the report for a repository, with what the action says of it
/// shown by `show`.
pub open spec fn line_shown_by(
    show: spec_fn((Seq<char>, Tag)) -> Seq<char>,
    action: Action,
    mapper: RepositoriesMapper,
    repository: RepositoryView,
) -> Seq<char> {
    line_text(
        mapper.name_of(repository),
        mapper.max_padding as nat,
        show(action_info(action, repository)->0),
    )
}

/// The lines of the report, with what the action says shown by `show`.
pub open spec fn report_shown_by(
    show: spec_fn((Seq<char>, Tag)) -> Seq<char>,
    args: Arguments,
    mapper: RepositoriesMapper,
    paths: Seq<Seq<char>>,
    repositories: Seq<Option<Repository>>,
) -> Seq<Seq<char>> {
    match args.selected() {
        Action::ListNames => display_names(
            paths,
            args.absolute_path,
            mapper.base_path_len as nat,
        ),
        action => opened(repositories).map_values(
            |repository: Repository| line_shown_by(show, action, mapper, repository@),
        ),
    }
}

/// Showing every text as it is is a way to show tagged text.
pub proof fn lemma_plain_is_way_to_show()
    ensures
        is_way_to_show(show_plain()),
{
}

/// The lines that one way of showing gives are lines of the report.
pub proof fn lemma_report_shown_is_report(
    show: spec_fn((Seq<char>, Tag)) -> Seq<char>,
    args: Arguments,
    mapper: RepositoriesMapper,
    paths: Seq<Seq<char>>,
    repositories: Seq<Option<Repository>>,
)
    requires
        is_way_to_show(show),
    ensures
        is_report(
            report_shown_by(show, args, mapper, paths, repositories),
            args,
            mapper,
            paths,
            repositories,
        ),
{
    let lines = report_shown_by(show, args, mapper, paths, repositories);
    let action = args.selected();
    if action != Action::ListNames {
        assert forall|k: int| 0 <= k < lines.len() implies mapper.reports(
            #[trigger] lines[k],
            opened(repositories)[k]@,
            action_info(action, opened(repositories)[k]@)->0,
        ) by {
            let repository = opened(repositories)[k]@;
            let info = action_info(action, repository)->0;
            assert(shows(info.1, info.0, show(info)));
            assert(lines[k] == line_text(
                mapper.name_of(repository),
                mapper.max_padding as nat,
                show(info),
            ));
        }
    }
}

/// Two runs that discover the same working directories and open the same
/// repositories, in whatever order, plan the same column and, with one way
/// of showing, report the same lines but for their order.
pub proof fn lemma_report_ignores_order(
    show: spec_fn((Seq<char>, Tag)) -> Seq<char>,
    args: Arguments,
    base_path_len: usize,
    first_paths: Seq<Seq<char>>,
    first_repositories: Seq<Option<Repository>>,
    second_paths: Seq<Seq<char>>,
    second_repositories: Seq<Option<Repository>>,
)
    requires
        first_paths.to_multiset() == second_paths.to_multiset(),
        first_repositories.to_multiset() == second_repositories.to_multiset(),
    ensures
        longest(display_names(first_paths, args.absolute_path, base_path_len as nat)) == longest(
            display_names(second_paths, args.absolute_path, base_path_len as nat),
        ),
        forall|mapper: RepositoriesMapper|
            mapper.base_path_len == base_path_len ==> (#[trigger] report_shown_by(
                show,
                args,
                mapper,
                first_paths,
                first_repositories,
            )).to_multiset() == report_shown_by(
                show,
                args,
                mapper,
                second_paths,
                second_repositories,
            ).to_multiset(),
{
    let name = |path: Seq<char>| display_name(path, args.absolute_path, base_path_len as nat);
    let names = |paths: Seq<Seq<char>>| paths.map_values(name);
    lemma_map_values_is_piecewise(name);
    lemma_piecewise_keeps_items(first_paths, second_paths, names);
    assert(names(first_paths) == display_names(
        first_paths,
        args.absolute_path,
        base_path_len as nat,
    ));
    assert(names(second_paths) == display_names(
        second_paths,
        args.absolute_path,
        base_path_len as nat,
    ));
    lemma_longest_ignores_order(names(first_paths), names(second_paths));
    let keep = |candidates: Seq<Option<Repository>>| opened(candidates);
    lemma_opened_is_piecewise::<Repository>();
    lemma_piecewise_keeps_items(first_repositories, second_repositories, keep);
    assert forall|mapper: RepositoriesMapper| mapper.base_path_len == base_path_len implies (
    #[trigger] report_shown_by(show, args, mapper, first_paths, first_repositories)).to_multiset()
        == report_shown_by(show, args, mapper, second_paths, second_repositories).to_multiset() by {
        let action = args.selected();
        if action != Action::ListNames {
            let line = |repository: Repository| line_shown_by(show, action, mapper, repository@);
            let lines = |repositories: Seq<Repository>| repositories.map_values(line);
            lemma_map_values_is_piecewise(line);
            lemma_piecewise_keeps_items(
                opened(first_repositories),
                opened(second_repositories),
                lines,
            );
        }
    }
}

} // verus!
