//! Planning a report: the width of the column of names, which is the length
//! of the longest display name.

use crate::mapper::RepositoriesMapper;
use crate::path_display::{cut, display_name};
use crate::text::texts;
use vstd::prelude::*;
use vstd::seq_lib::*;
use vstd::string::*;

verus! {

/// The display names of the given paths.
pub open spec fn display_names(
    paths: Seq<Seq<char>>,
    show_absolute_path: bool,
    base_path_len: nat,
) -> Seq<Seq<char>> {
    paths.map_values(|path: Seq<char>| display_name(path, show_absolute_path, base_path_len))
}

/// The length of the longest of the given names, and 0 where there is none.
pub open spec fn longest(names: Seq<Seq<char>>) -> nat
    decreases names.len(),
{
    if names.len() == 0 {
        0
    } else {
        let before = longest(names.drop_last());
        if names.last().len() > before {
            names.last().len()
        } else {
            before
        }
    }
}

/// The longest length is no less than the length of any name, and some name
/// has exactly that length.
pub proof fn lemma_longest_is_maximum(names: Seq<Seq<char>>)
    ensures
        forall|i: int| 0 <= i < names.len() ==> (#[trigger] names[i]).len() <= longest(names),
        names.len() == 0 ==> longest(names) == 0,
        names.len() > 0 ==> exists|i: int|
            0 <= i < names.len() && (#[trigger] names[i]).len() == longest(names),
    decreases names.len(),
{
    if names.len() > 0 {
        let front = names.drop_last();
        lemma_longest_is_maximum(front);
        assert forall|i: int| 0 <= i < names.len() implies (#[trigger] names[i]).len() <= longest(
            names,
        ) by {
            if i < front.len() {
                assert(names[i] == front[i]);
            }
        }
        if names.last().len() > longest(front) || front.len() == 0 {
            assert(names[names.len() - 1].len() == longest(names));
        } else {
            let i = choose|i: int| 0 <= i < front.len() && (#[trigger] front[i]).len() == longest(front);
            assert(names[i] == front[i]);
        }
    }
}

/// The width of the column of names: the length of the longest display name
/// among the given paths, and 0 where there is no path.
pub fn column_width(paths: &Vec<String>, show_absolute_path: bool, base_path_len: usize) -> (width:
    usize)
    ensures
        width == longest(display_names(texts(paths@), show_absolute_path, base_path_len as nat)),
        forall|i: int|
            0 <= i < paths@.len() ==> display_name(
                #[trigger] paths@[i]@,
                show_absolute_path,
                base_path_len as nat,
            ).len() <= width,
        paths@.len() == 0 ==> width == 0,
        paths@.len() > 0 ==> exists|i: int|
            0 <= i < paths@.len() && display_name(
                #[trigger] paths@[i]@,
                show_absolute_path,
                base_path_len as nat,
            ).len() == width,
{
    let ghost names = display_names(texts(paths@), show_absolute_path, base_path_len as nat);
    let mut width: usize = 0;
    let mut i: usize = 0;
    while i < paths.len()
        invariant
            i <= paths.len(),
            names == display_names(texts(paths@), show_absolute_path, base_path_len as nat),
            width == longest(names.take(i as int)),
        decreases paths.len() - i,
    {
        let name: String = cut(paths[i].as_str(), show_absolute_path, base_path_len);
        let len: usize = name.as_str().unicode_len();
        proof {
            assert(names.take(i + 1).drop_last() =~= names.take(i as int));
            assert(names.take(i + 1).last() == name@);
        }
        if len > width {
            width = len;
        }
        i = i + 1;
    }
    proof {
        assert(names.take(i as int) =~= names);
        lemma_longest_is_maximum(names);
        if paths@.len() > 0 {
            let i = choose|i: int| 0 <= i < names.len() && (#[trigger] names[i]).len() == longest(names);
            assert(display_name(paths@[i]@, show_absolute_path, base_path_len as nat) == names[i]);
        }
        assert forall|i: int| 0 <= i < paths@.len() implies display_name(
            #[trigger] paths@[i]@,
            show_absolute_path,
            base_path_len as nat,
        ).len() <= width by {
            assert(display_name(paths@[i]@, show_absolute_path, base_path_len as nat) == names[i]);
        }
    }
    width
}

/// The width of the column does not depend on the order in which the names
/// come.
pub proof fn lemma_longest_ignores_order(first: Seq<Seq<char>>, second: Seq<Seq<char>>)
    requires
        first.to_multiset() == second.to_multiset(),
    ensures
        longest(first) == longest(second),
{
    broadcast use group_to_multiset_ensures;

    lemma_longest_is_maximum(first);
    lemma_longest_is_maximum(second);
    assert(first.to_multiset().len() == first.len());
    assert(second.to_multiset().len() == second.len());
    if first.len() > 0 {
        let i = choose|i: int| 0 <= i < first.len() && (#[trigger] first[i]).len() == longest(first);
        assert(first.contains(first[i]));
        assert(second.to_multiset().count(first[i]) > 0);
        assert(second.contains(first[i]));
        let j = choose|j: int| 0 <= j < second.len() && (#[trigger] second[j]).len() == longest(
            second,
        );
        assert(second.contains(second[j]));
        assert(first.to_multiset().count(second[j]) > 0);
        assert(first.contains(second[j]));
    }
}

impl RepositoriesMapper {
    /// Whether this is the plan for a report on the given paths beneath
    /// `base_path`: names are cut by the number of characters of the base
    /// path, and the column is as wide as the longest display name.
    pub open spec fn is_plan_for(
        &self,
        base_path: Seq<char>,
        show_absolute_path: bool,
        paths: Seq<Seq<char>>,
    ) -> bool {
        &&& self.show_absolute_path == show_absolute_path
        &&& self.base_path_len == base_path.len()
        &&& self.max_padding == longest(
            display_names(paths, show_absolute_path, base_path.len()),
        )
    }

    /// The mapper for a report on the given paths: names are cut by the
    /// number of characters of `base_path`, and the column is as wide as the
    /// longest display name.
    pub fn plan(base_path: &str, show_absolute_path: bool, paths: &Vec<String>) -> (mapper:
        RepositoriesMapper)
        ensures
            mapper.is_plan_for(base_path@, show_absolute_path, texts(paths@)),
    {
        let base_path_len: usize = base_path.unicode_len();
        RepositoriesMapper::new(
            show_absolute_path,
            base_path_len,
            column_width(paths, show_absolute_path, base_path_len),
        )
    }
}

} // verus!
