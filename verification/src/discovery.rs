//! Discovery: of all the markers that a walk found beneath the root, the
//! working directories of those that open as a repository.

use crate::permutation::{is_piecewise, lemma_map_values_is_piecewise, lemma_piecewise_keeps_items};
use crate::repository::Repository;
use crate::text::texts;
use vstd::prelude::*;

verus! {

/// The items that are there, in their order.
pub open spec fn opened<T>(candidates: Seq<Option<T>>) -> Seq<T>
    decreases candidates.len(),
{
    if candidates.len() == 0 {
        Seq::empty()
    } else {
        match candidates.last() {
            Some(item) => opened(candidates.drop_last()).push(item),
            None => opened(candidates.drop_last()),
        }
    }
}

/// The items that are there of two sequences in a row are those of the one
/// followed by those of the other.
pub proof fn lemma_opened_add<T>(left: Seq<Option<T>>, right: Seq<Option<T>>)
    ensures
        opened(left + right) == opened(left) + opened(right),
    decreases right.len(),
{
    if right.len() == 0 {
        assert(left + right =~= left);
        assert(opened(left) + opened(right) =~= opened(left));
    } else {
        let whole = left + right;
        assert(whole.drop_last() =~= left + right.drop_last());
        assert(whole.last() == right.last());
        lemma_opened_add(left, right.drop_last());
        match right.last() {
            Some(item) => {
                assert(opened(whole) =~= opened(left) + opened(right));
            },
            None => {},
        }
    }
}

/// Passing over the items that are not there treats a sequence piece by
/// piece.
pub proof fn lemma_opened_is_piecewise<T>()
    ensures
        is_piecewise(|s: Seq<Option<T>>| opened(s)),
{
    let transform = |s: Seq<Option<T>>| opened(s);
    assert forall|left: Seq<Option<T>>, right: Seq<Option<T>>| #[trigger]
        transform(left + right) == transform(left) + transform(right) by {
        lemma_opened_add(left, right);
    }
}

/// The working directory of a candidate: there is none where the marker did
/// not open as a repository, and none where the repository has none.
pub open spec fn workdir_of(candidate: Option<Repository>) -> Option<Seq<char>> {
    match candidate {
        Some(repository) => repository@.workdir,
        None => None,
    }
}

/// Whether a candidate is a valid repository: it opened and has a working
/// directory.
pub open spec fn is_valid(candidate: Option<Repository>) -> bool {
    workdir_of(candidate) is Some
}

/// The working directories of the valid candidates, in the order of the
/// candidates.
pub open spec fn discovered(candidates: Seq<Option<Repository>>) -> Seq<Seq<char>> {
    opened(candidates.map_values(|candidate: Option<Repository>| workdir_of(candidate)))
}

/// Discovery returns one working directory for each valid candidate and none
/// for any other: with `k` valid and `m` invalid candidates it returns
/// exactly `k`.
pub proof fn lemma_discovery_counts_valid(candidates: Seq<Option<Repository>>)
    ensures
        discovered(candidates).len() == candidates.filter(
            |candidate: Option<Repository>| is_valid(candidate),
        ).len(),
        discovered(candidates).len() + candidates.filter(
            |candidate: Option<Repository>| !is_valid(candidate),
        ).len() == candidates.len(),
    decreases candidates.len(),
{
    let valid = |candidate: Option<Repository>| is_valid(candidate);
    let invalid = |candidate: Option<Repository>| !is_valid(candidate);
    let workdirs = candidates.map_values(|candidate: Option<Repository>| workdir_of(candidate));
    if candidates.len() == 0 {
        candidates.lemma_filter_len(valid);
        candidates.lemma_filter_len(invalid);
    } else {
        let front = candidates.drop_last();
        let last = candidates.last();
        lemma_discovery_counts_valid(front);
        assert(candidates =~= front.push(last));
        front.lemma_filter_len_push(valid, last);
        front.lemma_filter_len_push(invalid, last);
        assert(workdirs.drop_last() =~= front.map_values(
            |candidate: Option<Repository>| workdir_of(candidate),
        ));
        assert(workdirs.last() == workdir_of(last));
    }
}

/// The working directories that are discovered do not depend on the order
/// in which the walk comes by the markers, but for their own order.
pub proof fn lemma_discovery_ignores_order(
    first: Seq<Option<Repository>>,
    second: Seq<Option<Repository>>,
)
    requires
        first.to_multiset() == second.to_multiset(),
    ensures
        discovered(first).to_multiset() == discovered(second).to_multiset(),
{
    let workdir = |candidate: Option<Repository>| workdir_of(candidate);
    let workdirs = |candidates: Seq<Option<Repository>>| candidates.map_values(workdir);
    let keep = |candidates: Seq<Option<Seq<char>>>| opened(candidates);
    lemma_map_values_is_piecewise(workdir);
    lemma_piecewise_keeps_items(first, second, workdirs);
    lemma_opened_is_piecewise::<Seq<char>>();
    lemma_piecewise_keeps_items(workdirs(first), workdirs(second), keep);
}

/// The pattern by which the walk knows the marker of a repository: a
/// directory of the name `.git`, at any depth.
pub fn marker_pattern() -> (pattern: &'static str)
    ensures
        pattern@ == "**/.git/"@,
{
    "**/.git/"
}

/// The working directories of the candidates that are valid repositories.
/// A candidate that did not open, or has no working directory, is passed
/// over without a trace.
pub fn working_directories(candidates: &Vec<Option<Repository>>) -> (paths: Vec<String>)
    ensures
        texts(paths@) == discovered(candidates@),
{
    let ghost workdirs = candidates@.map_values(
        |candidate: Option<Repository>| workdir_of(candidate),
    );
    let mut paths: Vec<String> = Vec::new();
    let mut i: usize = 0;
    proof {
        assert(texts(paths@) =~= opened(workdirs.take(0)));
    }
    while i < candidates.len()
        invariant
            i <= candidates.len(),
            workdirs == candidates@.map_values(
                |candidate: Option<Repository>| workdir_of(candidate),
            ),
            texts(paths@) == opened(workdirs.take(i as int)),
        decreases candidates.len() - i,
    {
        let ghost before = paths@;
        proof {
            assert(workdirs.take(i + 1).drop_last() =~= workdirs.take(i as int));
            assert(workdirs.take(i + 1).last() == workdir_of(candidates@[i as int]));
        }
        match &candidates[i] {
            Some(repository) => {
                match &repository.workdir {
                    Some(path) => {
                        paths.push(path.clone());
                        proof {
                            assert(texts(paths@) =~= texts(before).push(path@));
                        }
                    },
                    None => {},
                }
            },
            None => {},
        }
        i = i + 1;
    }
    proof {
        assert(workdirs.take(i as int) =~= workdirs);
    }
    paths
}

} // verus!
