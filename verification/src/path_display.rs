//! Display names of repository paths: absolute, or relative to the scanned
//! root, without trailing separators. Lengths and positions count characters,
//! never bytes.

use vstd::prelude::*;
use vstd::string::*;

verus! {

/// The character that separates the segments of a path.
pub open spec fn separator() -> char {
    '/'
}

/// `s` without the separators at its end.
pub open spec fn trim_trailing_separators(s: Seq<char>) -> Seq<char>
    decreases s.len(),
{
    if s.len() > 0 && s.last() == separator() {
        trim_trailing_separators(s.drop_last())
    } else {
        s
    }
}

/// `s` without its first `n` characters; empty where it has no more than `n`.
pub open spec fn without_prefix(s: Seq<char>, n: nat) -> Seq<char> {
    if n >= s.len() {
        Seq::empty()
    } else {
        s.subrange(n as int, s.len() as int)
    }
}

/// The display name of `path`: the path itself where absolute paths are
/// shown, else what follows the base path of `base_path_len` characters and
/// the one separator behind it; in both cases without trailing separators.
pub open spec fn display_name(path: Seq<char>, show_absolute_path: bool, base_path_len: nat) -> Seq<
    char,
> {
    if show_absolute_path {
        trim_trailing_separators(path)
    } else {
        trim_trailing_separators(without_prefix(path, base_path_len + 1))
    }
}

/// Trimming stops at the first position from the end that holds no separator:
/// whatever was cut off consisted of separators only.
pub proof fn lemma_trim_subrange(s: Seq<char>, start: int, end: int)
    requires
        0 <= start <= end <= s.len(),
        forall|i: int| end <= i < s.len() ==> s[i] == separator(),
    ensures
        trim_trailing_separators(s.subrange(start, s.len() as int)) == trim_trailing_separators(
            s.subrange(start, end),
        ),
    decreases s.len() - end,
{
    if end < s.len() {
        let whole = s.subrange(start, s.len() as int);
        assert(whole.last() == separator());
        assert(whole.drop_last() =~= s.drop_last().subrange(start, s.len() - 1));
        lemma_trim_subrange(s.drop_last(), start, end);
        assert(s.drop_last().subrange(start, end) =~= s.subrange(start, end));
    } else {
        assert(s.subrange(start, end) =~= s.subrange(start, s.len() as int));
    }
}

/// Computes the display name of one path.
pub fn cut(path: &str, show_absolute_path: bool, base_path_len: usize) -> (name: String)
    ensures
        name@ == display_name(path@, show_absolute_path, base_path_len as nat),
{
    let len: usize = path.unicode_len();
    let start: usize = if show_absolute_path {
        0
    } else if base_path_len >= len {
        len
    } else {
        base_path_len + 1
    };
    let mut end: usize = len;
    while end > start && path.get_char(end - 1) == '/'
        invariant
            start <= end <= len,
            len == path@.len(),
            forall|i: int| end <= i < len ==> path@[i] == separator(),
        decreases end,
    {
        end = end - 1;
    }
    proof {
        lemma_trim_subrange(path@, start as int, end as int);
        let kept = path@.subrange(start as int, end as int);
        assert(trim_trailing_separators(kept) == kept);
        if show_absolute_path {
            assert(path@.subrange(0, len as int) =~= path@);
        } else if base_path_len >= len {
            assert(path@.subrange(len as int, len as int) =~= Seq::<char>::empty());
        }
    }
    path.substring_char(start, end).to_owned()
}

/// The display name of `path` beneath `base_path`.
pub fn render(path: &str, base_path: &str, show_absolute: bool) -> (name: String)
    ensures
        name@ == display_name(path@, show_absolute, base_path@.len()),
{
    cut(path, show_absolute, base_path.unicode_len())
}

/// What trimming leaves is the beginning of the text, does not end in a
/// separator, and is followed by separators only.
pub proof fn lemma_trim_is_prefix(s: Seq<char>)
    ensures
        trim_trailing_separators(s).len() <= s.len(),
        trim_trailing_separators(s) == s.take(trim_trailing_separators(s).len() as int),
        trim_trailing_separators(s).len() == 0 || trim_trailing_separators(s).last()
            != separator(),
        forall|i: int| trim_trailing_separators(s).len() <= i < s.len() ==> s[i] == separator(),
    decreases s.len(),
{
    if s.len() > 0 && s.last() == separator() {
        lemma_trim_is_prefix(s.drop_last());
        let kept = trim_trailing_separators(s.drop_last());
        assert(s.drop_last().take(kept.len() as int) =~= s.take(kept.len() as int));
        assert forall|i: int| kept.len() <= i < s.len() implies s[i] == separator() by {
            if i < s.len() - 1 {
                assert(s.drop_last()[i] == s[i]);
            }
        }
    } else {
        assert(s.take(s.len() as int) =~= s);
    }
}

/// For a path that lies beneath the base path, which is the base path, one
/// separator and a rest: shown absolute, its display name is the whole path,
/// and shown relative, it is the rest; in both cases without trailing
/// separators.
pub proof fn lemma_render_beneath_base(base_path: Seq<char>, rest: Seq<char>)
    ensures
        display_name(base_path + seq![separator()] + rest, true, base_path.len())
            == trim_trailing_separators(base_path + seq![separator()] + rest),
        display_name(base_path + seq![separator()] + rest, false, base_path.len())
            == trim_trailing_separators(rest),
{
    let path = base_path + seq![separator()] + rest;
    if rest.len() == 0 {
        assert(rest =~= Seq::<char>::empty());
    } else {
        assert(without_prefix(path, base_path.len() + 1) =~= rest);
    }
}

/// The round trip of a path that lies strictly beneath the base path and
/// does not end in a separator: shown absolute, its display name is the
/// untouched path; shown relative, it is the path without the base path and
/// the one separator behind it.
pub proof fn lemma_render_round_trip(base_path: Seq<char>, rest: Seq<char>)
    requires
        rest.len() > 0,
        rest.last() != separator(),
    ensures
        display_name(base_path + seq![separator()] + rest, true, base_path.len()) == base_path
            + seq![separator()] + rest,
        display_name(base_path + seq![separator()] + rest, false, base_path.len()) == rest,
{
    lemma_render_beneath_base(base_path, rest);
    let path = base_path + seq![separator()] + rest;
    assert(path.last() == rest.last());
}

/// A path that is no longer than the base path has the empty display name
/// where names are shown relative.
pub proof fn lemma_short_path_renders_empty(path: Seq<char>, base_path_len: nat)
    requires
        path.len() <= base_path_len,
    ensures
        display_name(path, false, base_path_len) == Seq::<char>::empty(),
{
}

/// The function that maps a path to its display name, for one choice of
/// absolute or relative display and one length of the base path.
pub fn cut_path(show_absolute_path: bool, base_path_len: usize) -> (render: impl Fn(&str) -> String)
    ensures
        forall|path: &str| render.requires((path,)),
        forall|path: &str, name: String|
            render.ensures((path,), name) ==> name@ == display_name(
                path@,
                show_absolute_path,
                base_path_len as nat,
            ),
{
    move |path: &str| -> (name: String)
        ensures
            name@ == display_name(path@, show_absolute_path, base_path_len as nat),
        { cut(path, show_absolute_path, base_path_len) }
}

} // verus!
