use vstd::prelude::*;

use crate::lines::{lines, split_lines};
use crate::text::{chars_of, contains_chars, contains_str, has_substring};

verus! {

/// What `str::to_lowercase` makes of a text.
pub uninterp spec fn lower_of(s: Seq<char>) -> Seq<char>;

/// The lowercase form of a text: empty for the empty text, else what
/// `str::to_lowercase` makes of it.
pub open spec fn lowered(s: Seq<char>) -> Seq<char> {
    if s.len() == 0 {
        Seq::empty()
    } else {
        lower_of(s)
    }
}

/// Relies on `str::to_lowercase`: the lowercase equivalent of a text, which
/// depends on its characters alone; the empty text stays empty.
#[verifier::external_body]
fn lowercase(s: &str) -> (r: String)
    ensures
        s@.len() > 0 ==> r@ == lower_of(s@),
        s@.len() == 0 ==> r@ == Seq::<char>::empty(),
{
    s.to_lowercase()
}

/// The lines of `contents` that hold `query` exactly, in their order.
pub open spec fn matching_lines(query: Seq<char>, contents: Seq<char>) -> Seq<Seq<char>> {
    lines(contents).filter(|l: Seq<char>| has_substring(l, query))
}

/// The lines of `contents` whose lowercase form holds the lowercase form of
/// `query`, in their order and as they stand in `contents`.
pub open spec fn matching_lines_ignore_case(query: Seq<char>, contents: Seq<char>) -> Seq<
    Seq<char>,
> {
    lines(contents).filter(|l: Seq<char>| has_substring(lowered(l), lowered(query)))
}

/// Filtering a prefix one element longer.
proof fn lemma_filter_take_step<A>(s: Seq<A>, i: int, p: spec_fn(A) -> bool)
    requires
        0 <= i < s.len(),
    ensures
        s.take(i + 1).filter(p) == (if p(s[i]) {
            s.take(i).filter(p).push(s[i])
        } else {
            s.take(i).filter(p)
        }),
{
    reveal(Seq::filter);
    assert(s.take(i + 1).drop_last() =~= s.take(i));
}

/// The lines of `contents` that contain `query`, compared character for
/// character.
pub fn search_case_sensitive<'a>(query: &str, contents: &'a str) -> (r: Vec<&'a str>)
    ensures
        r.deep_view() == matching_lines(query@, contents@),
{
    let all = split_lines(contents);
    let q = chars_of(query);
    let ghost ls = all.deep_view();
    let ghost p = |l: Seq<char>| has_substring(l, query@);
    let mut out: Vec<&'a str> = Vec::new();
    for i in 0..all.len()
        invariant
            ls == all.deep_view(),
            ls == lines(contents@),
            p == (|l: Seq<char>| has_substring(l, query@)),
            q@ == query@,
            out.deep_view() == ls.take(i as int).filter(p),
    {
        let line = all[i];
        let l = chars_of(line);
        proof {
            lemma_filter_take_step(ls, i as int, p);
        }
        if contains_chars(&l, &q) {
            let ghost prev = out.deep_view();
            out.push(line);
            assert(out.deep_view() =~= prev.push(line@));
        }
    }
    assert(ls.take(all.len() as int) =~= ls);
    out
}

/// The lines of `contents` that contain `query` once both are lowercased.
/// The lines are returned as they stand in `contents`.
pub fn search_case_insensitive<'a>(query: &str, contents: &'a str) -> (r: Vec<&'a str>)
    ensures
        r.deep_view() == matching_lines_ignore_case(query@, contents@),
{
    let all = split_lines(contents);
    let q = lowercase(query);
    let ghost ls = all.deep_view();
    let ghost p = |l: Seq<char>| has_substring(lowered(l), lowered(query@));
    let mut out: Vec<&'a str> = Vec::new();
    for i in 0..all.len()
        invariant
            ls == all.deep_view(),
            ls == lines(contents@),
            p == (|l: Seq<char>| has_substring(lowered(l), lowered(query@))),
            q@ == lowered(query@),
            out.deep_view() == ls.take(i as int).filter(p),
    {
        let line = all[i];
        let l = lowercase(line);
        proof {
            lemma_filter_take_step(ls, i as int, p);
        }
        if contains_str(l.as_str(), q.as_str()) {
            let ghost prev = out.deep_view();
            out.push(line);
            assert(out.deep_view() =~= prev.push(line@));
        }
    }
    assert(ls.take(all.len() as int) =~= ls);
    out
}

/// The lines of `contents` that contain `query`, with case ignored when
/// `ignore_case` holds.
pub fn search<'a>(query: &str, contents: &'a str, ignore_case: bool) -> (r: Vec<&'a str>)
    ensures
        r.deep_view() == (if ignore_case {
            matching_lines_ignore_case(query@, contents@)
        } else {
            matching_lines(query@, contents@)
        }),
{
    if ignore_case {
        search_case_insensitive(query, contents)
    } else {
        search_case_sensitive(query, contents)
    }
}

} // verus!
