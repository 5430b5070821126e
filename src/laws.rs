use vstd::prelude::*;

use crate::lines::lines;
use crate::search::{lowered, matching_lines, matching_lines_ignore_case};
use crate::text::{has_substring, occurs_at};

verus! {

proof fn lemma_filter_keeps_all<A>(s: Seq<A>, p: spec_fn(A) -> bool)
    requires
        forall|i: int| 0 <= i < s.len() ==> p(s[i]),
    ensures
        s.filter(p) == s,
    decreases s.len(),
{
    reveal(Seq::filter);
    if s.len() > 0 {
        lemma_filter_keeps_all(s.drop_last(), p);
        assert(s.drop_last().push(s.last()) =~= s);
    }
}

proof fn lemma_filter_drops_all<A>(s: Seq<A>, p: spec_fn(A) -> bool)
    requires
        forall|i: int| 0 <= i < s.len() ==> !p(s[i]),
    ensures
        s.filter(p) == Seq::<A>::empty(),
    decreases s.len(),
{
    reveal(Seq::filter);
    if s.len() > 0 {
        lemma_filter_drops_all(s.drop_last(), p);
    }
}

/// Filtering by a weaker test first changes nothing.
proof fn lemma_filter_weaker_first<A>(s: Seq<A>, weak: spec_fn(A) -> bool, strong: spec_fn(A) -> bool)
    requires
        forall|i: int| 0 <= i < s.len() && strong(s[i]) ==> weak(s[i]),
    ensures
        s.filter(weak).filter(strong) == s.filter(strong),
    decreases s.len(),
{
    reveal(Seq::filter);
    if s.len() > 0 {
        lemma_filter_weaker_first(s.drop_last(), weak, strong);
        if weak(s.last()) {
            assert(s.filter(weak).drop_last() =~= s.drop_last().filter(weak));
        }
    }
}

/// Exact search keeps precisely the lines that contain the query: each line
/// it returns is a line of the contents that holds the query, and each line
/// of the contents that holds the query is returned.
pub proof fn lemma_exact_search_precise(query: Seq<char>, contents: Seq<char>)
    ensures
        forall|i: int|
            0 <= i < matching_lines(query, contents).len() ==> {
                let l = #[trigger] matching_lines(query, contents)[i];
                has_substring(l, query) && lines(contents).contains(l)
            },
        forall|i: int|
            0 <= i < lines(contents).len() && has_substring(lines(contents)[i], query)
                ==> matching_lines(query, contents).contains(#[trigger] lines(contents)[i]),
{
    broadcast use vstd::seq_lib::group_filter_ensures;

    let p = |l: Seq<char>| has_substring(l, query);
    assert forall|i: int| 0 <= i < matching_lines(query, contents).len() implies lines(
        contents,
    ).contains(#[trigger] matching_lines(query, contents)[i]) by {
        lines(contents).lemma_filter_contains_rev(p, matching_lines(query, contents)[i]);
    }
}

/// Search with case ignored returns every line that exact search returns, in
/// the same order, among lines that match only once lowercased; each line it
/// returns is a line of the contents as it stands. This holds wherever
/// lowercasing keeps an exact match, which `str::to_lowercase` does not do
/// for every text (a final capital sigma lowers to a final small sigma).
pub proof fn lemma_ignore_case_extends_exact(query: Seq<char>, contents: Seq<char>)
    requires
        forall|i: int|
            0 <= i < lines(contents).len() && has_substring(#[trigger] lines(contents)[i], query)
                ==> has_substring(lowered(lines(contents)[i]), lowered(query)),
    ensures
        matching_lines_ignore_case(query, contents).filter(|l: Seq<char>| has_substring(l, query))
            == matching_lines(query, contents),
        forall|i: int|
            0 <= i < matching_lines_ignore_case(query, contents).len() ==> lines(contents).contains(
                #[trigger] matching_lines_ignore_case(query, contents)[i],
            ),
{
    let weak = |l: Seq<char>| has_substring(lowered(l), lowered(query));
    let strong = |l: Seq<char>| has_substring(l, query);
    lemma_filter_weaker_first(lines(contents), weak, strong);
    assert forall|i: int| 0 <= i < matching_lines_ignore_case(query, contents).len() implies lines(
        contents,
    ).contains(#[trigger] matching_lines_ignore_case(query, contents)[i]) by {
        lines(contents).lemma_filter_contains_rev(
            weak,
            matching_lines_ignore_case(query, contents)[i],
        );
    }
}

/// The result of a search depends on the query and the contents alone: two
/// searches on the same inputs, in the same mode, give the same lines in the
/// same order.
pub proof fn lemma_search_repeatable(
    query1: Seq<char>,
    contents1: Seq<char>,
    query2: Seq<char>,
    contents2: Seq<char>,
)
    requires
        query1 == query2,
        contents1 == contents2,
    ensures
        matching_lines(query1, contents1) == matching_lines(query2, contents2),
        matching_lines_ignore_case(query1, contents1) == matching_lines_ignore_case(
            query2,
            contents2,
        ),
{
}

/// The empty query matches every line, in both modes.
pub proof fn lemma_empty_query_matches_all(contents: Seq<char>)
    ensures
        matching_lines(Seq::empty(), contents) == lines(contents),
        matching_lines_ignore_case(Seq::empty(), contents) == lines(contents),
{
    let e = Seq::<char>::empty();
    let ls = lines(contents);
    assert forall|i: int| 0 <= i < ls.len() implies has_substring(ls[i], e) by {
        assert(ls[i].subrange(0, 0) =~= e);
        assert(occurs_at(ls[i], e, 0));
    }
    assert forall|i: int| 0 <= i < ls.len() implies has_substring(lowered(ls[i]), lowered(e)) by {
        assert(lowered(ls[i]).subrange(0, 0) =~= e);
        assert(occurs_at(lowered(ls[i]), lowered(e), 0));
    }
    lemma_filter_keeps_all(ls, |l: Seq<char>| has_substring(l, e));
    lemma_filter_keeps_all(ls, |l: Seq<char>| has_substring(lowered(l), lowered(e)));
}

/// A query found in no line gives no line, not a failure, in both modes.
pub proof fn lemma_absent_query_matches_none(query: Seq<char>, contents: Seq<char>)
    ensures
        (forall|i: int| 0 <= i < lines(contents).len() ==> !has_substring(#[trigger] lines(contents)[i], query))
            ==> matching_lines(query, contents) == Seq::<Seq<char>>::empty(),
        (forall|i: int|
            0 <= i < lines(contents).len() ==> !has_substring(
                lowered(#[trigger] lines(contents)[i]),
                lowered(query),
            )) ==> matching_lines_ignore_case(query, contents) == Seq::<Seq<char>>::empty(),
{
    let ls = lines(contents);
    if forall|i: int| 0 <= i < ls.len() ==> !has_substring(#[trigger] ls[i], query) {
        lemma_filter_drops_all(ls, |l: Seq<char>| has_substring(l, query));
    }
    if forall|i: int| 0 <= i < ls.len() ==> !has_substring(lowered(#[trigger] ls[i]), lowered(query)) {
        lemma_filter_drops_all(ls, |l: Seq<char>| has_substring(lowered(l), lowered(query)));
    }
}

} // verus!
