use vstd::prelude::*;

verus! {

/// Number of characters before the first newline of `s`; all of them when
/// `s` holds no newline.
pub open spec fn line_len(s: Seq<char>) -> nat
    decreases s.len(),
{
    if s.len() == 0 || s[0] == '\n' {
        0
    } else {
        1 + line_len(s.drop_first())
    }
}

/// A line taken up to its newline, without a carriage return that stood
/// right before that newline.
pub open spec fn trim_cr(l: Seq<char>) -> Seq<char> {
    if l.len() > 0 && l.last() == '\r' {
        l.drop_last()
    } else {
        l
    }
}

/// The lines of `s`: split at each `\n` or `\r\n`, terminators removed. The
/// final line ending is optional, so a text that ends with one has no empty
/// last line, and the empty text has no line at all.
pub open spec fn lines(s: Seq<char>) -> Seq<Seq<char>>
    decreases s.len(),
{
    if s.len() == 0 {
        seq![]
    } else {
        let n = line_len(s);
        if n >= s.len() {
            seq![s]
        } else {
            seq![trim_cr(s.take(n as int))] + lines(s.skip(n + 1 as int))
        }
    }
}

proof fn lemma_line_len_no_newline(s: Seq<char>)
    requires
        !s.contains('\n'),
    ensures
        line_len(s) == s.len(),
    decreases s.len(),
{
    if s.len() > 0 {
        assert(s[0] != '\n');
        assert forall|i: int| 0 <= i < s.drop_first().len() implies s.drop_first()[i] != '\n' by {
            assert(s.drop_first()[i] == s[i + 1]);
        }
        lemma_line_len_no_newline(s.drop_first());
    }
}

proof fn lemma_line_len_split(a: Seq<char>, b: Seq<char>)
    requires
        !a.contains('\n'),
    ensures
        line_len(a + seq!['\n'] + b) == a.len(),
    decreases a.len(),
{
    let s = a + seq!['\n'] + b;
    if a.len() == 0 {
        assert(s[0] == '\n');
    } else {
        assert(s[0] == a[0]);
        assert forall|i: int| 0 <= i < a.drop_first().len() implies a.drop_first()[i] != '\n' by {
            assert(a.drop_first()[i] == a[i + 1]);
        }
        assert(s.drop_first() =~= a.drop_first() + seq!['\n'] + b);
        lemma_line_len_split(a.drop_first(), b);
    }
}

/// The lines of a text with no newline: none when it is empty, else itself.
proof fn lemma_lines_last(s: Seq<char>)
    requires
        !s.contains('\n'),
    ensures
        lines(s) == (if s.len() == 0 { Seq::<Seq<char>>::empty() } else { seq![s] }),
{
    lemma_line_len_no_newline(s);
}

/// The lines of a text cut at its first newline.
proof fn lemma_lines_split(a: Seq<char>, b: Seq<char>)
    requires
        !a.contains('\n'),
    ensures
        lines(a + seq!['\n'] + b) == seq![trim_cr(a)] + lines(b),
{
    let s = a + seq!['\n'] + b;
    lemma_line_len_split(a, b);
    assert(s.take(a.len() as int) =~= a);
    assert(s.skip(a.len() + 1 as int) =~= b);
}

/// Relies on `str::split_once`: splits at the first occurrence of the
/// delimiter, which is in neither part.
#[verifier::external_body]
fn split_at_newline<'a>(s: &'a str) -> (r: Option<(&'a str, &'a str)>)
    ensures
        match r {
            None => !s@.contains('\n'),
            Some((a, b)) => s@ == a@ + seq!['\n'] + b@ && !a@.contains('\n'),
        },
{
    s.split_once('\n')
}

/// `l` without a final carriage return.
fn trim_line_end<'a>(l: &'a str) -> (r: &'a str)
    ensures
        r@ == trim_cr(l@),
{
    let n = l.unicode_len();
    if n > 0 && l.get_char(n - 1) == '\r' {
        l.substring_char(0, n - 1)
    } else {
        l
    }
}

/// The lines of `contents`, as slices of it.
pub fn split_lines<'a>(contents: &'a str) -> (r: Vec<&'a str>)
    ensures
        r.deep_view() == lines(contents@),
{
    let mut out: Vec<&'a str> = Vec::new();
    let mut rest: &'a str = contents;
    loop
        invariant
            lines(contents@) == out.deep_view() + lines(rest@),
        decreases rest@.len(),
    {
        match split_at_newline(rest) {
            None => {
                proof {
                    lemma_lines_last(rest@);
                }
                if rest.unicode_len() > 0 {
                    let ghost prev = out.deep_view();
                    out.push(rest);
                    assert(out.deep_view() =~= prev + seq![rest@]);
                } else {
                    assert(out.deep_view() + lines(rest@) =~= out.deep_view());
                }
                return out;
            },
            Some((a, b)) => {
                proof {
                    lemma_lines_split(a@, b@);
                }
                let line = trim_line_end(a);
                let ghost prev = out.deep_view();
                out.push(line);
                assert(out.deep_view() =~= prev.push(line@));
                assert(prev + lines(rest@) =~= out.deep_view() + lines(b@));
                rest = b;
            },
        }
    }
}

} // verus!
