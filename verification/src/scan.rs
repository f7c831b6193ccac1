use vstd::prelude::*;

use crate::text::{chars_of, string_of_range};

verus! {

/// The number of characters before the first line feed of `s` (all of `s`
/// when it holds none).
pub open spec fn line_len(s: Seq<char>) -> nat
    decreases s.len(),
{
    if s.len() == 0 || s[0] == '\n' {
        0
    } else {
        1 + line_len(s.drop_first())
    }
}

/// `s` without one carriage return at its end, if it has one.
pub open spec fn strip_cr(s: Seq<char>) -> Seq<char> {
    if s.len() > 0 && s.last() == '\r' {
        s.drop_last()
    } else {
        s
    }
}

/// The lines of `s`, as `str::lines` gives them: split after each line feed,
/// the line feed dropped and then one carriage return before it; a final
/// line feed ends the last line and starts no new one.
pub open spec fn text_lines(s: Seq<char>) -> Seq<Seq<char>>
    decreases s.len(),
{
    if s.len() == 0 {
        Seq::empty()
    } else if line_len(s) >= s.len() {
        seq![s]
    } else {
        seq![strip_cr(s.take(line_len(s) as int))] + text_lines(s.skip(line_len(s) + 1int))
    }
}

/// The least position at which `sep` occurs in `s`, or -1 when it does not
/// occur.
pub open spec fn first_match(s: Seq<char>, sep: Seq<char>) -> int
    decreases s.len(),
{
    if s.len() < sep.len() {
        -1
    } else if s.take(sep.len() as int) == sep {
        0
    } else if s.len() == 0 {
        -1
    } else {
        let r = first_match(s.drop_first(), sep);
        if r < 0 {
            -1
        } else {
            r + 1
        }
    }
}

/// Whether `s` starts with `prefix`.
pub open spec fn starts_with(s: Seq<char>, prefix: Seq<char>) -> bool {
    prefix.len() <= s.len() && s.take(prefix.len() as int) == prefix
}

/// `p` without the single quotes around it, when it has them: what
/// `strip_prefix('\'')` and then `strip_suffix('\'')` give.
pub open spec fn unquote(p: Seq<char>) -> Option<Seq<char>> {
    if p.len() >= 2 && p[0] == '\'' && p.last() == '\'' {
        Some(p.subrange(1, p.len() - 1))
    } else {
        None
    }
}

proof fn lemma_line_len_step(s: Seq<char>, q: int)
    requires
        0 <= q < s.len(),
        s[q] != '\n',
    ensures
        line_len(s.skip(q)) == 1 + line_len(s.skip(q + 1)),
{
    assert(s.skip(q).drop_first() =~= s.skip(q + 1));
}

pub proof fn lemma_line_len_bound(s: Seq<char>)
    ensures
        line_len(s) <= s.len(),
        line_len(s) < s.len() ==> s[line_len(s) as int] == '\n',
    decreases s.len(),
{
    if s.len() > 0 && s[0] != '\n' {
        lemma_line_len_bound(s.drop_first());
    }
}

/// The position of the first line feed in `s` at or after `from`, or the
/// length of `s` when there is none.
fn line_end(s: &Vec<char>, from: usize) -> (e: usize)
    requires
        from <= s.len(),
    ensures
        from <= e <= s.len(),
        e - from == line_len(s@.skip(from as int)),
{
    let mut e = from;
    while e < s.len() && s[e] != '\n'
        invariant
            from <= e <= s.len(),
            line_len(s@.skip(from as int)) == (e - from) + line_len(s@.skip(e as int)),
        decreases s.len() - e,
    {
        proof {
            lemma_line_len_step(s@, e as int);
        }
        e += 1;
    }
    proof {
        if e < s.len() {
            assert(s@.skip(e as int)[0] == '\n');
        } else {
            assert(s@.skip(e as int).len() == 0);
        }
    }
    e
}

/// The lines of `text`, as `str::lines` gives them.
pub fn lines(text: &str) -> (r: Vec<String>)
    ensures
        r@.len() == text_lines(text@).len(),
        forall|j: int| 0 <= j < r@.len() ==> (#[trigger] r@[j])@ == text_lines(text@)[j],
{
    let s = chars_of(text);
    let mut r: Vec<String> = Vec::new();
    let mut pos: usize = 0;
    let ghost done: Seq<Seq<char>> = Seq::empty();
    proof {
        assert(s@.skip(0) =~= s@);
        assert(done + text_lines(s@) =~= text_lines(s@));
    }
    while pos < s.len()
        invariant
            pos <= s.len(),
            s@ == text@,
            r@.len() == done.len(),
            forall|j: int| 0 <= j < r@.len() ==> (#[trigger] r@[j])@ == done[j],
            text_lines(text@) == done + text_lines(s@.skip(pos as int)),
        decreases s.len() - pos,
    {
        let ghost rest = s@.skip(pos as int);
        let e = line_end(&s, pos);
        proof {
            lemma_line_len_bound(rest);
        }
        if e == s.len() {
            r.push(string_of_range(&s, pos, e));
            proof {
                assert(s@.subrange(pos as int, e as int) =~= rest);
                assert(text_lines(rest) == seq![rest]);
                done = done.push(rest);
                assert(s@.skip(e as int).len() == 0);
                assert(text_lines(s@.skip(e as int)) =~= Seq::<Seq<char>>::empty());
                assert(done + text_lines(s@.skip(e as int)) =~= done);
            }
            pos = e;
        } else {
            let stop = if e > pos && s[e - 1] == '\r' {
                e - 1
            } else {
                e
            };
            r.push(string_of_range(&s, pos, stop));
            proof {
                let line = rest.take(line_len(rest) as int);
                assert(s@.subrange(pos as int, stop as int) =~= strip_cr(line));
                assert(rest.skip(line_len(rest) + 1int) =~= s@.skip(e + 1));
                assert(text_lines(rest) == seq![strip_cr(line)] + text_lines(s@.skip(e + 1)));
                done = done.push(strip_cr(line));
                assert(text_lines(text@) =~= done + text_lines(s@.skip(e + 1)));
            }
            pos = e + 1;
        }
    }
    proof {
        assert(s@.skip(pos as int).len() == 0);
        assert(text_lines(s@.skip(pos as int)) =~= Seq::<Seq<char>>::empty());
        assert(done + Seq::<Seq<char>>::empty() =~= done);
    }
    r
}

/// Whether `sep` occurs in `s` at position `at`.
pub fn matches_at(s: &Vec<char>, at: usize, sep: &Vec<char>) -> (b: bool)
    requires
        at <= s.len(),
    ensures
        b == starts_with(s@.skip(at as int), sep@),
{
    if sep.len() > s.len() - at {
        return false;
    }
    let mut k: usize = 0;
    while k < sep.len()
        invariant
            k <= sep.len(),
            at + sep.len() <= s.len(),
            forall|q: int| 0 <= q < k ==> s@[at + q] == sep@[q],
        decreases sep.len() - k,
    {
        if s[at + k] != sep[k] {
            proof {
                assert(s@.skip(at as int).take(sep@.len() as int)[k as int] != sep@[k as int]);
            }
            return false;
        }
        k += 1;
    }
    assert(s@.skip(at as int).take(sep@.len() as int) =~= sep@);
    true
}

proof fn lemma_first_match_step(s: Seq<char>, sep: Seq<char>, i: int)
    requires
        0 <= i < s.len(),
        !starts_with(s.skip(i), sep),
    ensures
        first_match(s.skip(i), sep) == (if first_match(s.skip(i + 1), sep) < 0 {
            -1
        } else {
            first_match(s.skip(i + 1), sep) + 1
        }),
{
    assert(s.skip(i).drop_first() =~= s.skip(i + 1));
}

pub proof fn lemma_first_match_bound(s: Seq<char>, sep: Seq<char>)
    ensures
        first_match(s, sep) >= -1,
        first_match(s, sep) >= 0 ==> first_match(s, sep) + sep.len() <= s.len(),
        first_match(s, sep) >= 0 ==> s.subrange(
            first_match(s, sep),
            first_match(s, sep) + sep.len(),
        ) == sep,
    decreases s.len(),
{
    if s.len() >= sep.len() && s.take(sep.len() as int) != sep && s.len() > 0 {
        lemma_first_match_bound(s.drop_first(), sep);
        let r = first_match(s.drop_first(), sep);
        if r >= 0 {
            assert(s.subrange(r + 1, r + 1 + sep.len()) =~= s.drop_first().subrange(
                r,
                r + sep.len(),
            ));
        }
    } else if s.len() >= sep.len() && s.take(sep.len() as int) == sep {
        assert(s.subrange(0, sep.len() as int) =~= s.take(sep.len() as int));
    }
}

/// The least position at or after `from` at which `sep` occurs in `s`,
/// counted from `from`; none when it does not occur there.
pub fn find_from(s: &Vec<char>, from: usize, sep: &Vec<char>) -> (r: Option<usize>)
    requires
        from <= s.len(),
    ensures
        match r {
            Some(i) => first_match(s@.skip(from as int), sep@) == i as int,
            None => first_match(s@.skip(from as int), sep@) < 0,
        },
{
    let mut i = from;
    while i < s.len()
        invariant
            from <= i <= s.len(),
            first_match(s@.skip(from as int), sep@) == (if first_match(s@.skip(i as int), sep@) < 0 {
                -1
            } else {
                first_match(s@.skip(i as int), sep@) + (i - from)
            }),
        decreases s.len() - i,
    {
        if matches_at(s, i, sep) {
            proof {
                assert(s@.skip(i as int).take(sep@.len() as int) == sep@);
            }
            return Some(i - from);
        }
        proof {
            lemma_first_match_step(s@, sep@, i as int);
        }
        i += 1;
    }
    if matches_at(s, i, sep) {
        proof {
            assert(s@.skip(i as int).take(sep@.len() as int) == sep@);
        }
        Some(i - from)
    } else {
        proof {
            let t = s@.skip(i as int);
            assert(t.len() == 0);
            assert(t.len() < sep@.len() || t.take(sep@.len() as int) != sep@);
        }
        None
    }
}

/// `s[from..to]` without the single quotes around it, when it has them.
pub fn unquote_range(s: &Vec<char>, from: usize, to: usize) -> (r: Option<String>)
    requires
        from <= to <= s.len(),
    ensures
        match r {
            Some(t) => unquote(s@.subrange(from as int, to as int)) == Some(t@),
            None => unquote(s@.subrange(from as int, to as int)) is None,
        },
{
    if to - from >= 2 && s[from] == '\'' && s[to - 1] == '\'' {
        let t = string_of_range(s, from + 1, to - 1);
        assert(s@.subrange(from as int, to as int).subrange(1, to - from - 1) =~= s@.subrange(
            from + 1,
            to - 1,
        ));
        Some(t)
    } else {
        None
    }
}

/// Whether `text` starts with `prefix`.
pub fn str_starts_with(text: &str, prefix: &str) -> (b: bool)
    ensures
        b == starts_with(text@, prefix@),
{
    let s = chars_of(text);
    let p = chars_of(prefix);
    let b = matches_at(&s, 0, &p);
    assert(s@.skip(0) =~= s@);
    b
}

/// The bounds of `s[from..to]` without the white space at either end.
pub fn trim_range(s: &Vec<char>, from: usize, to: usize) -> (r: (usize, usize))
    requires
        from <= to <= s.len(),
    ensures
        from <= r.0 <= r.1 <= to,
        s@.subrange(r.0 as int, r.1 as int) == crate::cst_support::trim(
            s@.subrange(from as int, to as int),
        ),
{
    let mut e = to;
    while e > from && crate::text::is_whitespace(s[e - 1])
        invariant
            from <= e <= to <= s.len(),
            crate::cst_support::trim_end(s@.subrange(from as int, e as int))
                == crate::cst_support::trim_end(s@.subrange(from as int, to as int)),
        decreases e,
    {
        assert(s@.subrange(from as int, e as int).drop_last() =~= s@.subrange(from as int, e - 1));
        e -= 1;
    }
    let mut b = from;
    while b < e && crate::text::is_whitespace(s[b])
        invariant
            from <= b <= e <= to <= s.len(),
            crate::cst_support::trim_start(s@.subrange(b as int, e as int))
                == crate::cst_support::trim_start(s@.subrange(from as int, e as int)),
        decreases e - b,
    {
        assert(s@.subrange(b as int, e as int).drop_first() =~= s@.subrange(b + 1, e as int));
        b += 1;
    }
    (b, e)
}

/// Whether `sep` occurs in `s` at position `i`.
pub open spec fn occurs_at(s: Seq<char>, sep: Seq<char>, i: int) -> bool {
    0 <= i && i + sep.len() <= s.len() && s.subrange(i, i + sep.len()) == sep
}

/// `first_match` finds the least position at which `sep` occurs, and -1
/// exactly when it occurs nowhere.
pub proof fn lemma_first_match_least(s: Seq<char>, sep: Seq<char>)
    ensures
        first_match(s, sep) >= 0 ==> occurs_at(s, sep, first_match(s, sep)),
        forall|j: int|
            0 <= j && (first_match(s, sep) < 0 || j < first_match(s, sep)) ==> !#[trigger] occurs_at(
                s,
                sep,
                j,
            ),
    decreases s.len(),
{
    lemma_first_match_bound(s, sep);
    if s.len() < sep.len() {
    } else if s.take(sep.len() as int) == sep {
        assert(s.subrange(0, sep.len() as int) =~= s.take(sep.len() as int));
    } else if s.len() == 0 {
    } else {
        let t = s.drop_first();
        lemma_first_match_least(t, sep);
        assert forall|j: int|
            0 <= j && (first_match(s, sep) < 0 || j < first_match(s, sep)) implies !#[trigger] occurs_at(
            s,
            sep,
            j,
        ) by {
            if j == 0 {
                assert(s.subrange(0, sep.len() as int) =~= s.take(sep.len() as int));
            } else if occurs_at(s, sep, j) {
                assert(t.subrange(j - 1, j - 1 + sep.len()) =~= s.subrange(j, j + sep.len()));
                assert(occurs_at(t, sep, j - 1));
            }
        }
    }
}

} // verus!
