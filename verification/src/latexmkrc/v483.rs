use vstd::prelude::*;

use crate::scan::{find_from, first_match, matches_at, occurs_at, starts_with, unquote, unquote_range};
use crate::scan::{lines, text_lines};
use crate::text::chars_of;

verus! {

/// The directories that a report line of `latexmk -dir-report` (before
/// version 4.84) names: after the prefix `Latexmk: Normalized aux dir and
/// out dir: ` come exactly two quoted directories separated by `, `.
pub open spec fn report_line_dirs(line: Seq<char>) -> Option<(Seq<char>, Seq<char>)> {
    let prefix = "Latexmk: Normalized aux dir and out dir: "@;
    let sep = ", "@;
    if !starts_with(line, prefix) {
        None
    } else {
        let rest = line.skip(prefix.len() as int);
        let i = first_match(rest, sep);
        if i < 0 {
            None
        } else {
            let second = rest.skip(i + sep.len());
            if first_match(second, sep) >= 0 {
                None
            } else {
                match (unquote(rest.take(i)), unquote(second)) {
                    (Some(aux), Some(out)) => Some((aux, out)),
                    _ => None,
                }
            }
        }
    }
}

/// Extracts the aux and the out directory from a line of the form
///
///   Latexmk: Normalized aux dir and out dir: '$aux_dir', '$out_dir'
pub fn extract_dirs(line: &str) -> (r: Option<(String, String)>)
    ensures
        match r {
            Some((aux, out)) => report_line_dirs(line@) == Some((aux@, out@)),
            None => report_line_dirs(line@) is None,
        },
{
    let s = chars_of(line);
    let prefix = chars_of("Latexmk: Normalized aux dir and out dir: ");
    let sep = chars_of(", ");
    proof {
        assert(s@.skip(0) =~= s@);
    }
    if !matches_at(&s, 0, &prefix) {
        return None;
    }
    let start = prefix.len();
    let ghost rest = s@.skip(start as int);
    let i = match find_from(&s, start, &sep) {
        Some(i) => i,
        None => return None,
    };
    proof {
        crate::scan::lemma_first_match_bound(rest, sep@);
        assert(rest.skip(i + sep@.len()) =~= s@.skip(start + i + sep@.len()));
        assert(rest.take(i as int) =~= s@.subrange(start as int, start + i));
    }
    let second = start + i + sep.len();
    if find_from(&s, second, &sep).is_some() {
        return None;
    }
    let aux = match unquote_range(&s, start, start + i) {
        Some(a) => a,
        None => return None,
    };
    let out = match unquote_range(&s, second, s.len()) {
        Some(o) => o,
        None => return None,
    };
    proof {
        assert(s@.subrange(second as int, s@.len() as int) =~= s@.skip(second as int));
    }
    Some((aux, out))
}

/// `s` between single quotes.
pub open spec fn quoted(s: Seq<char>) -> Seq<char> {
    seq!['\''] + s + seq!['\'']
}

/// A quoted text holds `, ` only where the text itself does.
proof fn lemma_quoted_no_sep(s: Seq<char>)
    requires
        first_match(s, ", "@) < 0,
    ensures
        forall|j: int| #![trigger occurs_at(quoted(s), ", "@, j)] !occurs_at(quoted(s), ", "@, j),
{
    reveal_strlit(", ");
    let q = quoted(s);
    crate::scan::lemma_first_match_least(s, ", "@);
    assert forall|j: int| #![trigger occurs_at(quoted(s), ", "@, j)] !occurs_at(q, ", "@, j) by {
        if occurs_at(q, ", "@, j) {
            assert(q.subrange(j, j + 2)[0] == q[j]);
            assert(q.subrange(j, j + 2)[1] == q[j + 1]);
            if 1 <= j && j + 1 <= s.len() {
                assert(s.subrange(j - 1, j + 1) =~= q.subrange(j, j + 2));
                assert(occurs_at(s, ", "@, j - 1));
            }
        }
    }
}

/// A line of the documented form gives back the two directories it names,
/// whenever neither of them holds `, `.
pub proof fn lemma_report_line_round_trip(aux: Seq<char>, out: Seq<char>)
    requires
        first_match(aux, ", "@) < 0,
        first_match(out, ", "@) < 0,
    ensures
        report_line_dirs(
            "Latexmk: Normalized aux dir and out dir: "@ + quoted(aux) + ", "@ + quoted(out),
        ) == Some((aux, out)),
{
    reveal_strlit(", ");
    let prefix = "Latexmk: Normalized aux dir and out dir: "@;
    let sep = ", "@;
    let qa = quoted(aux);
    let qb = quoted(out);
    let line = prefix + qa + sep + qb;
    assert(line.take(prefix.len() as int) =~= prefix);
    let rest = line.skip(prefix.len() as int);
    assert(rest =~= qa + sep + qb);
    lemma_quoted_no_sep(aux);
    lemma_quoted_no_sep(out);
    crate::scan::lemma_first_match_least(rest, sep);
    crate::scan::lemma_first_match_least(qb, sep);
    assert(rest.subrange(qa.len() as int, qa.len() + 2int) =~= sep);
    assert(occurs_at(rest, sep, qa.len() as int));
    assert forall|j: int| 0 <= j < qa.len() implies !#[trigger] occurs_at(rest, sep, j) by {
        if occurs_at(rest, sep, j) {
            assert(rest.subrange(j, j + 2)[0] == rest[j]);
            assert(rest.subrange(j, j + 2)[1] == rest[j + 1]);
            if j + 1 < qa.len() {
                assert(qa.subrange(j, j + 2) =~= rest.subrange(j, j + 2));
                assert(occurs_at(qa, sep, j));
            } else {
                assert(rest[j] == '\'');
            }
        }
    }
    let i = first_match(rest, sep);
    assert(i == qa.len());
    assert(rest.skip(i + sep.len()) =~= qb);
    assert(rest.take(i) =~= qa);
    assert(qa.subrange(1, qa.len() - 1) =~= aux);
    assert(qb.subrange(1, qb.len() - 1) =~= out);
}

/// The directories that the first report line among `ls` names.
pub open spec fn first_report_line_dirs(ls: Seq<Seq<char>>) -> Option<(Seq<char>, Seq<char>)>
    decreases ls.len(),
{
    if ls.len() == 0 {
        None
    } else {
        match report_line_dirs(ls[0]) {
            Some(d) => Some(d),
            None => first_report_line_dirs(ls.drop_first()),
        }
    }
}

/// Extracts the aux and the out directory from the first report line of
/// the output of `latexmk -dir-report`.
pub fn extract_dirs_from_output(output: &str) -> (r: Option<(String, String)>)
    ensures
        match r {
            Some((aux, out)) => first_report_line_dirs(text_lines(output@)) == Some((aux@, out@)),
            None => first_report_line_dirs(text_lines(output@)) is None,
        },
{
    let ls = lines(output);
    let ghost all = text_lines(output@);
    let mut i: usize = 0;
    assert(all.skip(0) =~= all);
    while i < ls.len()
        invariant
            i <= ls@.len(),
            ls@.len() == all.len(),
            all == text_lines(output@),
            forall|j: int| 0 <= j < ls@.len() ==> (#[trigger] ls@[j])@ == all[j],
            first_report_line_dirs(all) == first_report_line_dirs(all.skip(i as int)),
        decreases ls.len() - i,
    {
        proof {
            assert(all.skip(i as int)[0] == all[i as int]);
            assert(all.skip(i as int).drop_first() =~= all.skip(i + 1));
        }
        match extract_dirs(ls[i].as_str()) {
            Some(d) => return Some(d),
            None => {},
        }
        i += 1;
    }
    None
}

} // verus!
