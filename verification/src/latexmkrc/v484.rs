use vstd::prelude::*;

use crate::cst_support::trim;
use crate::scan::{
    find_from, first_match, line_len, lines, occurs_at, starts_with, str_starts_with, strip_cr,
    text_lines, trim_range, unquote, unquote_range,
};
use crate::text::chars_of;

verus! {

/// The position of the first of `ls` that starts with `header`, or -1.
pub open spec fn header_index(ls: Seq<Seq<char>>, header: Seq<char>) -> int
    decreases ls.len(),
{
    if ls.len() == 0 {
        -1
    } else if starts_with(ls[0], header) {
        0
    } else {
        let r = header_index(ls.drop_first(), header);
        if r < 0 {
            -1
        } else {
            r + 1
        }
    }
}

/// The directories that a line of the report names: exactly three fields
/// separated by commas, of which the first and the third, without white
/// space around them, are quoted.
pub open spec fn report_fields_dirs(line: Seq<char>) -> Option<(Seq<char>, Seq<char>)> {
    let sep = ","@;
    let i = first_match(line, sep);
    if i < 0 {
        None
    } else {
        let r1 = line.skip(i + sep.len());
        let j = first_match(r1, sep);
        if j < 0 {
            None
        } else {
            let r2 = r1.skip(j + sep.len());
            if first_match(r2, sep) >= 0 {
                None
            } else {
                match (unquote(trim(line.take(i))), unquote(trim(r2))) {
                    (Some(aux), Some(out)) => Some((aux, out)),
                    _ => None,
                }
            }
        }
    }
}

/// The directories that the output of `latexmk -dir-report-only` (version
/// 4.84 and later) names: the line after the first line that starts with
/// `Latexmk: Normalized aux dir and out dirs:`.
pub open spec fn report_dirs(text: Seq<char>) -> Option<(Seq<char>, Seq<char>)> {
    let ls = text_lines(text);
    let k = header_index(ls, "Latexmk: Normalized aux dir and out dirs:"@);
    if k < 0 || k + 1 >= ls.len() {
        None
    } else {
        report_fields_dirs(ls[k + 1])
    }
}

/// Extracts the aux and the out directory from the report's lines, of the
/// form
///
///   Latexmk: Normalized aux dir and out dirs:
///    '$aux_dir', '$out_dir', [...]
pub fn extract_dirs(text: &str) -> (r: Option<(String, String)>)
    ensures
        match r {
            Some((aux, out)) => report_dirs(text@) == Some((aux@, out@)),
            None => report_dirs(text@) is None,
        },
{
    let ls = lines(text);
    let ghost all = text_lines(text@);
    let header = "Latexmk: Normalized aux dir and out dirs:";
    let mut k: usize = 0;
    proof {
        assert(all.skip(0) =~= all);
    }
    while k < ls.len()
        invariant
            k <= ls@.len(),
            ls@.len() == all.len(),
            forall|j: int| 0 <= j < ls@.len() ==> (#[trigger] ls@[j])@ == all[j],
            header_index(all, header@) == (if header_index(all.skip(k as int), header@) < 0 {
                -1
            } else {
                header_index(all.skip(k as int), header@) + k
            }),
        ensures
            k <= ls@.len(),
            k < ls@.len() ==> starts_with(all[k as int], header@),
            header_index(all, header@) == (if header_index(all.skip(k as int), header@) < 0 {
                -1
            } else {
                header_index(all.skip(k as int), header@) + k
            }),
        decreases ls.len() - k,
    {
        let ghost rest = all.skip(k as int);
        proof {
            assert(rest[0] == all[k as int]);
            assert(rest.drop_first() =~= all.skip(k + 1));
        }
        if str_starts_with(ls[k].as_str(), header) {
            break;
        }
        k += 1;
    }
    if k >= ls.len() {
        proof {
            assert(all.skip(k as int).len() == 0);
        }
        return None;
    }
    assert(all.skip(k as int)[0] == all[k as int]);
    assert(header_index(all, header@) == k);
    if k + 1 >= ls.len() {
        return None;
    }
    fields_dirs(ls[k + 1].as_str())
}

/// The directories that one line of the report names.
fn fields_dirs(line: &str) -> (r: Option<(String, String)>)
    ensures
        match r {
            Some((aux, out)) => report_fields_dirs(line@) == Some((aux@, out@)),
            None => report_fields_dirs(line@) is None,
        },
{
    let s = chars_of(line);
    let sep = chars_of(",");
    proof {
        assert(s@.skip(0) =~= s@);
    }
    let i = match find_from(&s, 0, &sep) {
        Some(i) => i,
        None => return None,
    };
    proof {
        crate::scan::lemma_first_match_bound(s@, sep@);
    }
    let second = i + sep.len();
    let j = match find_from(&s, second, &sep) {
        Some(j) => j,
        None => return None,
    };
    proof {
        assert(s@.skip(i + sep@.len()) =~= s@.skip(second as int));
        crate::scan::lemma_first_match_bound(s@.skip(second as int), sep@);
    }
    let third = second + j + sep.len();
    proof {
        assert(s@.skip(second as int).skip(j + sep@.len()) =~= s@.skip(third as int));
    }
    if find_from(&s, third, &sep).is_some() {
        return None;
    }
    let (a0, a1) = trim_range(&s, 0, i);
    let aux = match unquote_range(&s, a0, a1) {
        Some(a) => a,
        None => return None,
    };
    let (b0, b1) = trim_range(&s, third, s.len());
    let out = match unquote_range(&s, b0, b1) {
        Some(o) => o,
        None => return None,
    };
    proof {
        assert(s@.subrange(0, i as int) =~= s@.take(i as int));
        assert(s@.subrange(third as int, s@.len() as int) =~= s@.skip(third as int));
    }
    Some((aux, out))
}

/// `s` between single quotes.
pub open spec fn quoted(s: Seq<char>) -> Seq<char> {
    seq!['\''] + s + seq!['\'']
}

/// The line feeds of `x` end its first line: when `x` holds none, the
/// first line of `x + y` runs through `x` into `y`.
proof fn lemma_line_len_add(x: Seq<char>, y: Seq<char>)
    requires
        !x.contains('\n'),
    ensures
        line_len(x + y) == x.len() + line_len(y),
    decreases x.len(),
{
    if x.len() > 0 {
        assert((x + y)[0] == x[0]);
        assert((x + y).drop_first() =~= x.drop_first() + y);
        assert(!x.drop_first().contains('\n')) by {
            if x.drop_first().contains('\n') {
                let k = choose|k: int| 0 <= k < x.drop_first().len() && x.drop_first()[k] == '\n';
                assert(x[k + 1] == '\n');
            }
        }
        lemma_line_len_add(x.drop_first(), y);
    } else {
        assert(x + y =~= y);
    }
}

/// Where a one-character separator occurs: exactly where that character is.
proof fn lemma_comma_at(s: Seq<char>, j: int)
    ensures
        occurs_at(s, ","@, j) == (0 <= j < s.len() && s[j] == ','),
{
    reveal_strlit(",");
    let sep = ","@;
    assert(sep =~= seq![',']);
    assert(sep.len() == 1);
    if 0 <= j < s.len() {
        let sub = s.subrange(j, j + 1);
        assert(sub =~= seq![s[j]]);
        if s[j] == ',' {
            assert(sub =~= sep);
        } else {
            assert(sub[0] != sep[0]);
        }
    }
}

/// The first comma of `x + y`, when `x` holds none and `y` starts with one,
/// is the one that starts `y`.
proof fn lemma_first_comma(x: Seq<char>, y: Seq<char>)
    requires
        !x.contains(','),
        y.len() > 0,
        y[0] == ',',
    ensures
        first_match(x + y, ","@) == x.len(),
{
    let s = x + y;
    crate::scan::lemma_first_match_least(s, ","@);
    lemma_comma_at(s, x.len() as int);
    let i = first_match(s, ","@);
    if i >= 0 {
        lemma_comma_at(s, i);
        if i < x.len() {
            assert(x[i] == ',');
        }
    }
}

/// A text that holds no comma has no comma to split at.
proof fn lemma_no_comma(s: Seq<char>)
    requires
        !s.contains(','),
    ensures
        first_match(s, ","@) < 0,
{
    crate::scan::lemma_first_match_least(s, ","@);
    let i = first_match(s, ","@);
    if i >= 0 {
        lemma_comma_at(s, i);
        assert(s[i] == ',');
    }
}

/// Trimming leaves a quoted text, and a quoted text after a space, as the
/// quoted text.
proof fn lemma_trim_quoted(s: Seq<char>)
    ensures
        trim(quoted(s)) == quoted(s),
        trim(seq![' '] + quoted(s)) == quoted(s),
{
    let q = quoted(s);
    assert(!crate::text::is_white_space(q.last()));
    assert(!crate::text::is_white_space(q[0]));
    let sq = seq![' '] + q;
    assert(sq.last() == q.last());
    assert(crate::text::is_white_space(sq[0]));
    assert(sq.drop_first() =~= q);
}

/// A character that `s` does not hold is not in `s` between quotes, nor in
/// a space followed by that.
proof fn lemma_quoted_lacks(s: Seq<char>, c: char)
    requires
        !s.contains(c),
        c != '\'',
        c != ' ',
    ensures
        !quoted(s).contains(c),
        !(seq![' '] + quoted(s)).contains(c),
{
    let q = quoted(s);
    if q.contains(c) {
        let k = choose|k: int| 0 <= k < q.len() && q[k] == c;
        assert(s[k - 1] == c);
    }
    let sq = seq![' '] + q;
    if sq.contains(c) {
        let k = choose|k: int| 0 <= k < sq.len() && sq[k] == c;
        assert(q[k - 1] == c);
    }
}

/// The header line holds no line feed and does not end in a carriage
/// return.
proof fn lemma_header()
    ensures
        !"Latexmk: Normalized aux dir and out dirs:"@.contains('\n'),
        strip_cr("Latexmk: Normalized aux dir and out dirs:"@)
            == "Latexmk: Normalized aux dir and out dirs:"@,
{
    reveal_strlit("Latexmk: Normalized aux dir and out dirs:");
}

/// The fields of the documented form, `'aux', 'mid', 'out'`.
pub open spec fn report_fields(aux: Seq<char>, mid: Seq<char>, out: Seq<char>) -> Seq<char> {
    quoted(aux) + seq![',', ' '] + quoted(mid) + seq![',', ' '] + quoted(out)
}

/// The fields line gives back its first and its third field.
proof fn lemma_fields_round_trip(aux: Seq<char>, mid: Seq<char>, out: Seq<char>)
    requires
        !aux.contains(','),
        !mid.contains(','),
        !out.contains(','),
    ensures
        report_fields_dirs(report_fields(aux, mid, out)) == Some((aux, out)),
{
    reveal_strlit(",");
    let qa = quoted(aux);
    let qm = quoted(mid);
    let qo = quoted(out);
    let fields = report_fields(aux, mid, out);
    lemma_quoted_lacks(aux, ',');
    lemma_quoted_lacks(mid, ',');
    lemma_quoted_lacks(out, ',');
    let tail1 = seq![',', ' '] + qm + seq![',', ' '] + qo;
    assert(fields =~= qa + tail1);
    lemma_first_comma(qa, tail1);
    let r1 = fields.skip(qa.len() + 1int);
    let sm = seq![' '] + qm;
    let tail2 = seq![',', ' '] + qo;
    assert(r1 =~= sm + tail2);
    lemma_first_comma(sm, tail2);
    let r2 = r1.skip(sm.len() + 1int);
    assert(r2 =~= seq![' '] + qo);
    lemma_no_comma(r2);
    assert(fields.take(qa.len() as int) =~= qa);
    lemma_trim_quoted(aux);
    lemma_trim_quoted(out);
    assert(qa.subrange(1, qa.len() - 1) =~= aux);
    assert(qo.subrange(1, qo.len() - 1) =~= out);
}

/// The fields line holds no line feed when no field does.
proof fn lemma_fields_one_line(aux: Seq<char>, mid: Seq<char>, out: Seq<char>)
    requires
        !aux.contains('\n'),
        !mid.contains('\n'),
        !out.contains('\n'),
    ensures
        !report_fields(aux, mid, out).contains('\n'),
{
    let qa = quoted(aux);
    let sm = seq![' '] + quoted(mid);
    let so = seq![' '] + quoted(out);
    lemma_quoted_lacks(aux, '\n');
    lemma_quoted_lacks(mid, '\n');
    lemma_quoted_lacks(out, '\n');
    let f = report_fields(aux, mid, out);
    assert(f =~= qa + seq![','] + sm + seq![','] + so);
    if f.contains('\n') {
        let k = choose|k: int| 0 <= k < f.len() && f[k] == '\n';
        if k < qa.len() {
            assert(qa[k] == '\n');
        } else if k == qa.len() {
        } else if k < qa.len() + 1 + sm.len() {
            assert(sm[k - qa.len() - 1] == '\n');
        } else if k == qa.len() + 1 + sm.len() {
        } else {
            assert(so[k - qa.len() - 2 - sm.len()] == '\n');
        }
    }
}

/// A report of the documented form, its header line followed by the three
/// quoted fields, gives back the first and the third field, whenever no
/// field holds a comma or a line feed.
pub proof fn lemma_report_round_trip(aux: Seq<char>, mid: Seq<char>, out: Seq<char>)
    requires
        !aux.contains(','),
        !mid.contains(','),
        !out.contains(','),
        !aux.contains('\n'),
        !mid.contains('\n'),
        !out.contains('\n'),
    ensures
        report_dirs(
            "Latexmk: Normalized aux dir and out dirs:"@ + seq!['\n'] + report_fields(aux, mid, out),
        ) == Some((aux, out)),
{
    let header = "Latexmk: Normalized aux dir and out dirs:"@;
    let fields = report_fields(aux, mid, out);
    let text = header + seq!['\n'] + fields;
    lemma_header();
    lemma_fields_one_line(aux, mid, out);
    assert(text =~= header + (seq!['\n'] + fields));
    lemma_line_len_add(header, seq!['\n'] + fields);
    assert(line_len(text) == header.len());
    assert(text.take(header.len() as int) =~= header);
    assert(text.skip(header.len() + 1int) =~= fields);
    lemma_line_len_add(fields, Seq::empty());
    assert(fields + Seq::<char>::empty() =~= fields);
    assert(text_lines(fields) == seq![fields]);
    let ls = text_lines(text);
    assert(ls =~= seq![header, fields]);
    assert(ls[0].take(header.len() as int) =~= header);
    assert(header_index(ls, header) == 0);
    lemma_fields_round_trip(aux, mid, out);
}

} // verus!
