use line_index::{LineCol, LineIndex};
use url::Url;
use vstd::prelude::*;
use vstd::utf8::encode_utf8;

use crate::cst_support::{trim, trim_end, trim_end_len};
use crate::green::lemma_encode_utf8_add;
use crate::scan::{find_from, first_match, lines, starts_with, text_lines, trim_range};
use crate::text::{chars_of, push_char, string_of_range};

verus! {

/// Declares `url::Url`, a parsed URL.
#[verifier::external_type_specification]
#[verifier::external_body]
pub struct ExUrl(url::Url);

/// Declares `url::ParseError`, why a URL did not parse.
#[verifier::external_type_specification]
#[verifier::external_body]
pub struct ExParseError(url::ParseError);

/// Declares `line_index::LineIndex`, which maps offsets to lines.
#[verifier::external_type_specification]
#[verifier::external_body]
pub struct ExLineIndex(line_index::LineIndex);

/// Whether `Url::parse` accepts `text`.
pub uninterp spec fn url_parses(text: Seq<char>) -> bool;

/// The URL that `Url::parse` reads from `text`, when it parses.
pub uninterp spec fn parsed_url(text: Seq<char>) -> Url;

/// Calls `Url::parse`. Whether it succeeds and the URL it gives are named,
/// as functions of the text; nothing is stated of the URL's parts.
#[verifier::external_body]
fn parse_url(text: &str) -> (r: Result<Url, url::ParseError>)
    ensures
        r is Ok == url_parses(text@),
        r matches Ok(u) ==> u == parsed_url(text@),
{
    Url::parse(text)
}

/// The positions just after each line feed of `s`, counted in characters,
/// in order.
pub open spec fn newline_chars(s: Seq<char>) -> Seq<nat>
    decreases s.len(),
{
    if s.len() == 0 {
        Seq::empty()
    } else if s.last() == '\n' {
        newline_chars(s.drop_last()).push(s.len())
    } else {
        newline_chars(s.drop_last())
    }
}

/// The positions just after each line feed of `s`, counted in UTF-8 bytes,
/// in order: the starts of all lines but the first.
pub open spec fn newline_ends(s: Seq<char>) -> Seq<nat> {
    newline_chars(s).map_values(|k: nat| encode_utf8(s.take(k as int)).len())
}

/// The line starts that a line index holds: the byte offsets just after
/// each line feed of its text.
pub uninterp spec fn line_index_newlines(index: LineIndex) -> Seq<nat>;

/// Calls `LineIndex::new`, which records the byte offset just after each
/// line feed of `text`. It asserts that the text is shorter than `u32::MAX`
/// bytes.
#[verifier::external_body]
fn line_index_new(text: &str) -> (r: LineIndex)
    requires
        encode_utf8(text@).len() < u32::MAX,
    ensures
        line_index_newlines(r) == newline_ends(text@),
{
    LineIndex::new(text)
}

/// Calls `LineIndex::offset` at column 0 of line `line` (counted from 0):
/// 0 for the first line, the recorded start for a later line, none past
/// the last line.
#[verifier::external_body]
fn line_index_line_start(index: &LineIndex, line: u32) -> (r: Option<u32>)
    ensures
        match r {
            Some(v) => (line == 0 && v == 0) || (1 <= line && line - 1 < line_index_newlines(
                *index,
            ).len() && v == line_index_newlines(*index)[line - 1]),
            None => 1 <= line && line - 1 >= line_index_newlines(*index).len(),
        },
{
    match index.offset(LineCol { line, col: 0 }) {
        Some(offset) => Some(u32::from(offset)),
        None => None,
    }
}

/// Whether `c` may appear in a marker line.
pub open spec fn is_marker_char(c: char) -> bool {
    c == ' ' || c == '^' || c == '|' || c == '!'
}

/// Whether a line marks positions of the line above: it is not empty and
/// holds only spaces, `^`, `|` and `!`.
pub open spec fn is_marker_line(l: Seq<char>) -> bool {
    l.len() > 0 && forall|i: int| 0 <= i < l.len() ==> is_marker_char(#[trigger] l[i])
}

/// The position of the last `c` in `l`, or -1.
pub open spec fn last_index(l: Seq<char>, c: char) -> int
    decreases l.len(),
{
    if l.len() == 0 {
        -1
    } else if l.last() == c {
        l.len() - 1
    } else {
        last_index(l.drop_last(), c)
    }
}

/// A position in a fixture: a line, counted from 1, and a column, counted
/// in characters from 0.
#[derive(Debug, PartialEq, Eq, Clone, Copy, Structural)]
struct CharacterPosition {
    line: usize,
    col: usize,
}

/// A range between two positions of a fixture.
#[derive(Debug, PartialEq, Eq, Clone, Copy, Structural)]
struct CharacterRange {
    start: CharacterPosition,
    end: CharacterPosition,
}

/// What reading the lines of a fixture has found so far: the document's
/// text, its number of lines, the cursor and the marked ranges.
pub struct FixtureScan {
    pub text: Seq<char>,
    pub line_nbr: nat,
    pub cursor: Option<(nat, nat)>,
    pub ranges: Seq<((nat, nat), (nat, nat))>,
}

/// Reads the lines `ls` of a fixture, each without white space at its end.
/// A marker line sets the cursor at its first `|` unless a cursor was set
/// before, marks an empty range at its first `!`, and marks the range from
/// its first to just after its last `^`, all on the line above it. Any
/// other line is a line of the document's text.
pub open spec fn scan_fixture(ls: Seq<Seq<char>>) -> FixtureScan
    decreases ls.len(),
{
    if ls.len() == 0 {
        FixtureScan { text: Seq::empty(), line_nbr: 0, cursor: None, ranges: Seq::empty() }
    } else {
        let st = scan_fixture(ls.drop_last());
        let l = trim_end(ls.last());
        if is_marker_line(l) {
            let n = st.line_nbr;
            let bar = first_match(l, seq!['|']);
            let bang = first_match(l, seq!['!']);
            let caret = first_match(l, seq!['^']);
            let cursor = match st.cursor {
                Some(c) => Some(c),
                None => if bar >= 0 {
                    Some((n, bar as nat))
                } else {
                    None
                },
            };
            let r1 = if bang >= 0 {
                st.ranges.push(((n, bang as nat), (n, bang as nat)))
            } else {
                st.ranges
            };
            let r2 = if caret >= 0 {
                r1.push(((n, caret as nat), (n, (last_index(l, '^') + 1) as nat)))
            } else {
                r1
            };
            FixtureScan { cursor, ranges: r2, ..st }
        } else {
            FixtureScan { text: st.text + l + seq!['\n'], line_nbr: st.line_nbr + 1, ..st }
        }
    }
}

/// The name of a fixture's document and the lines after it: the trimmed
/// input starts with `%! `, and the name runs to the first line feed.
pub open spec fn fixture_parts(input: Seq<char>) -> (Seq<char>, Seq<char>) {
    let t = trim(input).skip(3);
    let k = first_match(t, seq!['\n']);
    if k < 0 {
        (t, Seq::empty())
    } else {
        (t.take(k), t.skip(k + 1))
    }
}

/// The text of the URL of a fixture's document.
pub open spec fn fixture_url_text(input: Seq<char>) -> Seq<char> {
    "file:///texlab/"@ + fixture_parts(input).0
}

/// What reading a fixture's lines finds.
pub open spec fn fixture_scan(input: Seq<char>) -> FixtureScan {
    scan_fixture(text_lines(fixture_parts(input).1))
}

/// The character position at which line `line` (counted from 1) of `text`
/// starts.
pub open spec fn line_start_char(text: Seq<char>, line: nat) -> nat {
    if line <= 1 {
        0
    } else {
        newline_chars(text)[line - 2]
    }
}

/// The byte offset in `text` of column `col` of line `line`: the column
/// counts characters from the line's start, and runs on into the following
/// lines and stops at the end of the text.
pub open spec fn position_offset(text: Seq<char>, pos: (nat, nat)) -> nat {
    let cs = line_start_char(text, pos.0);
    let end = if cs + pos.1 <= text.len() {
        cs + pos.1
    } else {
        text.len()
    };
    encode_utf8(text.take(end as int)).len()
}

/// Whether every position that a fixture marks is on a line of the text
/// (a marker comes after the line it marks).
pub open spec fn markers_follow_lines(st: FixtureScan) -> bool {
    &&& (st.cursor matches Some(c) ==> c.0 >= 1)
    &&& forall|j: int| 0 <= j < st.ranges.len() ==> (#[trigger] st.ranges[j]).0.0 >= 1 && st.ranges[j].1.0 >= 1
}

/// A document of a test fixture: its URL, its text, the cursor and the
/// marked ranges, as byte offsets into the text.
#[derive(Debug)]
pub struct DocumentSpec {
    pub uri: Url,
    pub text: String,
    pub cursor: Option<u32>,
    pub ranges: Vec<(u32, u32)>,
}

/// The number of bytes of the UTF-8 encoding of `c`.
fn char_utf8_len(c: char) -> (n: usize)
    ensures
        n == encode_utf8(seq![c]).len(),
{
    proof {
        reveal_with_fuel(encode_utf8, 2);
        assert(seq![c].drop_first() =~= Seq::<char>::empty());
        vstd::utf8::char_is_scalar(c);
    }
    let u = c as u32;
    if u <= 0x7f {
        1
    } else if u <= 0x7ff {
        2
    } else if u <= 0xffff {
        3
    } else {
        4
    }
}

/// The number of bytes of the UTF-8 encoding of the first `n` characters of
/// `s`.
fn utf8_len_prefix(s: &Vec<char>, n: usize) -> (r: usize)
    requires
        n <= s.len(),
        encode_utf8(s@).len() <= u32::MAX,
    ensures
        r == encode_utf8(s@.take(n as int)).len(),
{
    let mut r: usize = 0;
    let mut i: usize = 0;
    while i < n
        invariant
            i <= n <= s.len(),
            encode_utf8(s@).len() <= u32::MAX,
            r == encode_utf8(s@.take(i as int)).len(),
        decreases n - i,
    {
        proof {
            lemma_encode_utf8_add(s@.take(i + 1), s@.skip(i + 1));
            assert(s@.take(i + 1) + s@.skip(i + 1) =~= s@);
            lemma_encode_utf8_add(s@.take(i as int), seq![s@[i as int]]);
            assert(s@.take(i as int) + seq![s@[i as int]] =~= s@.take(i + 1));
        }
        let k = char_utf8_len(s[i]);
        r = r + k;
        i += 1;
    }
    r
}

/// Each recorded line start lies within the text, after a line feed.
proof fn lemma_newline_chars_bound(s: Seq<char>)
    ensures
        forall|j: int| 0 <= j < newline_chars(s).len() ==> 1 <= #[trigger] newline_chars(s)[j] <= s.len(),
    decreases s.len(),
{
    if s.len() > 0 {
        lemma_newline_chars_bound(s.drop_last());
        let p = newline_chars(s.drop_last());
        let r = newline_chars(s);
        assert forall|j: int| 0 <= j < r.len() implies 1 <= #[trigger] r[j] <= s.len() by {
            if j < p.len() {
                assert(r[j] == p[j]);
            }
        }
    }
}

/// Appending text never removes a line start.
proof fn lemma_newline_chars_grow(a: Seq<char>, b: Seq<char>)
    ensures
        newline_chars(a + b).len() >= newline_chars(a).len(),
    decreases b.len(),
{
    if b.len() == 0 {
        assert(a + b =~= a);
    } else {
        lemma_newline_chars_grow(a, b.drop_last());
        assert((a + b).drop_last() =~= a + b.drop_last());
    }
}

/// The character positions just after each line feed of `s`.
fn newline_char_positions(s: &Vec<char>) -> (v: Vec<usize>)
    ensures
        v@.len() == newline_chars(s@).len(),
        forall|j: int| 0 <= j < v@.len() ==> v@[j] == #[trigger] newline_chars(s@)[j],
{
    let mut v: Vec<usize> = Vec::new();
    let mut i: usize = 0;
    while i < s.len()
        invariant
            i <= s.len(),
            v@.len() == newline_chars(s@.take(i as int)).len(),
            forall|j: int| 0 <= j < v@.len() ==> v@[j] == #[trigger] newline_chars(s@.take(i as int))[j],
        decreases s.len() - i,
    {
        proof {
            assert(s@.take(i + 1).drop_last() =~= s@.take(i as int));
        }
        if s[i] == '\n' {
            v.push(i + 1);
        }
        i += 1;
    }
    proof {
        assert(s@.take(i as int) =~= s@);
    }
    v
}

impl CharacterPosition {
    fn new(line: usize, col: usize) -> (p: Self)
        ensures
            p.line == line,
            p.col == col,
    {
        CharacterPosition { line, col }
    }

    /// The byte offset in `text` of this position, as the line index of
    /// `text` places it; none when its line is past the last line.
    fn to_offset(self, text: &str, line_index: &LineIndex) -> (r: Option<u32>)
        requires
            self.line >= 1,
            self.line - 1 <= u32::MAX,
            line_index_newlines(*line_index) == newline_ends(text@),
            encode_utf8(text@).len() < u32::MAX,
        ensures
            r == (if self.line - 1 <= newline_chars(text@).len() {
                Some(position_offset(text@, (self.line as nat, self.col as nat)) as u32)
            } else {
                None::<u32>
            }),
    {
        let start = match line_index_line_start(line_index, (self.line - 1) as u32) {
            Some(s) => s,
            None => return None,
        };
        let chars = chars_of(text);
        let nlc = newline_char_positions(&chars);
        proof {
            lemma_newline_chars_bound(text@);
        }
        let cs = if self.line <= 1 {
            0
        } else {
            nlc[self.line - 2]
        };
        assert(start == encode_utf8(text@.take(cs as int)).len());
        let end = if self.col <= chars.len() - cs {
            cs + self.col
        } else {
            chars.len()
        };
        let total = utf8_len_prefix(&chars, end);
        proof {
            lemma_encode_utf8_add(text@.take(cs as int), text@.subrange(cs as int, end as int));
            assert(text@.take(cs as int) + text@.subrange(cs as int, end as int) =~= text@.take(
                end as int,
            ));
            lemma_encode_utf8_add(text@.take(end as int), text@.skip(end as int));
            assert(text@.take(end as int) + text@.skip(end as int) =~= text@);
        }
        let len = total - start as usize;
        Some(start + len as u32)
    }
}

impl CharacterRange {
    fn new(start: CharacterPosition, end: CharacterPosition) -> (r: Self)
        ensures
            r.start == start,
            r.end == end,
    {
        CharacterRange { start, end }
    }
}

/// The first `n` characters of `v`.
fn prefix_vec(v: &Vec<char>, n: usize) -> (r: Vec<char>)
    requires
        n <= v.len(),
    ensures
        r@ == v@.take(n as int),
{
    let mut r: Vec<char> = Vec::new();
    let mut i: usize = 0;
    while i < n
        invariant
            i <= n <= v.len(),
            r@ == v@.take(i as int),
        decreases n - i,
    {
        r.push(v[i]);
        assert(r@ =~= v@.take(i + 1));
        i += 1;
    }
    r
}

/// Whether `l` is a marker line.
fn marker_line(l: &Vec<char>) -> (b: bool)
    ensures
        b == is_marker_line(l@),
{
    if l.len() == 0 {
        return false;
    }
    let mut i: usize = 0;
    while i < l.len()
        invariant
            i <= l.len(),
            forall|j: int| 0 <= j < i ==> is_marker_char(#[trigger] l@[j]),
        decreases l.len() - i,
    {
        let c = l[i];
        if !(c == ' ' || c == '^' || c == '|' || c == '!') {
            return false;
        }
        i += 1;
    }
    true
}

/// The position of the last `c` in `l`, if any.
fn last_index_of(l: &Vec<char>, c: char) -> (r: Option<usize>)
    ensures
        match r {
            Some(i) => last_index(l@, c) == i,
            None => last_index(l@, c) == -1,
        },
{
    let mut i = l.len();
    assert(l@.take(i as int) =~= l@);
    while i > 0
        invariant
            i <= l.len(),
            last_index(l@, c) == last_index(l@.take(i as int), c),
        decreases i,
    {
        proof {
            assert(l@.take(i as int).drop_last() =~= l@.take(i - 1));
        }
        if l[i - 1] == c {
            return Some(i - 1);
        }
        i -= 1;
    }
    None
}

/// The first position of `c` in `l`, if any.
fn find_char(l: &Vec<char>, c: char) -> (r: Option<usize>)
    ensures
        match r {
            Some(i) => first_match(l@, seq![c]) == i,
            None => first_match(l@, seq![c]) < 0,
        },
{
    let mut sep: Vec<char> = Vec::new();
    sep.push(c);
    assert(sep@ =~= seq![c]);
    assert(l@.skip(0) =~= l@);
    find_from(l, 0, &sep)
}

/// `a` followed by `b`.
fn concat_str(a: &str, b: &str) -> (r: String)
    ensures
        r@ == a@ + b@,
{
    let mut r = String::new();
    let x = chars_of(a);
    let y = chars_of(b);
    let mut i: usize = 0;
    while i < x.len()
        invariant
            i <= x.len(),
            r@ == x@.take(i as int),
        decreases x.len() - i,
    {
        push_char(&mut r, x[i]);
        assert(r@ =~= x@.take(i + 1));
        i += 1;
    }
    let mut j: usize = 0;
    while j < y.len()
        invariant
            j <= y.len(),
            i == x.len(),
            r@ == x@ + y@.take(j as int),
        decreases y.len() - j,
    {
        push_char(&mut r, y[j]);
        assert(r@ =~= x@ + y@.take(j + 1));
        j += 1;
    }
    assert(x@.take(i as int) =~= x@);
    assert(y@.take(j as int) =~= y@);
    r
}

/// A position as plain values.
spec fn position_view(p: CharacterPosition) -> (nat, nat) {
    (p.line as nat, p.col as nat)
}

/// What the scan of a fixture's lines records about positions: the lines
/// of the text each end in a line feed, and every position is on a line
/// read so far.
proof fn lemma_scan_facts(ls: Seq<Seq<char>>)
    ensures
        newline_chars(scan_fixture(ls).text).len() >= scan_fixture(ls).line_nbr,
        scan_fixture(ls).line_nbr <= ls.len(),
        scan_fixture(ls).cursor matches Some(c) ==> c.0 <= scan_fixture(ls).line_nbr,
        forall|j: int| 0 <= j < scan_fixture(ls).ranges.len() ==> (#[trigger] scan_fixture(ls).ranges[j]).0.0
            <= scan_fixture(ls).line_nbr && scan_fixture(ls).ranges[j].1.0 <= scan_fixture(ls).line_nbr,
    decreases ls.len(),
{
    if ls.len() > 0 {
        lemma_scan_facts(ls.drop_last());
        let st = scan_fixture(ls.drop_last());
        let l = trim_end(ls.last());
        if !is_marker_line(l) {
            lemma_newline_chars_grow(st.text, l);
            assert((st.text + l + seq!['\n']).drop_last() =~= st.text + l);
        }
    }
}

impl DocumentSpec {
    /// Reads a document of a test fixture: the line `%! name`, then the
    /// document's lines, among which marker lines set the cursor and mark
    /// ranges on the line above them.
    pub fn parse(input: &str) -> (d: Self)
        requires
            starts_with(trim(input@), "%! "@),
            url_parses(fixture_url_text(input@)),
            markers_follow_lines(fixture_scan(input@)),
            encode_utf8(fixture_scan(input@).text).len() < u32::MAX,
        ensures
            d.uri == parsed_url(fixture_url_text(input@)),
            d.text@ == fixture_scan(input@).text,
            d.cursor == (match fixture_scan(input@).cursor {
                Some(c) => Some(position_offset(fixture_scan(input@).text, c) as u32),
                None => None::<u32>,
            }),
            d.ranges@.len() == fixture_scan(input@).ranges.len(),
            forall|j: int| 0 <= j < d.ranges@.len() ==> (#[trigger] d.ranges@[j]).0 == position_offset(
                fixture_scan(input@).text,
                fixture_scan(input@).ranges[j].0,
            ) as u32 && d.ranges@[j].1 == position_offset(
                fixture_scan(input@).text,
                fixture_scan(input@).ranges[j].1,
            ) as u32,
    {
        let (name, body) = split_fixture(input);
        let url_text = concat_str("file:///texlab/", name.as_str());
        let uri = parse_url(url_text.as_str()).unwrap();
        let ls = lines(body.as_str());
        let ghost all = text_lines(body@);
        let mut text = String::new();
        let mut line_nbr: usize = 0;
        let mut cursor: Option<CharacterPosition> = None;
        let mut ranges: Vec<CharacterRange> = Vec::new();
        let mut i: usize = 0;
        while i < ls.len()
            invariant
                i <= ls@.len(),
                ls@.len() == all.len(),
                forall|j: int| 0 <= j < ls@.len() ==> (#[trigger] ls@[j])@ == all[j],
                text@ == scan_fixture(all.take(i as int)).text,
                line_nbr == scan_fixture(all.take(i as int)).line_nbr,
                line_nbr <= i,
                match cursor {
                    Some(c) => scan_fixture(all.take(i as int)).cursor == Some(position_view(c)),
                    None => scan_fixture(all.take(i as int)).cursor is None,
                },
                ranges@.len() == scan_fixture(all.take(i as int)).ranges.len(),
                forall|j: int| 0 <= j < ranges@.len() ==> (position_view((#[trigger] ranges@[j]).start),
                    position_view(ranges@[j].end)) == scan_fixture(all.take(i as int)).ranges[j],
            decreases ls.len() - i,
        {
            proof {
                assert(all.take(i + 1).drop_last() =~= all.take(i as int));
                assert(all.take(i + 1).last() == all[i as int]);
                lemma_scan_facts(all.take(i as int));
            }
            let raw = chars_of(ls[i].as_str());
            let e = trim_end_len(&raw, raw.len());
            let line = prefix_vec(&raw, e);
            proof {
                assert(raw@.take(raw@.len() as int) =~= raw@);
            }
            if marker_line(&line) {
                if cursor.is_none() {
                    match find_char(&line, '|') {
                        Some(offset) => {
                            cursor = Some(CharacterPosition::new(line_nbr, offset));
                        },
                        None => {},
                    }
                }
                match find_char(&line, '!') {
                    Some(start) => {
                        let position = CharacterPosition::new(line_nbr, start);
                        ranges.push(CharacterRange::new(position, position));
                    },
                    None => {},
                }
                match find_char(&line, '^') {
                    Some(start) => {
                        proof {
                            crate::scan::lemma_first_match_least(line@, seq!['^']);
                            assert(line@.subrange(start as int, start + 1)[0] == line@[start as int]);
                        }
                        let last = match last_index_of(&line, '^') {
                            Some(k) => k,
                            None => {
                                proof {
                                    crate::scan::lemma_first_match_bound(line@, seq!['^']);
                                    lemma_last_index_found(line@, '^', start as int);
                                }
                                start
                            },
                        };
                        proof {
                            lemma_last_index_found(line@, '^', start as int);
                        }
                        let end = last + 1;
                        let start = CharacterPosition::new(line_nbr, start);
                        let end = CharacterPosition::new(line_nbr, end);
                        ranges.push(CharacterRange::new(start, end));
                    },
                    None => {},
                }
            } else {
                let mut k: usize = 0;
                while k < line.len()
                    invariant
                        k <= line@.len(),
                        text@ == scan_fixture(all.take(i as int)).text + line@.take(k as int),
                    decreases line.len() - k,
                {
                    push_char(&mut text, line[k]);
                    assert(line@.take(k + 1) =~= line@.take(k as int).push(line@[k as int]));
                    k += 1;
                }
                push_char(&mut text, '\n');
                proof {
                    assert(line@.take(k as int) =~= line@);
                }
                line_nbr += 1;
            }
            i += 1;
        }
        proof {
            assert(all.take(i as int) =~= all);
            lemma_scan_facts(all);
            lemma_newline_count(text@);
            lemma_utf8_len_ge(text@);
        }
        let line_index = line_index_new(text.as_str());
        let cursor = match cursor {
            Some(c) => c.to_offset(text.as_str(), &line_index),
            None => None,
        };
        let mut out: Vec<(u32, u32)> = Vec::new();
        let mut j: usize = 0;
        while j < ranges.len()
            invariant
                j <= ranges@.len(),
                all == text_lines(body@),
                body@ == fixture_parts(input@).1,
                text@ == scan_fixture(all).text,
                markers_follow_lines(scan_fixture(all)),
                encode_utf8(text@).len() < u32::MAX,
                line_index_newlines(line_index) == newline_ends(text@),
                newline_chars(scan_fixture(all).text).len() >= scan_fixture(all).line_nbr,
                scan_fixture(all).line_nbr < u32::MAX,
                ranges@.len() == scan_fixture(all).ranges.len(),
                forall|q: int| 0 <= q < ranges@.len() ==> (position_view((#[trigger] ranges@[q]).start),
                    position_view(ranges@[q].end)) == scan_fixture(all).ranges[q],
                forall|q: int| 0 <= q < scan_fixture(all).ranges.len() ==> (#[trigger] scan_fixture(all).ranges[q]).0.0
                    <= scan_fixture(all).line_nbr && scan_fixture(all).ranges[q].1.0 <= scan_fixture(all).line_nbr,
                out@.len() == j,
                forall|q: int| 0 <= q < j ==> (#[trigger] out@[q]).0 == position_offset(
                    scan_fixture(all).text,
                    scan_fixture(all).ranges[q].0,
                ) as u32 && out@[q].1 == position_offset(
                    scan_fixture(all).text,
                    scan_fixture(all).ranges[q].1,
                ) as u32,
            decreases ranges.len() - j,
        {
            let range = ranges[j];
            proof {
                assert(scan_fixture(all).ranges[j as int] == (position_view(range.start), position_view(range.end)));
            }
            match (range.start.to_offset(text.as_str(), &line_index), range.end.to_offset(text.as_str(), &line_index)) {
                (Some(start), Some(end)) => {
                    out.push((start, end));
                },
                _ => {},
            }
            j += 1;
        }
        DocumentSpec { uri, text, cursor, ranges: out }
    }
}

/// The last `c` of a line is at or after the first.
proof fn lemma_last_index_found(l: Seq<char>, c: char, i: int)
    requires
        0 <= i < l.len(),
        l[i] == c,
    ensures
        i <= last_index(l, c) < l.len(),
        l[last_index(l, c)] == c,
    decreases l.len(),
{
    if l.last() != c {
        lemma_last_index_found(l.drop_last(), c, i);
    }
}

/// A text holds no more line feeds than characters.
proof fn lemma_newline_count(s: Seq<char>)
    ensures
        newline_chars(s).len() <= s.len(),
    decreases s.len(),
{
    if s.len() > 0 {
        lemma_newline_count(s.drop_last());
    }
}

/// Every character takes at least one byte in UTF-8.
proof fn lemma_utf8_len_ge(s: Seq<char>)
    ensures
        encode_utf8(s).len() >= s.len(),
    decreases s.len(),
{
    if s.len() > 0 {
        lemma_utf8_len_ge(s.drop_first());
    }
}

/// The name of a fixture's document and the text of its lines.
fn split_fixture(input: &str) -> (r: (String, String))
    requires
        starts_with(trim(input@), "%! "@),
    ensures
        r.0@ == fixture_parts(input@).0,
        r.1@ == fixture_parts(input@).1,
{
    proof {
        reveal_strlit("%! ");
    }
    let t = chars_of(input);
    let (a, b) = trim_range(&t, 0, t.len());
    proof {
        assert(t@.subrange(0, t@.len() as int) =~= t@);
    }
    let after = string_of_range(&t, a + 3, b);
    proof {
        assert(after@ =~= trim(input@).skip(3));
    }
    let after_chars = chars_of(after.as_str());
    match find_char(&after_chars, '\n') {
        Some(k) => {
            proof {
                crate::scan::lemma_first_match_bound(after_chars@, seq!['\n']);
                assert(after_chars@.subrange(0, k as int) =~= after_chars@.take(k as int));
                assert(after_chars@.subrange(k + 1, after_chars@.len() as int) =~= after_chars@.skip(k + 1));
            }
            (string_of_range(&after_chars, 0, k), string_of_range(&after_chars, k + 1, after_chars.len()))
        },
        None => {
            proof {
                assert(after_chars@.subrange(0, after_chars@.len() as int) =~= after_chars@);
            }
            (string_of_range(&after_chars, 0, after_chars.len()), String::new())
        },
    }
}

impl DocumentSpec {
    /// Reads a document of a test fixture as `parse` does, when the URL of
    /// its name parses; none when it does not.
    pub fn try_parse(input: &str) -> (r: Option<Self>)
        requires
            starts_with(trim(input@), "%! "@),
            markers_follow_lines(fixture_scan(input@)),
            encode_utf8(fixture_scan(input@).text).len() < u32::MAX,
        ensures
            r is Some == url_parses(fixture_url_text(input@)),
            r matches Some(d) ==> d.uri == parsed_url(fixture_url_text(input@)) && d.text@ == fixture_scan(input@).text && d.cursor == (match fixture_scan(
                input@,
            ).cursor {
                Some(c) => Some(position_offset(fixture_scan(input@).text, c) as u32),
                None => None::<u32>,
            }) && d.ranges@.len() == fixture_scan(input@).ranges.len() && forall|j: int|
                0 <= j < d.ranges@.len() ==> (#[trigger] d.ranges@[j]).0 == position_offset(
                    fixture_scan(input@).text,
                    fixture_scan(input@).ranges[j].0,
                ) as u32 && d.ranges@[j].1 == position_offset(
                    fixture_scan(input@).text,
                    fixture_scan(input@).ranges[j].1,
                ) as u32,
    {
        let (name, _) = split_fixture(input);
        let url_text = concat_str("file:///texlab/", name.as_str());
        match parse_url(url_text.as_str()) {
            Ok(_) => Some(DocumentSpec::parse(input)),
            Err(_) => None,
        }
    }
}

} // verus!
