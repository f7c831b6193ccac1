use std::path::PathBuf;

use versions::Versioning;
use vstd::prelude::*;
use vstd::utf8::encode_utf8;

use crate::cst_support::trim_end;
use crate::paths::{
    diff_paths, diffed_path_bytes, join_path, joined_path_bytes, nonempty_path_text, nonempty_text,
    path_bytes, path_of,
};
use crate::scan::{find_from, first_match, starts_with};
use crate::text::{chars_of, string_of_range};

pub mod v483;
pub mod v484;

verus! {

/// The directories that a `.latexmkrc` file sets, relative to the source
/// directory.
#[derive(Debug, Clone)]
pub struct LatexmkrcData {
    pub aux_dir: Option<String>,
    pub out_dir: Option<String>,
}

impl Default for LatexmkrcData {
    fn default() -> (d: Self)
        ensures
            d.aux_dir is None,
            d.out_dir is None,
    {
        LatexmkrcData { aux_dir: None, out_dir: None }
    }
}

/// Where `change_root` puts `out_dir`: joined to `tmp`, taken relative to
/// `tmp`, joined to `src` and taken relative to `src`, as text; none when a
/// step finds no relative path, or the result is empty or not UTF-8.
pub open spec fn changed_root(src: Seq<u8>, tmp: Seq<u8>, out_dir: Seq<char>) -> Option<Seq<char>> {
    match diffed_path_bytes(joined_path_bytes(tmp, encode_utf8(out_dir)), tmp) {
        None => None,
        Some(rel) => match diffed_path_bytes(joined_path_bytes(src, rel), src) {
            None => None,
            Some(rel_src) => nonempty_text(rel_src),
        },
    }
}

/// Moves `out_dir`, given relative to `tmp_dir`, to the same place relative
/// to `src_dir`, and gives it relative to `src_dir`; none when it is that
/// directory itself or cannot be expressed.
pub fn change_root(src_dir: &PathBuf, tmp_dir: &PathBuf, out_dir: &str) -> (r: Option<String>)
    ensures
        match r {
            Some(dir) => changed_root(path_bytes(*src_dir), path_bytes(*tmp_dir), out_dir@) == Some(dir@),
            None => changed_root(path_bytes(*src_dir), path_bytes(*tmp_dir), out_dir@) is None,
        },
        r matches Some(dir) ==> dir@.len() > 0,
{
    let out_dir = join_path(tmp_dir, &path_of(out_dir));
    let relative_to_tmp = match diff_paths(&out_dir, tmp_dir) {
        Some(p) => p,
        None => return None,
    };
    let relative_to_src = match diff_paths(&join_path(src_dir, &relative_to_tmp), src_dir) {
        Some(p) => p,
        None => return None,
    };
    let r = nonempty_path_text(&relative_to_src);
    proof {
        if r is Some && r->0@.len() == 0 {
            let b = path_bytes(relative_to_src);
            vstd::utf8::decode_utf8_encode_utf8(b);
            assert(r->0@ =~= Seq::<char>::empty());
            assert(encode_utf8(r->0@) =~= Seq::<u8>::empty());
        }
    }
    r
}

/// Whether `Versioning::new` accepts `text` as a version.
pub uninterp spec fn versioning_parses(text: Seq<char>) -> bool;

/// Whether the version that `text` reads as is at least the one that `min`
/// reads as, by `Versioning`'s order; this is a function of the two texts.
pub uninterp spec fn version_at_least(text: Seq<char>, min: Seq<char>) -> bool;

/// Reads `text` and `min` with `Versioning::new` and compares the two
/// versions with `>=`: none when either does not parse, else whether the
/// first is at least the second.
#[verifier::external_body]
fn versions_at_least(text: &str, min: &str) -> (r: Option<bool>)
    ensures
        r is Some == (versioning_parses(text@) && versioning_parses(min@)),
        r matches Some(b) ==> b == version_at_least(text@, min@),
{
    match (Versioning::new(text), Versioning::new(min)) {
        (Some(v), Some(m)) => Some(v >= m),
        _ => None,
    }
}

/// The version that the output of `latexmk --version` states: from its
/// first `Version`, without white space at the end, after `Version `.
pub open spec fn latexmk_version_text(output: Seq<char>) -> Option<Seq<char>> {
    let i = first_match(output, "Version"@);
    if i < 0 {
        None
    } else {
        let t = trim_end(output.skip(i));
        if starts_with(t, "Version "@) {
            Some(t.skip("Version "@.len() as int))
        } else {
            None
        }
    }
}

/// The version that the output of `latexmk --version` states, if any.
pub fn latexmk_version(output: &str) -> (r: Option<String>)
    ensures
        match r {
            Some(v) => latexmk_version_text(output@) == Some(v@),
            None => latexmk_version_text(output@) is None,
        },
{
    let s = chars_of(output);
    let word = chars_of("Version");
    let prefix = chars_of("Version ");
    assert(s@.skip(0) =~= s@);
    let i = match find_from(&s, 0, &word) {
        Some(i) => i,
        None => return None,
    };
    proof {
        crate::scan::lemma_first_match_bound(s@, word@);
    }
    let rest = string_of_range(&s, i, s.len());
    let t = chars_of(rest.as_str());
    let e = crate::cst_support::trim_end_len(&t, t.len());
    proof {
        assert(s@.subrange(i as int, s@.len() as int) =~= s@.skip(i as int));
        assert(t@.take(t@.len() as int) =~= t@);
    }
    let trimmed = string_of_range(&t, 0, e);
    let tc = chars_of(trimmed.as_str());
    assert(t@.subrange(0, e as int) =~= t@.take(e as int));
    assert(tc@.skip(0) =~= tc@);
    if !crate::scan::matches_at(&tc, 0, &prefix) {
        return None;
    }
    let v = string_of_range(&tc, prefix.len(), tc.len());
    assert(tc@.subrange(prefix@.len() as int, tc@.len() as int) =~= tc@.skip(prefix@.len() as int));
    Some(v)
}

/// Whether the `latexmk` that wrote `version_output` (if it ran) reports
/// its directories with `-dir-report-only`, which version 4.84 added: the
/// output states a version that parses and is at least 4.84.
pub fn reports_dirs_only(version_output: Option<&str>) -> (b: bool)
    ensures
        b == (match version_output {
            Some(out) => match latexmk_version_text(out@) {
                Some(v) => versioning_parses(v) && versioning_parses("4.84"@) && version_at_least(
                    v,
                    "4.84"@,
                ),
                None => false,
            },
            None => false,
        }),
{
    match version_output {
        Some(out) => match latexmk_version(out) {
            Some(text) => match versions_at_least(text.as_str(), "4.84") {
                Some(b) => b,
                None => false,
            },
            None => false,
        },
        None => false,
    }
}

} // verus!
