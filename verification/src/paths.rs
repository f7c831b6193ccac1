use std::path::PathBuf;

use vstd::prelude::*;
use vstd::utf8::{decode_utf8, encode_utf8, valid_utf8};

verus! {

/// Declares `std::path::PathBuf`, an owned file system path.
#[verifier::external_type_specification]
#[verifier::external_body]
pub struct ExPathBuf(std::path::PathBuf);

/// What a path holds: the bytes of its text, in the platform's encoding,
/// which is a superset of UTF-8 that keeps the bytes of any `str`.
pub uninterp spec fn path_bytes(p: PathBuf) -> Seq<u8>;

/// Calls `PathBuf::from` on a string: the path that holds the string's
/// bytes.
#[verifier::external_body]
pub(crate) fn path_of(s: &str) -> (r: PathBuf)
    ensures
        path_bytes(r) == encode_utf8(s@),
{
    PathBuf::from(s)
}

/// The bytes of the path that `Path::join` makes of paths holding `base` and
/// `rel`; a function of the two, by the path rules that the build targets.
pub uninterp spec fn joined_path_bytes(base: Seq<u8>, rel: Seq<u8>) -> Seq<u8>;

/// The bytes of the relative path that `pathdiff::diff_paths` finds from a
/// path holding `base` to one holding `path`, if it finds one; a function of
/// the two, by the path rules that the build targets.
pub uninterp spec fn diffed_path_bytes(path: Seq<u8>, base: Seq<u8>) -> Option<Seq<u8>>;

/// Calls `Path::join`, which appends `rel` to `base` (or gives `rel` when it
/// is absolute). Its result is named.
#[verifier::external_body]
pub(crate) fn join_path(base: &PathBuf, rel: &PathBuf) -> (r: PathBuf)
    ensures
        path_bytes(r) == joined_path_bytes(path_bytes(*base), path_bytes(*rel)),
{
    base.join(rel)
}

/// Calls `pathdiff::diff_paths`, the relative path from `base` to `path`,
/// if there is one. Its result is named.
#[verifier::external_body]
pub(crate) fn diff_paths(path: &PathBuf, base: &PathBuf) -> (r: Option<PathBuf>)
    ensures
        match r {
            Some(d) => diffed_path_bytes(path_bytes(*path), path_bytes(*base)) == Some(path_bytes(d)),
            None => diffed_path_bytes(path_bytes(*path), path_bytes(*base)) is None,
        },
{
    pathdiff::diff_paths(path, base)
}

/// Whether `p` equals `PathBuf::new()`. Paths compare by their components,
/// and `Path::components` gives none exactly for a path that holds no bytes:
/// a path with bytes starts with a prefix, a root, a `.` or a name.
#[verifier::external_body]
pub(crate) fn is_empty_path(p: &PathBuf) -> (b: bool)
    ensures
        b == (path_bytes(*p).len() == 0),
{
    *p == PathBuf::new()
}

/// Calls `Path::to_str`: the path as a string when its bytes are valid
/// UTF-8, the string whose bytes they are; none when they are not.
#[verifier::external_body]
pub(crate) fn path_to_string(p: &PathBuf) -> (r: Option<String>)
    ensures
        match r {
            Some(s) => encode_utf8(s@) == path_bytes(*p),
            None => forall|t: Seq<char>| encode_utf8(t) != path_bytes(*p),
        },
{
    match p.to_str() {
        Some(s) => Some(s.to_string()),
        None => None,
    }
}

/// The text of a path that holds `bytes`, when it is not empty: none when
/// there are no bytes or they are not valid UTF-8.
pub open spec fn nonempty_text(bytes: Seq<u8>) -> Option<Seq<char>> {
    if bytes.len() == 0 || !valid_utf8(bytes) {
        None
    } else {
        Some(decode_utf8(bytes))
    }
}

/// The text of a path that is not empty: none when the path holds no bytes
/// or its bytes are not valid UTF-8, else the string whose bytes they are.
pub fn nonempty_path_text(p: &PathBuf) -> (r: Option<String>)
    ensures
        match r {
            Some(s) => nonempty_text(path_bytes(*p)) == Some(s@),
            None => nonempty_text(path_bytes(*p)) is None,
        },
{
    if is_empty_path(p) {
        return None;
    }
    let r = path_to_string(p);
    proof {
        if r is Some {
            vstd::utf8::encode_utf8_valid_utf8(r->0@);
            vstd::utf8::encode_utf8_decode_utf8(r->0@);
        } else if valid_utf8(path_bytes(*p)) {
            vstd::utf8::decode_utf8_encode_utf8(path_bytes(*p));
            assert(encode_utf8(decode_utf8(path_bytes(*p))) == path_bytes(*p));
        }
    }
    r
}

} // verus!
