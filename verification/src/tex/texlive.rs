use std::path::PathBuf;

use vstd::prelude::*;

use super::{Distribution, DistributionKind, Format};
use crate::paths::{join_path, joined_path_bytes, path_bytes, path_of};
use vstd::utf8::encode_utf8;
use crate::cst_support::trim;
use crate::scan::{lines, starts_with, text_lines, trim_range};
use crate::text::{chars_of, string_of_range};

verus! {

/// The TeX Live distribution.
#[derive(Debug, Default)]
pub struct Texlive;

impl Texlive {
    /// The TeX Live distribution.
    pub fn new() -> (t: Self)
        ensures
            t == Texlive,
    {
        Texlive
    }
}

impl Distribution for Texlive {
    fn kind(&self) -> (k: DistributionKind)
        ensures
            k == DistributionKind::Texlive,
    {
        DistributionKind::Texlive
    }

    fn supports_format(&self, format: Format) -> (b: bool)
        ensures
            b,
    {
        match format {
            Format::Latex | Format::Pdflatex => true,
            Format::Xelatex | Format::Lualatex => true,
        }
    }
}

/// What the lines `ls` of an `ls-R` file database list: the directory that
/// the last directory line named (a line ending in `:`, without it), and
/// each file with the directory it is listed under. Blank lines and lines
/// that start with `%` are skipped.
pub open spec fn database_scan(ls: Seq<Seq<char>>) -> (Seq<char>, Seq<(Seq<char>, Seq<char>)>)
    decreases ls.len(),
{
    if ls.len() == 0 {
        (Seq::empty(), Seq::empty())
    } else {
        let (dir, files) = database_scan(ls.drop_last());
        let line = ls.last();
        if trim(line).len() == 0 || starts_with(line, "%"@) {
            (dir, files)
        } else if line.last() == ':' {
            (line.drop_last(), files)
        } else {
            (dir, files.push((dir, line)))
        }
    }
}

/// Whether a line of an `ls-R` database is skipped: blank, or a comment
/// that starts with `%`.
pub open spec fn is_skipped_line(line: Seq<char>) -> bool {
    trim(line).len() == 0 || starts_with(line, "%"@)
}

/// Whether a line of an `ls-R` database names a directory: it is not
/// skipped and ends in `:`.
pub open spec fn is_directory_line(line: Seq<char>) -> bool {
    !is_skipped_line(line) && line.len() > 0 && line.last() == ':'
}

/// Whether a line of an `ls-R` database names a file: it is neither skipped
/// nor a directory line.
pub open spec fn is_file_line(line: Seq<char>) -> bool {
    !is_skipped_line(line) && !is_directory_line(line)
}

/// The directory that the last directory line of `ls` names, without its
/// `:`; empty when there is none.
pub open spec fn last_directory(ls: Seq<Seq<char>>) -> Seq<char>
    decreases ls.len(),
{
    if ls.len() == 0 {
        Seq::empty()
    } else if is_directory_line(ls.last()) {
        ls.last().drop_last()
    } else {
        last_directory(ls.drop_last())
    }
}

/// The names of the files that a database lists are its file lines, every
/// one of them, in order: one entry per file line, whatever came before.
pub proof fn law_database_names(ls: Seq<Seq<char>>)
    ensures
        database_scan(ls).1.map_values(|e: (Seq<char>, Seq<char>)| e.1) == ls.filter(
            |l: Seq<char>| is_file_line(l),
        ),
        database_scan(ls).1.len() == ls.filter(|l: Seq<char>| is_file_line(l)).len(),
        database_scan(ls).0 == last_directory(ls),
    decreases ls.len(),
{
    if ls.len() > 0 {
        law_database_names(ls.drop_last());
        let prev = database_scan(ls.drop_last()).1;
        let cur = database_scan(ls).1;
        let line = ls.last();
        if line.len() == 0 {
            assert(trim(line).len() == 0);
        }
        assert(ls =~= ls.drop_last().push(line));
        ls.drop_last().lemma_filter_push(line, |l: Seq<char>| is_file_line(l));
        assert(ls.filter(|l: Seq<char>| is_file_line(l)) == if is_file_line(line) {
            ls.drop_last().filter(|l: Seq<char>| is_file_line(l)).push(line)
        } else {
            ls.drop_last().filter(|l: Seq<char>| is_file_line(l))
        });
        if is_file_line(line) {
            assert(cur == prev.push((database_scan(ls.drop_last()).0, line)));
            assert(cur.map_values(|e: (Seq<char>, Seq<char>)| e.1) =~= prev.map_values(
                |e: (Seq<char>, Seq<char>)| e.1,
            ).push(line));
        } else {
            assert(cur == prev);
        }
    }
}

/// Each file line of a database gives the entry at the place of its rank
/// among the file lines: the file with the directory that the last directory
/// line before it names.
pub proof fn law_database_directories(ls: Seq<Seq<char>>, k: int)
    requires
        0 <= k < ls.len(),
        is_file_line(ls[k]),
    ensures
        ls.take(k).filter(|l: Seq<char>| is_file_line(l)).len() < database_scan(ls).1.len(),
        database_scan(ls).1[ls.take(k).filter(|l: Seq<char>| is_file_line(l)).len() as int] == (
            last_directory(ls.take(k)),
            ls[k],
        ),
    decreases ls.len(),
{
    let n = ls.take(k).filter(|l: Seq<char>| is_file_line(l)).len();
    law_database_names(ls.drop_last());
    law_database_names(ls.take(k));
    if k == ls.len() - 1 {
        assert(ls.take(k) =~= ls.drop_last());
        law_database_names(ls);
    } else {
        law_database_directories(ls.drop_last(), k);
        assert(ls.drop_last().take(k) =~= ls.take(k));
        assert(ls.drop_last()[k] == ls[k]);
    }
}

/// The files that an `ls-R` database lists, each as its directory and its
/// name, in order.
pub fn database_entries(text: &str) -> (r: Vec<(String, String)>)
    ensures
        r@.len() == database_scan(text_lines(text@)).1.len(),
        forall|j: int| 0 <= j < r@.len() ==> (#[trigger] r@[j]).0@ == database_scan(
            text_lines(text@),
        ).1[j].0 && r@[j].1@ == database_scan(text_lines(text@)).1[j].1,
{
    let ls = lines(text);
    let ghost all = text_lines(text@);
    let mut r: Vec<(String, String)> = Vec::new();
    let mut dir = String::new();
    let percent = chars_of("%");
    let mut i: usize = 0;
    while i < ls.len()
        invariant
            i <= ls@.len(),
            ls@.len() == all.len(),
            forall|j: int| 0 <= j < ls@.len() ==> (#[trigger] ls@[j])@ == all[j],
            percent@ == "%"@,
            dir@ == database_scan(all.take(i as int)).0,
            r@.len() == database_scan(all.take(i as int)).1.len(),
            forall|j: int| 0 <= j < r@.len() ==> (#[trigger] r@[j]).0@ == database_scan(
                all.take(i as int),
            ).1[j].0 && r@[j].1@ == database_scan(all.take(i as int)).1[j].1,
        decreases ls.len() - i,
    {
        let line = chars_of(ls[i].as_str());
        proof {
            assert(all.take(i + 1).drop_last() =~= all.take(i as int));
            assert(all.take(i + 1).last() == all[i as int]);
            assert(line@.skip(0) =~= line@);
            assert(line@.subrange(0, line@.len() as int) =~= line@);
        }
        let (a, b) = trim_range(&line, 0, line.len());
        if a == b || crate::scan::matches_at(&line, 0, &percent) {
        } else if line[line.len() - 1] == ':' {
            dir = string_of_range(&line, 0, line.len() - 1);
            proof {
                assert(line@.subrange(0, line@.len() - 1) =~= line@.drop_last());
            }
        } else {
            let name = string_of_range(&line, 0, line.len());
            let entry = (dir.clone(), name);
            r.push(entry);
        }
        i += 1;
    }
    proof {
        assert(all.take(i as int) =~= all);
    }
    r
}

/// The paths that an `ls-R` file database lists: each file joined to the
/// directory it is listed under, in order. Reading never fails.
pub fn parse_database(text: &str) -> (r: Result<Vec<PathBuf>, std::io::Error>)
    ensures
        r is Ok,
        r->Ok_0@.len() == database_scan(text_lines(text@)).1.len(),
        forall|j: int|
            0 <= j < r->Ok_0@.len() ==> path_bytes(#[trigger] r->Ok_0@[j]) == joined_path_bytes(
                encode_utf8(database_scan(text_lines(text@)).1[j].0),
                encode_utf8(database_scan(text_lines(text@)).1[j].1),
            ),
{
    let entries = database_entries(text);
    let ghost files = database_scan(text_lines(text@)).1;
    let mut paths: Vec<PathBuf> = Vec::new();
    let mut i: usize = 0;
    while i < entries.len()
        invariant
            i <= entries@.len(),
            paths@.len() == i,
            entries@.len() == files.len(),
            forall|j: int| 0 <= j < entries@.len() ==> (#[trigger] entries@[j]).0@ == files[j].0
                && entries@[j].1@ == files[j].1,
            forall|j: int|
                0 <= j < i ==> path_bytes(#[trigger] paths@[j]) == joined_path_bytes(
                    encode_utf8(files[j].0),
                    encode_utf8(files[j].1),
                ),
        decreases entries.len() - i,
    {
        paths.push(join_path(&path_of(entries[i].0.as_str()), &path_of(entries[i].1.as_str())));
        i += 1;
    }
    Ok(paths)
}

} // verus!
