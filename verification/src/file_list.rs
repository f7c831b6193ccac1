use rustc_hash::FxHashSet;
use vstd::prelude::*;

use crate::config::{string_set_contents, string_set_insert, string_set_new};
use crate::scan::{lines, matches_at, starts_with, text_lines};
use crate::text::{chars_of, string_of_range};

verus! {

/// The files that a TeX run recorded: its working directory and the files
/// that it read and wrote.
#[derive(Debug, PartialEq, Eq)]
pub struct FileList {
    pub working_dir: Option<String>,
    pub inputs: FxHashSet<String>,
    pub outputs: FxHashSet<String>,
}

/// The abstract value of a file list: the working directory, if any, and the
/// sets of input and output paths.
pub struct FileListView {
    pub working_dir: Option<Seq<char>>,
    pub inputs: Set<Seq<char>>,
    pub outputs: Set<Seq<char>>,
}

impl FileList {
    pub open spec fn view(&self) -> FileListView {
        FileListView {
            working_dir: match self.working_dir {
                Some(w) => Some(w@),
                None => None,
            },
            inputs: string_set_contents(self.inputs),
            outputs: string_set_contents(self.outputs),
        }
    }
}

impl Default for FileList {
    fn default() -> (f: Self)
        ensures
            f@ == (FileListView {
                working_dir: None,
                inputs: Set::empty(),
                outputs: Set::empty(),
            }),
    {
        FileList { working_dir: None, inputs: string_set_new(), outputs: string_set_new() }
    }
}

/// The file list that the lines `ls` of a `.fls` file record: the last line
/// `PWD dir` sets the working directory, each line `INPUT path` adds an
/// input and each line `OUTPUT path` an output; other lines are ignored.
pub open spec fn file_list_of_lines(ls: Seq<Seq<char>>) -> FileListView
    decreases ls.len(),
{
    if ls.len() == 0 {
        FileListView { working_dir: None, inputs: Set::empty(), outputs: Set::empty() }
    } else {
        let before = file_list_of_lines(ls.drop_last());
        let line = ls.last();
        if starts_with(line, "PWD "@) {
            FileListView { working_dir: Some(line.skip("PWD "@.len() as int)), ..before }
        } else if starts_with(line, "INPUT "@) {
            FileListView { inputs: before.inputs.insert(line.skip("INPUT "@.len() as int)), ..before }
        } else if starts_with(line, "OUTPUT "@) {
            FileListView {
                outputs: before.outputs.insert(line.skip("OUTPUT "@.len() as int)),
                ..before
            }
        } else {
            before
        }
    }
}

/// Reads the file list that a `.fls` file records.
pub fn parse_file_list(input: &str) -> (file_list: FileList)
    ensures
        file_list@ == file_list_of_lines(text_lines(input@)),
{
    let mut file_list = FileList::default();
    let ls = lines(input);
    let ghost all = text_lines(input@);
    let pwd = chars_of("PWD ");
    let inp = chars_of("INPUT ");
    let outp = chars_of("OUTPUT ");
    let mut i: usize = 0;
    while i < ls.len()
        invariant
            i <= ls@.len(),
            ls@.len() == all.len(),
            forall|j: int| 0 <= j < ls@.len() ==> (#[trigger] ls@[j])@ == all[j],
            pwd@ == "PWD "@,
            inp@ == "INPUT "@,
            outp@ == "OUTPUT "@,
            file_list@ == file_list_of_lines(all.take(i as int)),
        decreases ls.len() - i,
    {
        let line = chars_of(ls[i].as_str());
        proof {
            assert(all.take(i + 1).drop_last() =~= all.take(i as int));
            assert(all.take(i + 1).last() == all[i as int]);
            assert(line@.skip(0) =~= line@);
        }
        if matches_at(&line, 0, &pwd) {
            let dir = string_of_range(&line, pwd.len(), line.len());
            proof {
                assert(line@.subrange(pwd@.len() as int, line@.len() as int) =~= line@.skip(
                    pwd@.len() as int,
                ));
            }
            file_list.working_dir = Some(dir);
        } else if matches_at(&line, 0, &inp) {
            let path = string_of_range(&line, inp.len(), line.len());
            proof {
                assert(line@.subrange(inp@.len() as int, line@.len() as int) =~= line@.skip(
                    inp@.len() as int,
                ));
            }
            string_set_insert(&mut file_list.inputs, path.as_str());
        } else if matches_at(&line, 0, &outp) {
            let path = string_of_range(&line, outp.len(), line.len());
            proof {
                assert(line@.subrange(outp@.len() as int, line@.len() as int) =~= line@.skip(
                    outp@.len() as int,
                ));
            }
            string_set_insert(&mut file_list.outputs, path.as_str());
        }
        i += 1;
    }
    proof {
        assert(all.take(i as int) =~= all);
    }
    file_list
}

/// A line that appears twice in a row counts once: the second copy changes
/// nothing, since the working directory is set to the same value and the
/// paths are kept as sets.
pub proof fn lemma_repeated_line(ls: Seq<Seq<char>>, line: Seq<char>)
    ensures
        file_list_of_lines(ls.push(line).push(line)) == file_list_of_lines(ls.push(line)),
{
    assert(ls.push(line).push(line).drop_last() =~= ls.push(line));
    assert(ls.push(line).drop_last() =~= ls);
    let once = file_list_of_lines(ls.push(line));
    let twice = file_list_of_lines(ls.push(line).push(line));
    assert(once.inputs.insert(line.skip("INPUT "@.len() as int)) =~= once.inputs || !starts_with(
        line,
        "INPUT "@,
    ) || starts_with(line, "PWD "@));
    assert(once.outputs.insert(line.skip("OUTPUT "@.len() as int)) =~= once.outputs
        || !starts_with(line, "OUTPUT "@) || starts_with(line, "PWD "@) || starts_with(
        line,
        "INPUT "@,
    ));
}

} // verus!
