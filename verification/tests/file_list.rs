use rustc_hash::FxHashSet;
use texlab::file_list::{parse_file_list, FileList};

#[test]
fn test_parse_file_list() {
    let input = r#"
PWD /home/user
INPUT file1.tex
INPUT file1.tex
OUTPUT file2.pdf"#;

    let expected_file_list = FileList {
        working_dir: Some("/home/user".into()),
        inputs: FxHashSet::from_iter(["file1.tex".into()]),
        outputs: FxHashSet::from_iter(["file2.pdf".into()]),
    };
    let actual_file_list = parse_file_list(input);
    assert_eq!(actual_file_list, expected_file_list);

    assert_eq!(actual_file_list.working_dir, Some("/home/user".into()));
    assert_eq!(actual_file_list.inputs.len(), 1);
    assert_eq!(actual_file_list.outputs.len(), 1);
}

#[test]
fn file_list_last_working_dir_wins_and_crlf_is_stripped() {
    let input = "PWD /a\r\nINPUT x.tex\r\nPWD /b\r\nOUTPUT y.pdf\r\n";
    let list = parse_file_list(input);
    assert_eq!(list.working_dir, Some("/b".to_string()));
    assert!(list.inputs.contains("x.tex"));
    assert!(list.outputs.contains("y.pdf"));
    assert_eq!(list.inputs.len(), 1);
    assert_eq!(list.outputs.len(), 1);
}

#[test]
fn file_list_ignores_other_lines() {
    let input = "input lower.tex\nINPUTX.tex\n INPUT leading.tex\nOUTPUT \n";
    let list = parse_file_list(input);
    assert_eq!(list.working_dir, None);
    assert!(list.inputs.is_empty());
    assert_eq!(list.outputs.len(), 1);
    assert!(list.outputs.contains(""));
}

#[test]
fn file_list_of_empty_input_is_default() {
    assert_eq!(parse_file_list(""), FileList::default());
}

#[test]
fn file_list_repeated_line_counts_once() {
    let once = parse_file_list("INPUT a.tex\nOUTPUT b.pdf");
    let twice = parse_file_list("INPUT a.tex\nOUTPUT b.pdf\nOUTPUT b.pdf");
    assert_eq!(once, twice);
}
