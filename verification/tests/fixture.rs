use texlab::fixture::DocumentSpec;

#[test]
fn document_spec_reads_cursor_and_ranges() {
    let spec = DocumentSpec::parse(
        "%! main.tex\n\\label{foo}\n       |\n       ^^^\n\\ref{foo}\n      !\n",
    );
    assert_eq!(spec.uri.as_str(), "file:///texlab/main.tex");
    assert_eq!(spec.text, "\\label{foo}\n\\ref{foo}\n");
    assert_eq!(spec.cursor, Some(7));
    assert_eq!(spec.ranges, vec![(7, 10), (18, 18)]);
}

#[test]
fn document_spec_without_markers() {
    let spec = DocumentSpec::parse("  %! a.bib\n@article{x,}  \n");
    assert_eq!(spec.uri.as_str(), "file:///texlab/a.bib");
    assert_eq!(spec.text, "@article{x,}\n");
    assert_eq!(spec.cursor, None);
    assert!(spec.ranges.is_empty());
}

#[test]
fn document_spec_counts_bytes() {
    let spec = DocumentSpec::parse("%! a.tex\näb\n  |\n");
    assert_eq!(spec.text, "äb\n");
    assert_eq!(spec.cursor, Some(3));
}

#[test]
fn document_spec_first_cursor_wins() {
    let spec = DocumentSpec::parse("%! a.tex\nab\n |\ncd\n|\n");
    assert_eq!(spec.cursor, Some(1));
}

#[test]
fn document_spec_try_parse() {
    assert!(DocumentSpec::try_parse("%! a.tex\nx\n").is_some());
}
