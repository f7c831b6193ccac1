use std::time::Duration;

use texlab::tex::miktex::Miktex;
use texlab::tex::tectonic::Tectonic;
use texlab::tex::texlive::{database_entries, parse_database, Texlive};
use texlab::tex::{
    compile_invocation, str_contains, CompileError, CompileParams, Distribution,
    DistributionKind, Format, OutputKind, Unknown,
};

#[test]
fn format_executables() {
    assert_eq!(Format::Latex.executable(), "latex");
    assert_eq!(Format::Pdflatex.executable(), "pdflatex");
    assert_eq!(Format::Xelatex.executable(), "xelatex");
    assert_eq!(Format::Lualatex.executable(), "lualatex");
}

#[test]
fn distribution_kind_from_probe() {
    assert_eq!(
        DistributionKind::from_probe(true, Some("TeX Live")),
        DistributionKind::Tectonic
    );
    assert_eq!(
        DistributionKind::from_probe(false, Some("pdfTeX 3.14 (TeX Live 2023)")),
        DistributionKind::Texlive
    );
    assert_eq!(
        DistributionKind::from_probe(false, Some("MiKTeX-pdfTeX 4.16 (MiKTeX 23.5)")),
        DistributionKind::Miktex
    );
    assert_eq!(
        DistributionKind::from_probe(false, Some("something else")),
        DistributionKind::Unknown
    );
    assert_eq!(DistributionKind::from_probe(false, None), DistributionKind::Unknown);
}

#[test]
fn contains_substrings() {
    assert!(str_contains("abc", "bc"));
    assert!(str_contains("abc", ""));
    assert!(!str_contains("abc", "cd"));
    assert!(!str_contains("", "a"));
}

#[test]
fn distributions_and_formats() {
    let formats = [Format::Latex, Format::Pdflatex, Format::Xelatex, Format::Lualatex];
    for f in formats {
        assert!(!Unknown.supports_format(f));
        assert!(Miktex.supports_format(f));
        assert!(Texlive.supports_format(f));
        assert_eq!(Tectonic::new().supports_format(f), f != Format::Lualatex);
        assert_eq!(Tectonic.output_kind(f), OutputKind::Pdf);
    }
    assert_eq!(Unknown.kind(), DistributionKind::Unknown);
    assert_eq!(Miktex.kind(), DistributionKind::Miktex);
    assert_eq!(Tectonic.kind(), DistributionKind::Tectonic);
    assert_eq!(Texlive::new().kind(), DistributionKind::Texlive);
    assert_eq!(Texlive.output_kind(Format::Latex), OutputKind::Dvi);
    assert_eq!(Miktex.output_kind(Format::Xelatex), OutputKind::Pdf);
}

#[test]
fn compile_invocations() {
    let params = CompileParams {
        file_name: "code.tex",
        code: "\\documentclass{article}",
        format: Format::Lualatex,
        timeout: Duration::from_secs(10),
    };
    assert_eq!(compile_invocation(DistributionKind::Unknown, &params), None);
    assert_eq!(
        compile_invocation(DistributionKind::Tectonic, &params),
        Some(("tectonic", vec!["code.tex"]))
    );
    assert_eq!(
        compile_invocation(DistributionKind::Texlive, &params),
        Some((
            "lualatex",
            vec!["--interaction=batchmode", "-shell-escape", "code.tex"]
        ))
    );
}

#[test]
fn compile_error_from_io_error() {
    let e = std::io::Error::new(std::io::ErrorKind::Other, "boom");
    assert!(matches!(CompileError::from(e), CompileError::IO(_)));
}

#[test]
fn database_lists_files_under_their_directories() {
    let text = "% ls-R -- filename database\n\n./:\nfoo.tex\n\n./tex/latex:\nbar.sty\n  \nbaz.cls\n";
    let entries = database_entries(text);
    assert_eq!(
        entries,
        vec![
            ("./".to_string(), "foo.tex".to_string()),
            ("./tex/latex".to_string(), "bar.sty".to_string()),
            ("./tex/latex".to_string(), "baz.cls".to_string()),
        ]
    );
    let paths = parse_database(text).unwrap();
    assert_eq!(
        paths,
        vec![
            std::path::PathBuf::from("./foo.tex"),
            std::path::PathBuf::from("./tex/latex/bar.sty"),
            std::path::PathBuf::from("./tex/latex/baz.cls"),
        ]
    );
}

#[test]
fn database_files_before_any_directory() {
    let entries = database_entries("a.tex");
    assert_eq!(entries, vec![(String::new(), "a.tex".to_string())]);
}
