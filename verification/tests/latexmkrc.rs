use std::path::PathBuf;

use texlab::latexmkrc::{
    change_root, latexmk_version, reports_dirs_only, v483, v484, LatexmkrcData,
};

#[test]
fn extract_dirs_before_4_84() {
    let line = "Latexmk: Normalized aux dir and out dir: 'aux', 'out'";
    assert_eq!(
        v483::extract_dirs(line),
        Some(("aux".to_string(), "out".to_string()))
    );
}

#[test]
fn extract_dirs_before_4_84_rejects_other_lines() {
    assert_eq!(v483::extract_dirs("Latexmk: This is Latexmk"), None);
    assert_eq!(
        v483::extract_dirs("Latexmk: Normalized aux dir and out dir: 'aux'"),
        None
    );
    assert_eq!(
        v483::extract_dirs("Latexmk: Normalized aux dir and out dir: 'a', 'b', 'c'"),
        None
    );
    assert_eq!(
        v483::extract_dirs("Latexmk: Normalized aux dir and out dir: aux, 'out'"),
        None
    );
    assert_eq!(
        v483::extract_dirs("Latexmk: Normalized aux dir and out dir: '', '.'"),
        Some((String::new(), ".".to_string()))
    );
}

#[test]
fn extract_dirs_from_4_84() {
    let report = "Latexmk: This is Latexmk, John Collins, version 4.85.\n\
                  Latexmk: Normalized aux dir and out dirs:\n \
                  'build/aux', 'build', 'build/out'\n";
    assert_eq!(
        v484::extract_dirs(report),
        Some(("build/aux".to_string(), "build/out".to_string()))
    );
}

#[test]
fn extract_dirs_from_4_84_rejects_malformed_reports() {
    assert_eq!(v484::extract_dirs(""), None);
    assert_eq!(
        v484::extract_dirs("Latexmk: Normalized aux dir and out dirs:"),
        None
    );
    assert_eq!(
        v484::extract_dirs("Latexmk: Normalized aux dir and out dirs:\n'a', 'b'"),
        None
    );
    assert_eq!(
        v484::extract_dirs("Latexmk: Normalized aux dir and out dirs:\n'a', 'b', 'c', 'd'"),
        None
    );
    assert_eq!(
        v484::extract_dirs("Latexmk: Normalized aux dir and out dirs:\r\n 'a' , 'b',  'c' \r\n"),
        Some(("a".to_string(), "c".to_string()))
    );
}

#[test]
fn change_root_moves_a_directory() {
    let src = PathBuf::from("/home/user/doc");
    let tmp = PathBuf::from("/tmp/xyz");
    assert_eq!(change_root(&src, &tmp, "build"), Some("build".to_string()));
    assert_eq!(change_root(&src, &tmp, "./out/aux"), Some("out/aux".to_string()));
}

#[test]
fn change_root_gives_none_for_the_directory_itself() {
    let src = PathBuf::from("/home/user/doc");
    let tmp = PathBuf::from("/tmp/xyz");
    assert_eq!(change_root(&src, &tmp, "."), None);
}

#[test]
fn latexmkrc_data_default_is_empty() {
    let data = LatexmkrcData::default();
    assert_eq!(data.aux_dir, None);
    assert_eq!(data.out_dir, None);
}

#[test]
fn extract_dirs_from_whole_output() {
    let output = "Latexmk: This is Latexmk\n\
                  Latexmk: Normalized aux dir and out dir: 'x', 'y'\n\
                  Latexmk: Normalized aux dir and out dir: 'z', 'w'\n";
    assert_eq!(
        v483::extract_dirs_from_output(output),
        Some(("x".to_string(), "y".to_string()))
    );
    assert_eq!(v483::extract_dirs_from_output("nothing here\n"), None);
}

#[test]
fn latexmk_versions() {
    let output = "Latexmk, John Collins, 7 Apr. 2024. Version 4.85  \n";
    assert_eq!(latexmk_version(output), Some("4.85".to_string()));
    assert_eq!(latexmk_version("no version here"), None);
    assert_eq!(latexmk_version("Versionless"), None);
    assert!(reports_dirs_only(Some(output)));
    assert!(reports_dirs_only(Some("Latexmk, Version 4.84")));
    assert!(!reports_dirs_only(Some("Latexmk, Version 4.83")));
    assert!(!reports_dirs_only(Some("Latexmk")));
    assert!(!reports_dirs_only(None));
}

#[test]
fn nonempty_path_texts() {
    assert_eq!(
        texlab::paths::nonempty_path_text(&PathBuf::from("a/b")),
        Some("a/b".to_string())
    );
    assert_eq!(texlab::paths::nonempty_path_text(&PathBuf::new()), None);
}
