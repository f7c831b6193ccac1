use texlab::config::SyntaxConfig;
use texlab::latex::kind::SyntaxKind;
use texlab::latex::parser::parse_latex;

#[derive(Debug, PartialEq, Eq, PartialOrd, Ord, Clone, Copy, Hash)]
enum Lang {}

impl rowan::Language for Lang {
    type Kind = SyntaxKind;

    fn kind_from_raw(raw: rowan::SyntaxKind) -> SyntaxKind {
        SyntaxKind::from_raw(raw.0).unwrap()
    }

    fn kind_to_raw(kind: SyntaxKind) -> rowan::SyntaxKind {
        rowan::SyntaxKind(kind.to_raw())
    }
}

fn root(text: &str) -> rowan::SyntaxNode<Lang> {
    rowan::SyntaxNode::<Lang>::new_root(parse_latex(text, &SyntaxConfig::default()))
}

fn is_brace_error(node: &rowan::SyntaxNode<Lang>) -> bool {
    node.kind() == SyntaxKind::ERROR
        && node
            .first_token()
            .map_or(false, |token| token.kind() == SyntaxKind::R_CURLY)
}

fn brace_errors_in_groups(node: &rowan::SyntaxNode<Lang>) -> usize {
    node.descendants()
        .filter(|n| n.kind() == SyntaxKind::CURLY_GROUP)
        .flat_map(|group| group.children())
        .filter(is_brace_error)
        .count()
}

#[test]
fn stray_braces_stay_out_of_groups() {
    for text in ["{a}}b", "}}{{}", "\\begin{a}}\\end{a}", "{{}}}", "\\foo{x}}{"] {
        let tree = root(text);
        assert_eq!(brace_errors_in_groups(&tree), 0, "{text}");
    }
}

#[test]
fn curly_group_closes_at_first_brace() {
    let tree = root("{a}}b");
    let preamble = tree.first_child().unwrap();
    let kinds: Vec<SyntaxKind> = preamble.children().map(|n| n.kind()).collect();
    assert_eq!(kinds, vec![SyntaxKind::CURLY_GROUP, SyntaxKind::ERROR, SyntaxKind::TEXT]);
    let group = preamble.first_child().unwrap();
    assert_eq!(group.to_string(), "{a}");
    assert_eq!(group.last_token().unwrap().kind(), SyntaxKind::R_CURLY);
}

#[test]
fn curly_group_runs_to_the_end_when_unclosed() {
    let tree = root("{a b");
    let group = tree.first_child().unwrap().first_child().unwrap();
    assert_eq!(group.kind(), SyntaxKind::CURLY_GROUP);
    assert_eq!(group.to_string(), "{a b");
    assert!(group
        .children_with_tokens()
        .all(|e| e.kind() != SyntaxKind::R_CURLY));
}

#[test]
fn verbatim_takes_through_the_closing_pipe() {
    let tree = root("\\verb |a{b| c");
    let preamble = tree.first_child().unwrap();
    let kinds: Vec<SyntaxKind> = preamble.children_with_tokens().map(|e| e.kind()).collect();
    assert_eq!(
        kinds,
        vec![
            SyntaxKind::GENERIC_COMMAND,
            SyntaxKind::WHITESPACE,
            SyntaxKind::VERBATIM,
            SyntaxKind::VERBATIM,
            SyntaxKind::VERBATIM,
            SyntaxKind::VERBATIM,
            SyntaxKind::VERBATIM,
            SyntaxKind::WHITESPACE,
            SyntaxKind::TEXT,
        ]
    );
}

#[test]
fn graphics_path_groups_keep_their_paths() {
    let tree = root("\\graphicspath{ {a/}{b/} }");
    let command = tree.descendants().find(|n| n.kind() == SyntaxKind::GRAPHICS_PATH).unwrap();
    let group = command.last_child().unwrap();
    assert_eq!(group.kind(), SyntaxKind::CURLY_GROUP);
    let paths: Vec<String> = group
        .children()
        .filter(|n| n.kind() == SyntaxKind::CURLY_GROUP_WORD)
        .map(|n| n.to_string())
        .collect();
    assert_eq!(paths, vec!["{a/}".to_string(), "{b/} ".to_string()]);
}

fn brace_groups_closed(node: &rowan::SyntaxNode<Lang>) -> bool {
    node.descendants()
        .filter(|n| {
            matches!(
                n.kind(),
                SyntaxKind::CURLY_GROUP | SyntaxKind::CURLY_GROUP_WORD | SyntaxKind::CURLY_GROUP_WORD_LIST
            )
        })
        .all(|group| {
            let kinds: Vec<SyntaxKind> = group.children_with_tokens().map(|e| e.kind()).collect();
            let opens = kinds.first() == Some(&SyntaxKind::L_CURLY);
            let after = kinds
                .iter()
                .position(|k| *k == SyntaxKind::R_CURLY)
                .map_or(0, |i| i + 1);
            opens
                && kinds[after..].iter().all(|k| {
                    matches!(k, SyntaxKind::WHITESPACE | SyntaxKind::LINE_BREAK | SyntaxKind::COMMENT)
                        || after == 0
                })
        })
}

#[test]
fn brace_groups_end_at_their_closing_brace() {
    for text in [
        "\\label{foo} bar}",
        "\\cite{a, b} c} {d",
        "\\include{x}\n}\\graphicspath{{a/} {b/}}}",
        "\\section{A {B} C}} }",
    ] {
        assert!(brace_groups_closed(&root(text)), "{text}");
    }
}
