use texlab::config::SyntaxConfig;
use texlab::cst_support::descendants_with_kind;
use texlab::latex::cst::{
    small_range, CurlyGroupWord, HasCurly, Key, Section, TheoremDefinition,
};
use texlab::latex::kind::SyntaxKind;
use texlab::latex::lexer::{classify, lex_command_name, tokenize, Lexer};
use texlab::latex::parser::{parse_latex, parse_latex_tree};
use texlab::latex::token::{CommandName, SectionLevel, Token};
use texlab::tree::SyntaxNode;

fn find<'a>(root: &'a SyntaxNode, kind: SyntaxKind) -> Vec<&'a SyntaxNode> {
    let mut out = Vec::new();
    descendants_with_kind(root, &vec![kind.to_raw()], &mut out);
    out
}

fn text_of(node: &SyntaxNode) -> String {
    texlab::cst_support::node_text_string(node)
}

#[test]
fn tokenize_splits_losslessly() {
    let config = SyntaxConfig::default();
    let input = "\\section{Intro} text % note\n\\cite{a,b}";
    let tokens = tokenize(input, &config);
    let joined: String = tokens.iter().map(|(_, t)| t.as_str()).collect();
    assert_eq!(joined, input);
    assert_eq!(
        tokens[0],
        (Token::CommandName(CommandName::Section(SectionLevel::Section)), "\\section".to_string())
    );
    assert_eq!(tokens[1], (Token::LCurly, "{".to_string()));
    assert_eq!(tokens[2], (Token::Word, "Intro".to_string()));
    assert_eq!(tokens[3], (Token::RCurly, "}".to_string()));
    assert_eq!(tokens[4], (Token::Whitespace, " ".to_string()));
    assert!(tokens.contains(&(Token::LineComment, "% note".to_string())));
    assert!(tokens.contains(&(Token::Comma, ",".to_string())));
}

#[test]
fn classify_commands() {
    let config = SyntaxConfig::default();
    assert_eq!(classify("section", &config), CommandName::Section(SectionLevel::Section));
    assert_eq!(classify("chapter*", &config), CommandName::Section(SectionLevel::Chapter));
    assert_eq!(classify("begin", &config), CommandName::BeginEnvironment);
    assert_eq!(classify("label", &config), CommandName::LabelDefinition);
    assert_eq!(classify("cite", &config), CommandName::Citation);
    assert_eq!(classify("newtheorem", &config), CommandName::TheoremDefinitionAmsThm);
    assert_eq!(classify("declaretheorem", &config), CommandName::TheoremDefinitionThmTools);
    assert_eq!(classify("foo", &config), CommandName::Generic);
}

#[test]
fn command_names_from_the_lexer() {
    assert_eq!(lex_command_name("foo bar"), "foo");
    assert_eq!(lex_command_name("foo*[x]"), "foo*");
    assert_eq!(lex_command_name("foo_bar_ x"), "foo_bar");
    assert_eq!(lex_command_name("@foo:bar{"), "@foo:bar");
    assert_eq!(lex_command_name("\\x"), "\\");
    assert_eq!(lex_command_name(" x"), "");
    assert_eq!(lex_command_name(""), "");
    assert_eq!(lex_command_name("1a"), "1a");
}

#[test]
fn lexer_peek_and_eat_agree() {
    let config = SyntaxConfig::default();
    let mut lexer = Lexer::new("a {b}", &config);
    assert_eq!(lexer.peek(), Some(Token::Word));
    let (kind, text) = lexer.eat().unwrap();
    assert_eq!(kind, SyntaxKind::WORD);
    assert_eq!(text, "a");
    assert_eq!(lexer.peek(), Some(Token::Whitespace));
    lexer.eat();
    assert_eq!(lexer.peek(), Some(Token::LCurly));
    lexer.eat();
    lexer.eat();
    lexer.eat();
    assert_eq!(lexer.peek(), None);
    assert_eq!(lexer.eat(), None);
}

#[test]
fn parse_tree_is_lossless() {
    let config = SyntaxConfig::default();
    let input = "\\documentclass{article}\n\\begin{document}\n\\section{A}\nHello $x$ \\label{sec:a}\n\\end{document}\n";
    let root = parse_latex_tree(input, &config);
    assert_eq!(root.kind, SyntaxKind::ROOT.to_raw());
    assert_eq!(text_of(&root), input);
    let green = parse_latex(input, &config);
    assert_eq!(green.to_string(), input);
}

#[test]
fn section_title() {
    let config = SyntaxConfig::default();
    let root = parse_latex_tree("\\section{ Intro % c\n duction }", &config);
    let sections = find(&root, SyntaxKind::SECTION);
    assert_eq!(sections.len(), 1);
    let section = Section::cast(sections[0]).unwrap();
    let name = section.name().unwrap();
    assert_eq!(name.content_text(), Some("Intro \n duction".to_string()));
}

#[test]
fn theorem_definitions() {
    let config = SyntaxConfig::default();
    let root = parse_latex_tree("\\newtheorem{lemma}{Lemma}", &config);
    let nodes = find(&root, SyntaxKind::THEOREM_DEFINITION_AMSTHM);
    let def = TheoremDefinition::cast(nodes[0]).unwrap();
    let names: Vec<String> = def.names().iter().map(|k| k.to_string()).collect();
    assert_eq!(names, vec!["lemma".to_string()]);
    assert_eq!(def.heading(), Some("Lemma".to_string()));

    let root = parse_latex_tree("\\declaretheorem[name=Theorem]{thm}", &config);
    let nodes = find(&root, SyntaxKind::THEOREM_DEFINITION_THMTOOLS);
    let def = TheoremDefinition::cast(nodes[0]).unwrap();
    let names: Vec<String> = def.names().iter().map(|k| k.to_string()).collect();
    assert_eq!(names, vec!["thm".to_string()]);
    assert_eq!(def.heading(), Some("Theorem".to_string()));

    let root = parse_latex_tree("\\declaretheorem[style=plain]{thm}", &config);
    let nodes = find(&root, SyntaxKind::THEOREM_DEFINITION_THMTOOLS);
    let def = TheoremDefinition::cast(nodes[0]).unwrap();
    assert_eq!(def.heading(), None);
}

#[test]
fn keys_compare_by_words() {
    let config = SyntaxConfig::default();
    let root = parse_latex_tree("\\label{a  b}\\label{a b}\\label{a c}", &config);
    let words = find(&root, SyntaxKind::CURLY_GROUP_WORD);
    let keys: Vec<Key> = words
        .iter()
        .map(|n| CurlyGroupWord::cast(n).unwrap().key().unwrap())
        .collect();
    assert!(keys[0] == keys[1]);
    assert!(keys[1] == keys[0]);
    assert!(keys[0] != keys[2]);
    assert_eq!(keys[0].to_string(), "a b");
}

#[test]
fn default_config_sets() {
    let config = SyntaxConfig::default();
    assert!(config.math_environments.contains("align*"));
    assert!(config.enum_environments.contains("itemize"));
    assert!(config.verbatim_environments.contains("verbatim"));
    assert!(config.citation_commands.contains("cite"));
    assert!(!config.citation_commands.contains("section"));
}

fn token(kind: SyntaxKind, text: &str) -> texlab::tree::SyntaxElement {
    texlab::tree::SyntaxElement::Token(texlab::tree::SyntaxToken {
        kind: kind.to_raw(),
        text: text.to_string(),
    })
}

#[test]
fn small_range_skips_trailing_trivia() {
    let node = SyntaxNode {
        kind: SyntaxKind::TEXT.to_raw(),
        children: vec![
            token(SyntaxKind::WORD, "ab"),
            token(SyntaxKind::WHITESPACE, " "),
            token(SyntaxKind::WORD, "é"),
            token(SyntaxKind::WHITESPACE, " "),
            token(SyntaxKind::COMMENT, "% x"),
        ],
    };
    assert_eq!(small_range(&node, 5), (5, 10));
    let blank = SyntaxNode {
        kind: SyntaxKind::TEXT.to_raw(),
        children: vec![token(SyntaxKind::WHITESPACE, "  ")],
    };
    assert_eq!(small_range(&blank, 5), (5, 5));
}

#[test]
fn small_range_of_a_parsed_section() {
    let config = SyntaxConfig::default();
    let root = parse_latex_tree("\\section{A} % c", &config);
    let sections = find(&root, SyntaxKind::SECTION);
    assert_eq!(small_range(sections[0], 0), (0, 11));
    let root = parse_latex_tree("\\section{A} % c\n", &config);
    let sections = find(&root, SyntaxKind::SECTION);
    assert_eq!(small_range(sections[0], 0), (0, 16));
}

#[test]
fn parsed_groups_are_sliceable() {
    let config = SyntaxConfig::default();
    let root = parse_latex_tree("\\caption{Foo \\Bar Baz}", &config);
    let groups = find(&root, SyntaxKind::CURLY_GROUP);
    assert_eq!(groups.len(), 1);
    assert!(texlab::cst_support::group_text_is_sliceable(
        groups[0],
        SyntaxKind::COMMENT.to_raw()
    ));
    let open = parse_latex_tree("\\caption{é", &config);
    let groups = find(&open, SyntaxKind::CURLY_GROUP);
    assert!(!texlab::cst_support::group_text_is_sliceable(
        groups[0],
        SyntaxKind::COMMENT.to_raw()
    ));
}
