use texlab::bibtex::cst::{
    AstNode, Entry, Field, HasName, HasType, HasValue, Join, Root, Value,
};
use texlab::bibtex::kind::SyntaxKind;
use texlab::tree::{SyntaxElement, SyntaxNode, SyntaxToken};

fn tok(kind: SyntaxKind, text: &str) -> SyntaxElement {
    SyntaxElement::Token(SyntaxToken { kind: kind.to_raw(), text: text.to_string() })
}

fn node(kind: SyntaxKind, children: Vec<SyntaxElement>) -> SyntaxElement {
    SyntaxElement::Node(SyntaxNode { kind: kind.to_raw(), children })
}

fn entry(name: &str, fields: Vec<SyntaxElement>) -> SyntaxElement {
    let mut children = vec![
        tok(SyntaxKind::TYPE, "@article"),
        tok(SyntaxKind::L_DELIM, "{"),
        tok(SyntaxKind::NAME, name),
        tok(SyntaxKind::COMMA, ","),
    ];
    children.extend(fields);
    children.push(tok(SyntaxKind::R_DELIM, "}"));
    node(SyntaxKind::ENTRY, children)
}

fn field(name: &str, value: SyntaxElement) -> SyntaxElement {
    node(
        SyntaxKind::FIELD,
        vec![
            tok(SyntaxKind::NAME, name),
            tok(SyntaxKind::EQ, "="),
            value,
            tok(SyntaxKind::COMMA, ","),
        ],
    )
}

fn literal(text: &str) -> SyntaxElement {
    node(SyntaxKind::LITERAL, vec![tok(SyntaxKind::NAME, text)])
}

fn root() -> SyntaxNode {
    SyntaxNode {
        kind: SyntaxKind::ROOT.to_raw(),
        children: vec![
            node(
                SyntaxKind::STRING,
                vec![
                    tok(SyntaxKind::TYPE, "@string"),
                    tok(SyntaxKind::L_DELIM, "{"),
                    tok(SyntaxKind::NAME, "me"),
                    tok(SyntaxKind::EQ, "="),
                    literal("Me"),
                    tok(SyntaxKind::R_DELIM, "}"),
                ],
            ),
            tok(SyntaxKind::JUNK, "\n"),
            entry("foo", vec![field("title", literal("Foo"))]),
            entry(
                "bar",
                vec![
                    field(
                        "author",
                        node(
                            SyntaxKind::JOIN,
                            vec![
                                literal("me"),
                                tok(SyntaxKind::POUND, "#"),
                                node(SyntaxKind::QUOTE_GROUP, vec![tok(SyntaxKind::WORD, "x")]),
                            ],
                        ),
                    ),
                    field("year", literal("2020")),
                ],
            ),
            entry("foo", vec![]),
        ],
    }
}

#[test]
fn root_lists_strings_and_entries() {
    let root = root();
    let root = Root::cast(&root).unwrap();
    assert_eq!(root.strings().len(), 1);
    let entries = root.entries();
    assert_eq!(entries.len(), 3);
    let names: Vec<&str> = entries
        .iter()
        .map(|e| e.name_token().unwrap().text.as_str())
        .collect();
    assert_eq!(names, vec!["foo", "bar", "foo"]);
}

#[test]
fn find_entry_gives_the_first_match() {
    let tree = root();
    let root = Root::cast(&tree).unwrap();
    let entries = root.entries();
    let found = root.find_entry("foo").unwrap();
    assert!(std::ptr::eq(found.0, entries[0].0));
    let found = root.find_entry("bar").unwrap();
    assert_eq!(found.fields().len(), 2);
    assert!(root.find_entry("baz").is_none());
}

#[test]
fn entry_tokens_and_fields() {
    let tree = root();
    let root = Root::cast(&tree).unwrap();
    let bar: Entry = root.entries()[1];
    assert_eq!(bar.type_token().unwrap().text, "@article");
    let fields = bar.fields();
    let author: Field = fields[0];
    assert_eq!(author.name_token().unwrap().text, "author");
    match author.value().unwrap() {
        Value::Join(join) => {
            let left = join.left_value().unwrap();
            assert!(matches!(left, Value::Literal(_)));
            let right = join.right_value().unwrap();
            assert!(matches!(right, Value::QuoteGroup(_)));
            assert_eq!(right.syntax().kind, SyntaxKind::QUOTE_GROUP.to_raw());
        }
        _ => panic!("expected a join"),
    }
    let year = fields[1];
    assert!(matches!(year.value(), Some(Value::Literal(_))));
    let string_def = root.strings()[0];
    assert!(matches!(string_def.value(), Some(Value::Literal(_))));
}

#[test]
fn join_without_right_value() {
    let tree = SyntaxNode {
        kind: SyntaxKind::JOIN.to_raw(),
        children: vec![literal("a"), tok(SyntaxKind::POUND, "#")],
    };
    let join = Join::cast(&tree).unwrap();
    assert!(join.left_value().is_some());
    assert!(join.right_value().is_none());
}

#[test]
fn values_cast_by_kind() {
    let lit = SyntaxNode { kind: SyntaxKind::LITERAL.to_raw(), children: vec![] };
    assert!(matches!(Value::cast(&lit), Some(Value::Literal(_))));
    let field = SyntaxNode { kind: SyntaxKind::FIELD.to_raw(), children: vec![] };
    assert!(Value::cast(&field).is_none());
    assert!(Value::can_cast(SyntaxKind::ACCENT.to_raw()));
    assert!(!Value::can_cast(SyntaxKind::VALUE.to_raw()));
}
