use vstd::prelude::*;

use crate::cst_support::{
    child_nodes, child_tokens, kinds1, nodes_with_kind, nth_child_node, nth_child_token, nth_node,
    nth_token, tokens_with_kind,
};
use crate::tree::{SyntaxNode, SyntaxToken};

use super::kind::SyntaxKind;

verus! {

/// A typed view of a node of a BibTeX syntax tree.
pub trait AstNode<'a> {
    /// The node.
    spec fn node(&self) -> SyntaxNode;

    /// The node.
    fn syntax(&self) -> (n: &'a SyntaxNode)
        ensures
            *n == self.node(),
    ;
}

/// The root of a BibTeX document.
#[derive(Debug, Clone, Copy)]
pub struct Root<'a>(pub &'a SyntaxNode);

impl<'a> Root<'a> {
    /// Whether a node of raw kind `kind` is a `Root`.
    pub open spec fn is_kind(kind: u16) -> bool {
        kind == SyntaxKind::ROOT.raw()
    }

    /// Whether a node of raw kind `kind` is a `Root`.
    pub fn can_cast(kind: u16) -> (b: bool)
        ensures
            b == Self::is_kind(kind),
    {
        kind == SyntaxKind::ROOT.to_raw()
    }

    /// `node` as a `Root`, if it is one.
    pub fn cast(node: &'a SyntaxNode) -> (r: Option<Self>)
        ensures
            r.is_some() == Self::is_kind(node.kind),
            r.is_some() ==> r.unwrap().0 == node,
    {
        if Self::can_cast(node.kind) {
            Some(Root(node))
        } else {
            None
        }
    }
}

impl<'a> AstNode<'a> for Root<'a> {
    open spec fn node(&self) -> SyntaxNode {
        *self.0
    }

    fn syntax(&self) -> (n: &'a SyntaxNode) {
        self.0
    }
}

/// A `@preamble` block.
#[derive(Debug, Clone, Copy)]
pub struct Preamble<'a>(pub &'a SyntaxNode);

impl<'a> Preamble<'a> {
    /// Whether a node of raw kind `kind` is a `Preamble`.
    pub open spec fn is_kind(kind: u16) -> bool {
        kind == SyntaxKind::PREAMBLE.raw()
    }

    /// Whether a node of raw kind `kind` is a `Preamble`.
    pub fn can_cast(kind: u16) -> (b: bool)
        ensures
            b == Self::is_kind(kind),
    {
        kind == SyntaxKind::PREAMBLE.to_raw()
    }

    /// `node` as a `Preamble`, if it is one.
    pub fn cast(node: &'a SyntaxNode) -> (r: Option<Self>)
        ensures
            r.is_some() == Self::is_kind(node.kind),
            r.is_some() ==> r.unwrap().0 == node,
    {
        if Self::can_cast(node.kind) {
            Some(Preamble(node))
        } else {
            None
        }
    }
}

impl<'a> AstNode<'a> for Preamble<'a> {
    open spec fn node(&self) -> SyntaxNode {
        *self.0
    }

    fn syntax(&self) -> (n: &'a SyntaxNode) {
        self.0
    }
}

/// A `@string` definition.
#[derive(Debug, Clone, Copy)]
pub struct StringDef<'a>(pub &'a SyntaxNode);

impl<'a> StringDef<'a> {
    /// Whether a node of raw kind `kind` is a `StringDef`.
    pub open spec fn is_kind(kind: u16) -> bool {
        kind == SyntaxKind::STRING.raw()
    }

    /// Whether a node of raw kind `kind` is a `StringDef`.
    pub fn can_cast(kind: u16) -> (b: bool)
        ensures
            b == Self::is_kind(kind),
    {
        kind == SyntaxKind::STRING.to_raw()
    }

    /// `node` as a `StringDef`, if it is one.
    pub fn cast(node: &'a SyntaxNode) -> (r: Option<Self>)
        ensures
            r.is_some() == Self::is_kind(node.kind),
            r.is_some() ==> r.unwrap().0 == node,
    {
        if Self::can_cast(node.kind) {
            Some(StringDef(node))
        } else {
            None
        }
    }
}

impl<'a> AstNode<'a> for StringDef<'a> {
    open spec fn node(&self) -> SyntaxNode {
        *self.0
    }

    fn syntax(&self) -> (n: &'a SyntaxNode) {
        self.0
    }
}

/// An entry: its type, its key and its fields.
#[derive(Debug, Clone, Copy)]
pub struct Entry<'a>(pub &'a SyntaxNode);

impl<'a> Entry<'a> {
    /// Whether a node of raw kind `kind` is a `Entry`.
    pub open spec fn is_kind(kind: u16) -> bool {
        kind == SyntaxKind::ENTRY.raw()
    }

    /// Whether a node of raw kind `kind` is a `Entry`.
    pub fn can_cast(kind: u16) -> (b: bool)
        ensures
            b == Self::is_kind(kind),
    {
        kind == SyntaxKind::ENTRY.to_raw()
    }

    /// `node` as a `Entry`, if it is one.
    pub fn cast(node: &'a SyntaxNode) -> (r: Option<Self>)
        ensures
            r.is_some() == Self::is_kind(node.kind),
            r.is_some() ==> r.unwrap().0 == node,
    {
        if Self::can_cast(node.kind) {
            Some(Entry(node))
        } else {
            None
        }
    }
}

impl<'a> AstNode<'a> for Entry<'a> {
    open spec fn node(&self) -> SyntaxNode {
        *self.0
    }

    fn syntax(&self) -> (n: &'a SyntaxNode) {
        self.0
    }
}

/// A field of an entry.
#[derive(Debug, Clone, Copy)]
pub struct Field<'a>(pub &'a SyntaxNode);

impl<'a> Field<'a> {
    /// Whether a node of raw kind `kind` is a `Field`.
    pub open spec fn is_kind(kind: u16) -> bool {
        kind == SyntaxKind::FIELD.raw()
    }

    /// Whether a node of raw kind `kind` is a `Field`.
    pub fn can_cast(kind: u16) -> (b: bool)
        ensures
            b == Self::is_kind(kind),
    {
        kind == SyntaxKind::FIELD.to_raw()
    }

    /// `node` as a `Field`, if it is one.
    pub fn cast(node: &'a SyntaxNode) -> (r: Option<Self>)
        ensures
            r.is_some() == Self::is_kind(node.kind),
            r.is_some() ==> r.unwrap().0 == node,
    {
        if Self::can_cast(node.kind) {
            Some(Field(node))
        } else {
            None
        }
    }
}

impl<'a> AstNode<'a> for Field<'a> {
    open spec fn node(&self) -> SyntaxNode {
        *self.0
    }

    fn syntax(&self) -> (n: &'a SyntaxNode) {
        self.0
    }
}

/// A literal value: a name or an integer.
#[derive(Debug, Clone, Copy)]
pub struct Literal<'a>(pub &'a SyntaxNode);

impl<'a> Literal<'a> {
    /// Whether a node of raw kind `kind` is a `Literal`.
    pub open spec fn is_kind(kind: u16) -> bool {
        kind == SyntaxKind::LITERAL.raw()
    }

    /// Whether a node of raw kind `kind` is a `Literal`.
    pub fn can_cast(kind: u16) -> (b: bool)
        ensures
            b == Self::is_kind(kind),
    {
        kind == SyntaxKind::LITERAL.to_raw()
    }

    /// `node` as a `Literal`, if it is one.
    pub fn cast(node: &'a SyntaxNode) -> (r: Option<Self>)
        ensures
            r.is_some() == Self::is_kind(node.kind),
            r.is_some() ==> r.unwrap().0 == node,
    {
        if Self::can_cast(node.kind) {
            Some(Literal(node))
        } else {
            None
        }
    }
}

impl<'a> AstNode<'a> for Literal<'a> {
    open spec fn node(&self) -> SyntaxNode {
        *self.0
    }

    fn syntax(&self) -> (n: &'a SyntaxNode) {
        self.0
    }
}

/// A value in braces.
#[derive(Debug, Clone, Copy)]
pub struct CurlyGroup<'a>(pub &'a SyntaxNode);

impl<'a> CurlyGroup<'a> {
    /// Whether a node of raw kind `kind` is a `CurlyGroup`.
    pub open spec fn is_kind(kind: u16) -> bool {
        kind == SyntaxKind::CURLY_GROUP.raw()
    }

    /// Whether a node of raw kind `kind` is a `CurlyGroup`.
    pub fn can_cast(kind: u16) -> (b: bool)
        ensures
            b == Self::is_kind(kind),
    {
        kind == SyntaxKind::CURLY_GROUP.to_raw()
    }

    /// `node` as a `CurlyGroup`, if it is one.
    pub fn cast(node: &'a SyntaxNode) -> (r: Option<Self>)
        ensures
            r.is_some() == Self::is_kind(node.kind),
            r.is_some() ==> r.unwrap().0 == node,
    {
        if Self::can_cast(node.kind) {
            Some(CurlyGroup(node))
        } else {
            None
        }
    }
}

impl<'a> AstNode<'a> for CurlyGroup<'a> {
    open spec fn node(&self) -> SyntaxNode {
        *self.0
    }

    fn syntax(&self) -> (n: &'a SyntaxNode) {
        self.0
    }
}

/// A value in quotes.
#[derive(Debug, Clone, Copy)]
pub struct QuoteGroup<'a>(pub &'a SyntaxNode);

impl<'a> QuoteGroup<'a> {
    /// Whether a node of raw kind `kind` is a `QuoteGroup`.
    pub open spec fn is_kind(kind: u16) -> bool {
        kind == SyntaxKind::QUOTE_GROUP.raw()
    }

    /// Whether a node of raw kind `kind` is a `QuoteGroup`.
    pub fn can_cast(kind: u16) -> (b: bool)
        ensures
            b == Self::is_kind(kind),
    {
        kind == SyntaxKind::QUOTE_GROUP.to_raw()
    }

    /// `node` as a `QuoteGroup`, if it is one.
    pub fn cast(node: &'a SyntaxNode) -> (r: Option<Self>)
        ensures
            r.is_some() == Self::is_kind(node.kind),
            r.is_some() ==> r.unwrap().0 == node,
    {
        if Self::can_cast(node.kind) {
            Some(QuoteGroup(node))
        } else {
            None
        }
    }
}

impl<'a> AstNode<'a> for QuoteGroup<'a> {
    open spec fn node(&self) -> SyntaxNode {
        *self.0
    }

    fn syntax(&self) -> (n: &'a SyntaxNode) {
        self.0
    }
}

/// Two values joined by `#`.
#[derive(Debug, Clone, Copy)]
pub struct Join<'a>(pub &'a SyntaxNode);

impl<'a> Join<'a> {
    /// Whether a node of raw kind `kind` is a `Join`.
    pub open spec fn is_kind(kind: u16) -> bool {
        kind == SyntaxKind::JOIN.raw()
    }

    /// Whether a node of raw kind `kind` is a `Join`.
    pub fn can_cast(kind: u16) -> (b: bool)
        ensures
            b == Self::is_kind(kind),
    {
        kind == SyntaxKind::JOIN.to_raw()
    }

    /// `node` as a `Join`, if it is one.
    pub fn cast(node: &'a SyntaxNode) -> (r: Option<Self>)
        ensures
            r.is_some() == Self::is_kind(node.kind),
            r.is_some() ==> r.unwrap().0 == node,
    {
        if Self::can_cast(node.kind) {
            Some(Join(node))
        } else {
            None
        }
    }
}

impl<'a> AstNode<'a> for Join<'a> {
    open spec fn node(&self) -> SyntaxNode {
        *self.0
    }

    fn syntax(&self) -> (n: &'a SyntaxNode) {
        self.0
    }
}

/// An accent command and the letter it applies to.
#[derive(Debug, Clone, Copy)]
pub struct Accent<'a>(pub &'a SyntaxNode);

impl<'a> Accent<'a> {
    /// Whether a node of raw kind `kind` is a `Accent`.
    pub open spec fn is_kind(kind: u16) -> bool {
        kind == SyntaxKind::ACCENT.raw()
    }

    /// Whether a node of raw kind `kind` is a `Accent`.
    pub fn can_cast(kind: u16) -> (b: bool)
        ensures
            b == Self::is_kind(kind),
    {
        kind == SyntaxKind::ACCENT.to_raw()
    }

    /// `node` as a `Accent`, if it is one.
    pub fn cast(node: &'a SyntaxNode) -> (r: Option<Self>)
        ensures
            r.is_some() == Self::is_kind(node.kind),
            r.is_some() ==> r.unwrap().0 == node,
    {
        if Self::can_cast(node.kind) {
            Some(Accent(node))
        } else {
            None
        }
    }
}

impl<'a> AstNode<'a> for Accent<'a> {
    open spec fn node(&self) -> SyntaxNode {
        *self.0
    }

    fn syntax(&self) -> (n: &'a SyntaxNode) {
        self.0
    }
}

/// A command inside a value.
#[derive(Debug, Clone, Copy)]
pub struct Command<'a>(pub &'a SyntaxNode);

impl<'a> Command<'a> {
    /// Whether a node of raw kind `kind` is a `Command`.
    pub open spec fn is_kind(kind: u16) -> bool {
        kind == SyntaxKind::COMMAND.raw()
    }

    /// Whether a node of raw kind `kind` is a `Command`.
    pub fn can_cast(kind: u16) -> (b: bool)
        ensures
            b == Self::is_kind(kind),
    {
        kind == SyntaxKind::COMMAND.to_raw()
    }

    /// `node` as a `Command`, if it is one.
    pub fn cast(node: &'a SyntaxNode) -> (r: Option<Self>)
        ensures
            r.is_some() == Self::is_kind(node.kind),
            r.is_some() ==> r.unwrap().0 == node,
    {
        if Self::can_cast(node.kind) {
            Some(Command(node))
        } else {
            None
        }
    }
}

impl<'a> AstNode<'a> for Command<'a> {
    open spec fn node(&self) -> SyntaxNode {
        *self.0
    }

    fn syntax(&self) -> (n: &'a SyntaxNode) {
        self.0
    }
}

/// The raw kinds of the nodes that are values.
pub open spec fn value_kinds() -> Seq<u16> {
    seq![SyntaxKind::LITERAL.raw(), SyntaxKind::CURLY_GROUP.raw(), SyntaxKind::QUOTE_GROUP.raw(), SyntaxKind::JOIN.raw(), SyntaxKind::ACCENT.raw(), SyntaxKind::COMMAND.raw()]
}

/// The raw kinds of the nodes that are values.
pub fn value_kinds_vec() -> (v: Vec<u16>)
    ensures
        v@ == value_kinds(),
{
    let mut v = Vec::new();
    v.push(SyntaxKind::LITERAL.to_raw());
    v.push(SyntaxKind::CURLY_GROUP.to_raw());
    v.push(SyntaxKind::QUOTE_GROUP.to_raw());
    v.push(SyntaxKind::JOIN.to_raw());
    v.push(SyntaxKind::ACCENT.to_raw());
    v.push(SyntaxKind::COMMAND.to_raw());
    v
}

/// A value: one of the six kinds of value nodes.
#[derive(Debug, Clone, Copy)]
pub enum Value<'a> {
    Literal(Literal<'a>),
    CurlyGroup(CurlyGroup<'a>),
    QuoteGroup(QuoteGroup<'a>),
    Join(Join<'a>),
    Accent(Accent<'a>),
    Command(Command<'a>),
}

impl<'a> Value<'a> {
    /// Whether a node of raw kind `kind` is a value.
    pub open spec fn is_kind(kind: u16) -> bool {
        value_kinds().contains(kind)
    }

    /// Whether a node of raw kind `kind` is a value.
    pub fn can_cast(kind: u16) -> (b: bool)
        ensures
            b == Self::is_kind(kind),
    {
        proof {
            assert(value_kinds()[0] == SyntaxKind::LITERAL.raw());
            assert(value_kinds()[1] == SyntaxKind::CURLY_GROUP.raw());
            assert(value_kinds()[2] == SyntaxKind::QUOTE_GROUP.raw());
            assert(value_kinds()[3] == SyntaxKind::JOIN.raw());
            assert(value_kinds()[4] == SyntaxKind::ACCENT.raw());
            assert(value_kinds()[5] == SyntaxKind::COMMAND.raw());
        }
        Literal::can_cast(kind) || CurlyGroup::can_cast(kind) || QuoteGroup::can_cast(kind) || Join::can_cast(kind) || Accent::can_cast(kind) || Command::can_cast(kind)
    }

    /// `node` as a value, if it is one: the variant that its kind names.
    pub fn cast(node: &'a SyntaxNode) -> (r: Option<Self>)
        ensures
            r.is_some() == Self::is_kind(node.kind),
            r.is_some() ==> r.unwrap().node() == *node,
            r matches Some(Value::Literal(_)) <==> Literal::is_kind(node.kind),
            r matches Some(Value::CurlyGroup(_)) <==> CurlyGroup::is_kind(node.kind),
            r matches Some(Value::QuoteGroup(_)) <==> QuoteGroup::is_kind(node.kind),
            r matches Some(Value::Join(_)) <==> Join::is_kind(node.kind),
            r matches Some(Value::Accent(_)) <==> Accent::is_kind(node.kind),
            r matches Some(Value::Command(_)) <==> Command::is_kind(node.kind),
    {
        proof {
            assert(value_kinds()[0] == SyntaxKind::LITERAL.raw());
            assert(value_kinds()[1] == SyntaxKind::CURLY_GROUP.raw());
            assert(value_kinds()[2] == SyntaxKind::QUOTE_GROUP.raw());
            assert(value_kinds()[3] == SyntaxKind::JOIN.raw());
            assert(value_kinds()[4] == SyntaxKind::ACCENT.raw());
            assert(value_kinds()[5] == SyntaxKind::COMMAND.raw());
        }
        if let Some(n) = Literal::cast(node) {
            Some(Value::Literal(n))
        } else if let Some(n) = CurlyGroup::cast(node) {
            Some(Value::CurlyGroup(n))
        } else if let Some(n) = QuoteGroup::cast(node) {
            Some(Value::QuoteGroup(n))
        } else if let Some(n) = Join::cast(node) {
            Some(Value::Join(n))
        } else if let Some(n) = Accent::cast(node) {
            Some(Value::Accent(n))
        } else if let Some(n) = Command::cast(node) {
            Some(Value::Command(n))
        } else {
            None
        }
    }
}

impl<'a> AstNode<'a> for Value<'a> {
    open spec fn node(&self) -> SyntaxNode {
        match self {
            Value::Literal(n) => *n.0,
            Value::CurlyGroup(n) => *n.0,
            Value::QuoteGroup(n) => *n.0,
            Value::Join(n) => *n.0,
            Value::Accent(n) => *n.0,
            Value::Command(n) => *n.0,
        }
    }

    fn syntax(&self) -> (n: &'a SyntaxNode) {
        match self {
            Value::Literal(n) => n.0,
            Value::CurlyGroup(n) => n.0,
            Value::QuoteGroup(n) => n.0,
            Value::Join(n) => n.0,
            Value::Accent(n) => n.0,
            Value::Command(n) => n.0,
        }
    }
}

/// Nodes that start with a type token.
pub trait HasType<'a>: AstNode<'a> {
    /// The type token, such as `@article`.
    fn type_token(&self) -> (r: Option<&'a SyntaxToken>)
        ensures
            r.is_some() == nth_token(self.node(), seq![SyntaxKind::TYPE.raw()], 0).is_some(),
            r.is_some() ==> nth_token(self.node(), seq![SyntaxKind::TYPE.raw()], 0) == Some(*r.unwrap()),
    {
        nth_child_token(self.syntax(), &kinds1(SyntaxKind::TYPE.to_raw()), 0)
    }
}

/// Nodes enclosed in delimiters.
pub trait HasDelims<'a>: AstNode<'a> {
    /// The opening delimiter.
    fn left_delim_token(&self) -> (r: Option<&'a SyntaxToken>)
        ensures
            r.is_some() == nth_token(self.node(), seq![SyntaxKind::L_DELIM.raw()], 0).is_some(),
            r.is_some() ==> nth_token(self.node(), seq![SyntaxKind::L_DELIM.raw()], 0) == Some(*r.unwrap()),
    {
        nth_child_token(self.syntax(), &kinds1(SyntaxKind::L_DELIM.to_raw()), 0)
    }

    /// The closing delimiter.
    fn right_delim_token(&self) -> (r: Option<&'a SyntaxToken>)
        ensures
            r.is_some() == nth_token(self.node(), seq![SyntaxKind::R_DELIM.raw()], 0).is_some(),
            r.is_some() ==> nth_token(self.node(), seq![SyntaxKind::R_DELIM.raw()], 0) == Some(*r.unwrap()),
    {
        nth_child_token(self.syntax(), &kinds1(SyntaxKind::R_DELIM.to_raw()), 0)
    }
}

/// Nodes with a name token.
pub trait HasName<'a>: AstNode<'a> {
    /// The name token.
    fn name_token(&self) -> (r: Option<&'a SyntaxToken>)
        ensures
            r.is_some() == nth_token(self.node(), seq![SyntaxKind::NAME.raw()], 0).is_some(),
            r.is_some() ==> nth_token(self.node(), seq![SyntaxKind::NAME.raw()], 0) == Some(*r.unwrap()),
    {
        nth_child_token(self.syntax(), &kinds1(SyntaxKind::NAME.to_raw()), 0)
    }
}

/// Nodes with an `=` token.
pub trait HasEq<'a>: AstNode<'a> {
    /// The `=` token.
    fn eq_token(&self) -> (r: Option<&'a SyntaxToken>)
        ensures
            r.is_some() == nth_token(self.node(), seq![SyntaxKind::EQ.raw()], 0).is_some(),
            r.is_some() ==> nth_token(self.node(), seq![SyntaxKind::EQ.raw()], 0) == Some(*r.unwrap()),
    {
        nth_child_token(self.syntax(), &kinds1(SyntaxKind::EQ.to_raw()), 0)
    }
}

/// Nodes with a `,` token.
pub trait HasComma<'a>: AstNode<'a> {
    /// The `,` token.
    fn comma_token(&self) -> (r: Option<&'a SyntaxToken>)
        ensures
            r.is_some() == nth_token(self.node(), seq![SyntaxKind::COMMA.raw()], 0).is_some(),
            r.is_some() ==> nth_token(self.node(), seq![SyntaxKind::COMMA.raw()], 0) == Some(*r.unwrap()),
    {
        nth_child_token(self.syntax(), &kinds1(SyntaxKind::COMMA.to_raw()), 0)
    }
}

/// Nodes with a `#` token.
pub trait HasPound<'a>: AstNode<'a> {
    /// The `#` token.
    fn pound_token(&self) -> (r: Option<&'a SyntaxToken>)
        ensures
            r.is_some() == nth_token(self.node(), seq![SyntaxKind::POUND.raw()], 0).is_some(),
            r.is_some() ==> nth_token(self.node(), seq![SyntaxKind::POUND.raw()], 0) == Some(*r.unwrap()),
    {
        nth_child_token(self.syntax(), &kinds1(SyntaxKind::POUND.to_raw()), 0)
    }
}

/// Nodes with an integer token.
pub trait HasInteger<'a>: AstNode<'a> {
    /// The integer token.
    fn integer_token(&self) -> (r: Option<&'a SyntaxToken>)
        ensures
            r.is_some() == nth_token(self.node(), seq![SyntaxKind::INTEGER.raw()], 0).is_some(),
            r.is_some() ==> nth_token(self.node(), seq![SyntaxKind::INTEGER.raw()], 0) == Some(*r.unwrap()),
    {
        nth_child_token(self.syntax(), &kinds1(SyntaxKind::INTEGER.to_raw()), 0)
    }
}

/// Nodes with a command name.
pub trait HasCommandName<'a>: AstNode<'a> {
    /// The command name.
    fn command_name_token(&self) -> (r: Option<&'a SyntaxToken>)
        ensures
            r.is_some() == nth_token(self.node(), seq![SyntaxKind::COMMAND_NAME.raw()], 0).is_some(),
            r.is_some() ==> nth_token(self.node(), seq![SyntaxKind::COMMAND_NAME.raw()], 0) == Some(*r.unwrap()),
    {
        nth_child_token(self.syntax(), &kinds1(SyntaxKind::COMMAND_NAME.to_raw()), 0)
    }
}

/// Nodes with an accent's command name.
pub trait HasAccentName<'a>: AstNode<'a> {
    /// The accent's command name.
    fn accent_name_token(&self) -> (r: Option<&'a SyntaxToken>)
        ensures
            r.is_some() == nth_token(self.node(), seq![SyntaxKind::ACCENT_NAME.raw()], 0).is_some(),
            r.is_some() ==> nth_token(self.node(), seq![SyntaxKind::ACCENT_NAME.raw()], 0) == Some(*r.unwrap()),
    {
        nth_child_token(self.syntax(), &kinds1(SyntaxKind::ACCENT_NAME.to_raw()), 0)
    }
}

/// Nodes with a word token.
pub trait HasWord<'a>: AstNode<'a> {
    /// The word token.
    fn word_token(&self) -> (r: Option<&'a SyntaxToken>)
        ensures
            r.is_some() == nth_token(self.node(), seq![SyntaxKind::WORD.raw()], 0).is_some(),
            r.is_some() ==> nth_token(self.node(), seq![SyntaxKind::WORD.raw()], 0) == Some(*r.unwrap()),
    {
        nth_child_token(self.syntax(), &kinds1(SyntaxKind::WORD.to_raw()), 0)
    }
}

/// Nodes that hold a value.
pub trait HasValue<'a>: AstNode<'a> {
    /// The first child that is a value.
    fn value(&self) -> (r: Option<Value<'a>>)
        ensures
            r.is_some() == nth_node(self.node(), value_kinds(), 0).is_some(),
            r.is_some() ==> nth_node(self.node(), value_kinds(), 0) == Some(r.unwrap().node()),
    {
        match nth_child_node(self.syntax(), &value_kinds_vec(), 0) {
            Some(n) => {
                proof {
                    crate::cst_support::lemma_nodes_with_kind_kinds(
                        child_nodes(self.node().children@),
                        value_kinds(),
                    );
                    assert(value_kinds().contains(
                        nodes_with_kind(child_nodes(self.node().children@), value_kinds())[0].kind,
                    ));
                }
                Value::cast(n)
            },
            None => None,
        }
    }
}

impl<'a> HasType<'a> for Preamble<'a> {

}

impl<'a> HasDelims<'a> for Preamble<'a> {

}

impl<'a> HasValue<'a> for Preamble<'a> {

}

impl<'a> HasType<'a> for StringDef<'a> {

}

impl<'a> HasDelims<'a> for StringDef<'a> {

}

impl<'a> HasName<'a> for StringDef<'a> {

}

impl<'a> HasEq<'a> for StringDef<'a> {

}

impl<'a> HasValue<'a> for StringDef<'a> {

}

impl<'a> HasType<'a> for Entry<'a> {

}

impl<'a> HasDelims<'a> for Entry<'a> {

}

impl<'a> HasName<'a> for Entry<'a> {

}

impl<'a> HasComma<'a> for Entry<'a> {

}

impl<'a> HasName<'a> for Field<'a> {

}

impl<'a> HasEq<'a> for Field<'a> {

}

impl<'a> HasValue<'a> for Field<'a> {

}

impl<'a> HasComma<'a> for Field<'a> {

}

impl<'a> HasName<'a> for Literal<'a> {

}

impl<'a> HasInteger<'a> for Literal<'a> {

}

impl<'a> HasPound<'a> for Join<'a> {

}

impl<'a> HasAccentName<'a> for Accent<'a> {

}

impl<'a> HasWord<'a> for Accent<'a> {

}

impl<'a> HasCommandName<'a> for Command<'a> {

}

/// The first of `entries` whose name token reads `name`.
pub open spec fn entry_named(entries: Seq<SyntaxNode>, name: Seq<char>) -> Option<SyntaxNode>
    decreases entries.len(),
{
    if entries.len() == 0 {
        None
    } else if (match nth_token(entries[0], seq![SyntaxKind::NAME.raw()], 0) {
        Some(t) => t.text@ == name,
        None => false,
    }) {
        Some(entries[0])
    } else {
        entry_named(entries.drop_first(), name)
    }
}

/// The nodes of `entries`.
pub open spec fn entry_nodes(entries: Seq<Entry>) -> Seq<SyntaxNode> {
    Seq::new(entries.len(), |i: int| *entries[i].0)
}

impl<'a> Root<'a> {
    /// The `@string` definitions, in order.
    pub fn strings(&self) -> (r: Vec<StringDef<'a>>)
        ensures
            r@.len() == nodes_with_kind(child_nodes(self.0.children@), seq![SyntaxKind::STRING.raw()]).len(),
            forall|j: int| 0 <= j < r@.len() ==> *(#[trigger] r@[j]).0 == nodes_with_kind(
                child_nodes(self.0.children@),
                seq![SyntaxKind::STRING.raw()],
            )[j],
    {
        let nodes = crate::cst_support::child_nodes_with_kind(self.0, &kinds1(SyntaxKind::STRING.to_raw()));
        let mut r: Vec<StringDef<'a>> = Vec::new();
        let mut i: usize = 0;
        while i < nodes.len()
            invariant
                i <= nodes@.len(),
                r@.len() == i,
                forall|j: int| 0 <= j < i ==> (#[trigger] r@[j]).0 == nodes@[j],
            decreases nodes.len() - i,
        {
            r.push(StringDef(nodes[i]));
            i += 1;
        }
        r
    }

    /// The entries, in order.
    pub fn entries(&self) -> (r: Vec<Entry<'a>>)
        ensures
            entry_nodes(r@) == nodes_with_kind(child_nodes(self.0.children@), seq![SyntaxKind::ENTRY.raw()]),
    {
        let nodes = crate::cst_support::child_nodes_with_kind(self.0, &kinds1(SyntaxKind::ENTRY.to_raw()));
        let mut r: Vec<Entry<'a>> = Vec::new();
        let mut i: usize = 0;
        while i < nodes.len()
            invariant
                i <= nodes@.len(),
                r@.len() == i,
                forall|j: int| 0 <= j < i ==> (#[trigger] r@[j]).0 == nodes@[j],
            decreases nodes.len() - i,
        {
            r.push(Entry(nodes[i]));
            i += 1;
        }
        assert(entry_nodes(r@) =~= nodes_with_kind(child_nodes(self.0.children@), seq![SyntaxKind::ENTRY.raw()]));
        r
    }

    /// The first entry whose name is `name`.
    pub fn find_entry(&self, name: &str) -> (r: Option<Entry<'a>>)
        ensures
            r.is_some() == entry_named(
                nodes_with_kind(child_nodes(self.0.children@), seq![SyntaxKind::ENTRY.raw()]),
                name@,
            ).is_some(),
            r.is_some() ==> Some(*r.unwrap().0) == entry_named(
                nodes_with_kind(child_nodes(self.0.children@), seq![SyntaxKind::ENTRY.raw()]),
                name@,
            ),
    {
        let entries = self.entries();
        let ghost all = entry_nodes(entries@);
        let mut i: usize = 0;
        proof {
            assert(all.skip(0) =~= all);
        }
        while i < entries.len()
            invariant
                i <= entries@.len(),
                all == entry_nodes(entries@),
                all == nodes_with_kind(child_nodes(self.0.children@), seq![SyntaxKind::ENTRY.raw()]),
                entry_named(all, name@) == entry_named(all.skip(i as int), name@),
            decreases entries.len() - i,
        {
            let entry = entries[i];
            let ghost rest = all.skip(i as int);
            proof {
                assert(rest[0] == *entry.0);
                assert(rest.drop_first() =~= all.skip(i + 1));
            }
            let found = match entry.name_token() {
                Some(t) => {
                    let chars = crate::text::chars_of(t.text.as_str());
                    super::super::latex::lexer::chars_eq_str(&chars, name)
                },
                None => false,
            };
            proof {
                if found {
                    assert(entry_named(rest, name@) == Some(*entry.0));
                } else {
                    assert(entry_named(rest, name@) == entry_named(all.skip(i + 1), name@));
                }
            }
            if found {
                return Some(entry);
            }
            i += 1;
        }
        proof {
            assert(all.skip(i as int).len() == 0);
        }
        None
    }
}

impl<'a> Entry<'a> {
    /// The fields, in order.
    pub fn fields(&self) -> (r: Vec<Field<'a>>)
        ensures
            r@.len() == nodes_with_kind(child_nodes(self.0.children@), seq![SyntaxKind::FIELD.raw()]).len(),
            forall|j: int| 0 <= j < r@.len() ==> *(#[trigger] r@[j]).0 == nodes_with_kind(
                child_nodes(self.0.children@),
                seq![SyntaxKind::FIELD.raw()],
            )[j],
    {
        let nodes = crate::cst_support::child_nodes_with_kind(self.0, &kinds1(SyntaxKind::FIELD.to_raw()));
        let mut r: Vec<Field<'a>> = Vec::new();
        let mut i: usize = 0;
        while i < nodes.len()
            invariant
                i <= nodes@.len(),
                r@.len() == i,
                forall|j: int| 0 <= j < i ==> (#[trigger] r@[j]).0 == nodes@[j],
            decreases nodes.len() - i,
        {
            r.push(Field(nodes[i]));
            i += 1;
        }
        r
    }
}

impl<'a> Join<'a> {
    /// The value before the `#`.
    pub fn left_value(&self) -> (r: Option<Value<'a>>)
        ensures
            r.is_some() == nth_node(*self.0, value_kinds(), 0).is_some(),
            r.is_some() ==> nth_node(*self.0, value_kinds(), 0) == Some(r.unwrap().node()),
    {
        self.value_at(0)
    }

    /// The value after the `#`.
    pub fn right_value(&self) -> (r: Option<Value<'a>>)
        ensures
            r.is_some() == nth_node(*self.0, value_kinds(), 1).is_some(),
            r.is_some() ==> nth_node(*self.0, value_kinds(), 1) == Some(r.unwrap().node()),
    {
        self.value_at(1)
    }

    /// The child value at position `i` among the child values.
    fn value_at(&self, i: usize) -> (r: Option<Value<'a>>)
        ensures
            r.is_some() == nth_node(*self.0, value_kinds(), i as int).is_some(),
            r.is_some() ==> nth_node(*self.0, value_kinds(), i as int) == Some(r.unwrap().node()),
    {
        match nth_child_node(self.0, &value_kinds_vec(), i) {
            Some(n) => {
                proof {
                    crate::cst_support::lemma_nodes_with_kind_kinds(
                        child_nodes(self.0.children@),
                        value_kinds(),
                    );
                    assert(value_kinds().contains(
                        nodes_with_kind(child_nodes(self.0.children@), value_kinds())[i as int].kind,
                    ));
                }
                Value::cast(n)
            },
            None => None,
        }
    }
}
/// What `Root::find_entry` finds is the first entry whose name token reads
/// `name`: it is one of the entries, its name reads `name`, and no entry
/// before it has that name.
pub proof fn lemma_entry_named_first(entries: Seq<SyntaxNode>, name: Seq<char>)
    ensures
        match entry_named(entries, name) {
            Some(e) => exists|i: int|
                0 <= i < entries.len() && entries[i] == e && (match nth_token(
                    e,
                    seq![SyntaxKind::NAME.raw()],
                    0,
                ) {
                    Some(t) => t.text@ == name,
                    None => false,
                }) && forall|j: int|
                    0 <= j < i ==> !(match #[trigger] nth_token(
                        entries[j],
                        seq![SyntaxKind::NAME.raw()],
                        0,
                    ) {
                        Some(t) => t.text@ == name,
                        None => false,
                    }),
            None => forall|j: int|
                0 <= j < entries.len() ==> !(match #[trigger] nth_token(
                    entries[j],
                    seq![SyntaxKind::NAME.raw()],
                    0,
                ) {
                    Some(t) => t.text@ == name,
                    None => false,
                }),
        },
    decreases entries.len(),
{
    if entries.len() > 0 {
        let rest = entries.drop_first();
        lemma_entry_named_first(rest, name);
        let named = match nth_token(entries[0], seq![SyntaxKind::NAME.raw()], 0) {
            Some(t) => t.text@ == name,
            None => false,
        };
        if !named {
            match entry_named(rest, name) {
                Some(e) => {
                    let i = choose|i: int|
                        0 <= i < rest.len() && rest[i] == e && (match nth_token(
                            e,
                            seq![SyntaxKind::NAME.raw()],
                            0,
                        ) {
                            Some(t) => t.text@ == name,
                            None => false,
                        }) && forall|j: int|
                            0 <= j < i ==> !(match #[trigger] nth_token(
                                rest[j],
                                seq![SyntaxKind::NAME.raw()],
                                0,
                            ) {
                                Some(t) => t.text@ == name,
                                None => false,
                            });
                    assert(entries[i + 1] == e);
                    assert forall|j: int| 0 <= j < i + 1 implies !(match #[trigger] nth_token(
                        entries[j],
                        seq![SyntaxKind::NAME.raw()],
                        0,
                    ) {
                        Some(t) => t.text@ == name,
                        None => false,
                    }) by {
                        if j > 0 {
                            assert(entries[j] == rest[j - 1]);
                        }
                    }
                },
                None => {
                    assert forall|j: int| 0 <= j < entries.len() implies !(match #[trigger] nth_token(
                        entries[j],
                        seq![SyntaxKind::NAME.raw()],
                        0,
                    ) {
                        Some(t) => t.text@ == name,
                        None => false,
                    }) by {
                        if j > 0 {
                            assert(entries[j] == rest[j - 1]);
                        }
                    }
                },
            }
        }
    }
}

} // verus!
