use vstd::prelude::*;

use crate::cst_support::{
    child_nodes, child_tokens, child_tokens_with_kind, child_tokens_without_kind, deref_nodes,
    deref_tokens, descendant_tokens, descendants, descendants_with_kind, first_token, first_token_of, group_content,
    group_content_text, group_text_sliceable, kinds1, kinds2, nodes_with_kind, nth_child_node,
    lemma_tokens_text_add, nth_child_token, nth_node, nth_token, tokens_text, tokens_with_kind,
    tokens_without_kind, trim,
};
use crate::tree::{SyntaxNode, SyntaxToken};
use vstd::utf8::encode_utf8;

use super::kind::SyntaxKind;

verus! {

/// A run of text.
#[derive(Debug, Clone, Copy)]
pub struct Text<'a>(pub &'a SyntaxNode);

impl<'a> Text<'a> {
    /// Whether a node of raw kind `kind` is a `Text`.
    pub open spec fn is_kind(kind: u16) -> bool {
        kind == SyntaxKind::TEXT.raw()
    }

    /// Whether a node of raw kind `kind` is a `Text`.
    pub fn can_cast(kind: u16) -> (b: bool)
        ensures
            b == Self::is_kind(kind),
    {
        kind == SyntaxKind::TEXT.to_raw()
    }

    /// `node` as a `Text`, if it is one.
    pub fn cast(node: &'a SyntaxNode) -> (r: Option<Self>)
        ensures
            r.is_some() == Self::is_kind(node.kind),
            r.is_some() ==> r.unwrap().0 == node,
    {
        if Self::can_cast(node.kind) {
            Some(Text(node))
        } else {
            None
        }
    }

    /// The node.
    pub fn syntax(&self) -> (n: &'a SyntaxNode)
        ensures
            n == self.0,
    {
        self.0
    }
}

/// A group in braces.
#[derive(Debug, Clone, Copy)]
pub struct CurlyGroup<'a>(pub &'a SyntaxNode);

impl<'a> CurlyGroup<'a> {
    /// Whether a node of raw kind `kind` is a `CurlyGroup`.
    pub open spec fn is_kind(kind: u16) -> bool {
        kind == SyntaxKind::CURLY_GROUP.raw()
    }

    /// Whether a node of raw kind `kind` is a `CurlyGroup`.
    pub fn can_cast(kind: u16) -> (b: bool)
        ensures
            b == Self::is_kind(kind),
    {
        kind == SyntaxKind::CURLY_GROUP.to_raw()
    }

    /// `node` as a `CurlyGroup`, if it is one.
    pub fn cast(node: &'a SyntaxNode) -> (r: Option<Self>)
        ensures
            r.is_some() == Self::is_kind(node.kind),
            r.is_some() ==> r.unwrap().0 == node,
    {
        if Self::can_cast(node.kind) {
            Some(CurlyGroup(node))
        } else {
            None
        }
    }

    /// The node.
    pub fn syntax(&self) -> (n: &'a SyntaxNode)
        ensures
            n == self.0,
    {
        self.0
    }
}

/// A group in brackets.
#[derive(Debug, Clone, Copy)]
pub struct BrackGroup<'a>(pub &'a SyntaxNode);

impl<'a> BrackGroup<'a> {
    /// Whether a node of raw kind `kind` is a `BrackGroup`.
    pub open spec fn is_kind(kind: u16) -> bool {
        kind == SyntaxKind::BRACK_GROUP.raw()
    }

    /// Whether a node of raw kind `kind` is a `BrackGroup`.
    pub fn can_cast(kind: u16) -> (b: bool)
        ensures
            b == Self::is_kind(kind),
    {
        kind == SyntaxKind::BRACK_GROUP.to_raw()
    }

    /// `node` as a `BrackGroup`, if it is one.
    pub fn cast(node: &'a SyntaxNode) -> (r: Option<Self>)
        ensures
            r.is_some() == Self::is_kind(node.kind),
            r.is_some() ==> r.unwrap().0 == node,
    {
        if Self::can_cast(node.kind) {
            Some(BrackGroup(node))
        } else {
            None
        }
    }

    /// The node.
    pub fn syntax(&self) -> (n: &'a SyntaxNode)
        ensures
            n == self.0,
    {
        self.0
    }
}

/// A group in parentheses.
#[derive(Debug, Clone, Copy)]
pub struct ParenGroup<'a>(pub &'a SyntaxNode);

impl<'a> ParenGroup<'a> {
    /// Whether a node of raw kind `kind` is a `ParenGroup`.
    pub open spec fn is_kind(kind: u16) -> bool {
        kind == SyntaxKind::PAREN_GROUP.raw()
    }

    /// Whether a node of raw kind `kind` is a `ParenGroup`.
    pub fn can_cast(kind: u16) -> (b: bool)
        ensures
            b == Self::is_kind(kind),
    {
        kind == SyntaxKind::PAREN_GROUP.to_raw()
    }

    /// `node` as a `ParenGroup`, if it is one.
    pub fn cast(node: &'a SyntaxNode) -> (r: Option<Self>)
        ensures
            r.is_some() == Self::is_kind(node.kind),
            r.is_some() ==> r.unwrap().0 == node,
    {
        if Self::can_cast(node.kind) {
            Some(ParenGroup(node))
        } else {
            None
        }
    }

    /// The node.
    pub fn syntax(&self) -> (n: &'a SyntaxNode)
        ensures
            n == self.0,
    {
        self.0
    }
}

/// A group opened by a bracket or a parenthesis.
#[derive(Debug, Clone, Copy)]
pub struct MixedGroup<'a>(pub &'a SyntaxNode);

impl<'a> MixedGroup<'a> {
    /// Whether a node of raw kind `kind` is a `MixedGroup`.
    pub open spec fn is_kind(kind: u16) -> bool {
        kind == SyntaxKind::MIXED_GROUP.raw()
    }

    /// Whether a node of raw kind `kind` is a `MixedGroup`.
    pub fn can_cast(kind: u16) -> (b: bool)
        ensures
            b == Self::is_kind(kind),
    {
        kind == SyntaxKind::MIXED_GROUP.to_raw()
    }

    /// `node` as a `MixedGroup`, if it is one.
    pub fn cast(node: &'a SyntaxNode) -> (r: Option<Self>)
        ensures
            r.is_some() == Self::is_kind(node.kind),
            r.is_some() ==> r.unwrap().0 == node,
    {
        if Self::can_cast(node.kind) {
            Some(MixedGroup(node))
        } else {
            None
        }
    }

    /// The node.
    pub fn syntax(&self) -> (n: &'a SyntaxNode)
        ensures
            n == self.0,
    {
        self.0
    }

    /// The opening bracket or parenthesis.
    pub fn left_delim(&self) -> (r: Option<&'a SyntaxToken>)
        ensures
            r.is_some() == nth_token(*self.0, seq![SyntaxKind::L_BRACK.raw(), SyntaxKind::L_PAREN.raw()], 0).is_some(),
            r.is_some() ==> nth_token(*self.0, seq![SyntaxKind::L_BRACK.raw(), SyntaxKind::L_PAREN.raw()], 0) == Some(*r.unwrap()),
    {
        nth_child_token(self.0, &kinds2(SyntaxKind::L_BRACK.to_raw(), SyntaxKind::L_PAREN.to_raw()), 0)
    }

    /// The closing bracket or parenthesis.
    pub fn right_delim(&self) -> (r: Option<&'a SyntaxToken>)
        ensures
            r.is_some() == nth_token(*self.0, seq![SyntaxKind::R_BRACK.raw(), SyntaxKind::R_PAREN.raw()], 0).is_some(),
            r.is_some() ==> nth_token(*self.0, seq![SyntaxKind::R_BRACK.raw(), SyntaxKind::R_PAREN.raw()], 0) == Some(*r.unwrap()),
    {
        nth_child_token(self.0, &kinds2(SyntaxKind::R_BRACK.to_raw(), SyntaxKind::R_PAREN.to_raw()), 0)
    }
}

/// A group in braces that holds one word.
#[derive(Debug, Clone, Copy)]
pub struct CurlyGroupWord<'a>(pub &'a SyntaxNode);

impl<'a> CurlyGroupWord<'a> {
    /// Whether a node of raw kind `kind` is a `CurlyGroupWord`.
    pub open spec fn is_kind(kind: u16) -> bool {
        kind == SyntaxKind::CURLY_GROUP_WORD.raw()
    }

    /// Whether a node of raw kind `kind` is a `CurlyGroupWord`.
    pub fn can_cast(kind: u16) -> (b: bool)
        ensures
            b == Self::is_kind(kind),
    {
        kind == SyntaxKind::CURLY_GROUP_WORD.to_raw()
    }

    /// `node` as a `CurlyGroupWord`, if it is one.
    pub fn cast(node: &'a SyntaxNode) -> (r: Option<Self>)
        ensures
            r.is_some() == Self::is_kind(node.kind),
            r.is_some() ==> r.unwrap().0 == node,
    {
        if Self::can_cast(node.kind) {
            Some(CurlyGroupWord(node))
        } else {
            None
        }
    }

    /// The node.
    pub fn syntax(&self) -> (n: &'a SyntaxNode)
        ensures
            n == self.0,
    {
        self.0
    }

    /// The word.
    pub fn key(&self) -> (r: Option<Key<'a>>)
        ensures
            match r {
                Some(c) => nth_node(*self.0, seq![SyntaxKind::KEY.raw()], 0) == Some(*c.0),
                None => nth_node(*self.0, seq![SyntaxKind::KEY.raw()], 0) is None,
            },
    {
        match nth_child_node(self.0, &kinds1(SyntaxKind::KEY.to_raw()), 0) {
            Some(n) => Some(Key(n)),
            None => None,
        }
    }
}

/// A group in brackets that holds one word.
#[derive(Debug, Clone, Copy)]
pub struct BrackGroupWord<'a>(pub &'a SyntaxNode);

impl<'a> BrackGroupWord<'a> {
    /// Whether a node of raw kind `kind` is a `BrackGroupWord`.
    pub open spec fn is_kind(kind: u16) -> bool {
        kind == SyntaxKind::BRACK_GROUP_WORD.raw()
    }

    /// Whether a node of raw kind `kind` is a `BrackGroupWord`.
    pub fn can_cast(kind: u16) -> (b: bool)
        ensures
            b == Self::is_kind(kind),
    {
        kind == SyntaxKind::BRACK_GROUP_WORD.to_raw()
    }

    /// `node` as a `BrackGroupWord`, if it is one.
    pub fn cast(node: &'a SyntaxNode) -> (r: Option<Self>)
        ensures
            r.is_some() == Self::is_kind(node.kind),
            r.is_some() ==> r.unwrap().0 == node,
    {
        if Self::can_cast(node.kind) {
            Some(BrackGroupWord(node))
        } else {
            None
        }
    }

    /// The node.
    pub fn syntax(&self) -> (n: &'a SyntaxNode)
        ensures
            n == self.0,
    {
        self.0
    }

    /// The word.
    pub fn key(&self) -> (r: Option<Key<'a>>)
        ensures
            match r {
                Some(c) => nth_node(*self.0, seq![SyntaxKind::KEY.raw()], 0) == Some(*c.0),
                None => nth_node(*self.0, seq![SyntaxKind::KEY.raw()], 0) is None,
            },
    {
        match nth_child_node(self.0, &kinds1(SyntaxKind::KEY.to_raw()), 0) {
            Some(n) => Some(Key(n)),
            None => None,
        }
    }
}

/// A group in braces that holds a list of words.
#[derive(Debug, Clone, Copy)]
pub struct CurlyGroupWordList<'a>(pub &'a SyntaxNode);

impl<'a> CurlyGroupWordList<'a> {
    /// Whether a node of raw kind `kind` is a `CurlyGroupWordList`.
    pub open spec fn is_kind(kind: u16) -> bool {
        kind == SyntaxKind::CURLY_GROUP_WORD_LIST.raw()
    }

    /// Whether a node of raw kind `kind` is a `CurlyGroupWordList`.
    pub fn can_cast(kind: u16) -> (b: bool)
        ensures
            b == Self::is_kind(kind),
    {
        kind == SyntaxKind::CURLY_GROUP_WORD_LIST.to_raw()
    }

    /// `node` as a `CurlyGroupWordList`, if it is one.
    pub fn cast(node: &'a SyntaxNode) -> (r: Option<Self>)
        ensures
            r.is_some() == Self::is_kind(node.kind),
            r.is_some() ==> r.unwrap().0 == node,
    {
        if Self::can_cast(node.kind) {
            Some(CurlyGroupWordList(node))
        } else {
            None
        }
    }

    /// The node.
    pub fn syntax(&self) -> (n: &'a SyntaxNode)
        ensures
            n == self.0,
    {
        self.0
    }
}

/// A group in braces that holds a command name.
#[derive(Debug, Clone, Copy)]
pub struct CurlyGroupCommand<'a>(pub &'a SyntaxNode);

impl<'a> CurlyGroupCommand<'a> {
    /// Whether a node of raw kind `kind` is a `CurlyGroupCommand`.
    pub open spec fn is_kind(kind: u16) -> bool {
        kind == SyntaxKind::CURLY_GROUP_COMMAND.raw()
    }

    /// Whether a node of raw kind `kind` is a `CurlyGroupCommand`.
    pub fn can_cast(kind: u16) -> (b: bool)
        ensures
            b == Self::is_kind(kind),
    {
        kind == SyntaxKind::CURLY_GROUP_COMMAND.to_raw()
    }

    /// `node` as a `CurlyGroupCommand`, if it is one.
    pub fn cast(node: &'a SyntaxNode) -> (r: Option<Self>)
        ensures
            r.is_some() == Self::is_kind(node.kind),
            r.is_some() ==> r.unwrap().0 == node,
    {
        if Self::can_cast(node.kind) {
            Some(CurlyGroupCommand(node))
        } else {
            None
        }
    }

    /// The node.
    pub fn syntax(&self) -> (n: &'a SyntaxNode)
        ensures
            n == self.0,
    {
        self.0
    }

    /// The command name.
    pub fn command(&self) -> (r: Option<&'a SyntaxToken>)
        ensures
            r.is_some() == nth_token(*self.0, seq![SyntaxKind::COMMAND_NAME.raw()], 0).is_some(),
            r.is_some() ==> nth_token(*self.0, seq![SyntaxKind::COMMAND_NAME.raw()], 0) == Some(*r.unwrap()),
    {
        nth_child_token(self.0, &kinds1(SyntaxKind::COMMAND_NAME.to_raw()), 0)
    }
}

/// A key: words with the white space between them.
#[derive(Debug, Clone, Copy)]
pub struct Key<'a>(pub &'a SyntaxNode);

impl<'a> Key<'a> {
    /// Whether a node of raw kind `kind` is a `Key`.
    pub open spec fn is_kind(kind: u16) -> bool {
        kind == SyntaxKind::KEY.raw()
    }

    /// Whether a node of raw kind `kind` is a `Key`.
    pub fn can_cast(kind: u16) -> (b: bool)
        ensures
            b == Self::is_kind(kind),
    {
        kind == SyntaxKind::KEY.to_raw()
    }

    /// `node` as a `Key`, if it is one.
    pub fn cast(node: &'a SyntaxNode) -> (r: Option<Self>)
        ensures
            r.is_some() == Self::is_kind(node.kind),
            r.is_some() ==> r.unwrap().0 == node,
    {
        if Self::can_cast(node.kind) {
            Some(Key(node))
        } else {
            None
        }
    }

    /// The node.
    pub fn syntax(&self) -> (n: &'a SyntaxNode)
        ensures
            n == self.0,
    {
        self.0
    }
}

/// The value of a key-value pair.
#[derive(Debug, Clone, Copy)]
pub struct Value<'a>(pub &'a SyntaxNode);

impl<'a> Value<'a> {
    /// Whether a node of raw kind `kind` is a `Value`.
    pub open spec fn is_kind(kind: u16) -> bool {
        kind == SyntaxKind::VALUE.raw()
    }

    /// Whether a node of raw kind `kind` is a `Value`.
    pub fn can_cast(kind: u16) -> (b: bool)
        ensures
            b == Self::is_kind(kind),
    {
        kind == SyntaxKind::VALUE.to_raw()
    }

    /// `node` as a `Value`, if it is one.
    pub fn cast(node: &'a SyntaxNode) -> (r: Option<Self>)
        ensures
            r.is_some() == Self::is_kind(node.kind),
            r.is_some() ==> r.unwrap().0 == node,
    {
        if Self::can_cast(node.kind) {
            Some(Value(node))
        } else {
            None
        }
    }

    /// The node.
    pub fn syntax(&self) -> (n: &'a SyntaxNode)
        ensures
            n == self.0,
    {
        self.0
    }
}

/// A key with an optional value.
#[derive(Debug, Clone, Copy)]
pub struct KeyValuePair<'a>(pub &'a SyntaxNode);

impl<'a> KeyValuePair<'a> {
    /// Whether a node of raw kind `kind` is a `KeyValuePair`.
    pub open spec fn is_kind(kind: u16) -> bool {
        kind == SyntaxKind::KEY_VALUE_PAIR.raw()
    }

    /// Whether a node of raw kind `kind` is a `KeyValuePair`.
    pub fn can_cast(kind: u16) -> (b: bool)
        ensures
            b == Self::is_kind(kind),
    {
        kind == SyntaxKind::KEY_VALUE_PAIR.to_raw()
    }

    /// `node` as a `KeyValuePair`, if it is one.
    pub fn cast(node: &'a SyntaxNode) -> (r: Option<Self>)
        ensures
            r.is_some() == Self::is_kind(node.kind),
            r.is_some() ==> r.unwrap().0 == node,
    {
        if Self::can_cast(node.kind) {
            Some(KeyValuePair(node))
        } else {
            None
        }
    }

    /// The node.
    pub fn syntax(&self) -> (n: &'a SyntaxNode)
        ensures
            n == self.0,
    {
        self.0
    }

    /// The key.
    pub fn key(&self) -> (r: Option<Key<'a>>)
        ensures
            match r {
                Some(c) => nth_node(*self.0, seq![SyntaxKind::KEY.raw()], 0) == Some(*c.0),
                None => nth_node(*self.0, seq![SyntaxKind::KEY.raw()], 0) is None,
            },
    {
        match nth_child_node(self.0, &kinds1(SyntaxKind::KEY.to_raw()), 0) {
            Some(n) => Some(Key(n)),
            None => None,
        }
    }

    /// The value.
    pub fn value(&self) -> (r: Option<Value<'a>>)
        ensures
            match r {
                Some(c) => nth_node(*self.0, seq![SyntaxKind::VALUE.raw()], 0) == Some(*c.0),
                None => nth_node(*self.0, seq![SyntaxKind::VALUE.raw()], 0) is None,
            },
    {
        match nth_child_node(self.0, &kinds1(SyntaxKind::VALUE.to_raw()), 0) {
            Some(n) => Some(Value(n)),
            None => None,
        }
    }
}

/// Key-value pairs separated by commas.
#[derive(Debug, Clone, Copy)]
pub struct KeyValueBody<'a>(pub &'a SyntaxNode);

impl<'a> KeyValueBody<'a> {
    /// Whether a node of raw kind `kind` is a `KeyValueBody`.
    pub open spec fn is_kind(kind: u16) -> bool {
        kind == SyntaxKind::KEY_VALUE_BODY.raw()
    }

    /// Whether a node of raw kind `kind` is a `KeyValueBody`.
    pub fn can_cast(kind: u16) -> (b: bool)
        ensures
            b == Self::is_kind(kind),
    {
        kind == SyntaxKind::KEY_VALUE_BODY.to_raw()
    }

    /// `node` as a `KeyValueBody`, if it is one.
    pub fn cast(node: &'a SyntaxNode) -> (r: Option<Self>)
        ensures
            r.is_some() == Self::is_kind(node.kind),
            r.is_some() ==> r.unwrap().0 == node,
    {
        if Self::can_cast(node.kind) {
            Some(KeyValueBody(node))
        } else {
            None
        }
    }

    /// The node.
    pub fn syntax(&self) -> (n: &'a SyntaxNode)
        ensures
            n == self.0,
    {
        self.0
    }
}

/// Key-value pairs in braces.
#[derive(Debug, Clone, Copy)]
pub struct CurlyGroupKeyValue<'a>(pub &'a SyntaxNode);

impl<'a> CurlyGroupKeyValue<'a> {
    /// Whether a node of raw kind `kind` is a `CurlyGroupKeyValue`.
    pub open spec fn is_kind(kind: u16) -> bool {
        kind == SyntaxKind::CURLY_GROUP_KEY_VALUE.raw()
    }

    /// Whether a node of raw kind `kind` is a `CurlyGroupKeyValue`.
    pub fn can_cast(kind: u16) -> (b: bool)
        ensures
            b == Self::is_kind(kind),
    {
        kind == SyntaxKind::CURLY_GROUP_KEY_VALUE.to_raw()
    }

    /// `node` as a `CurlyGroupKeyValue`, if it is one.
    pub fn cast(node: &'a SyntaxNode) -> (r: Option<Self>)
        ensures
            r.is_some() == Self::is_kind(node.kind),
            r.is_some() ==> r.unwrap().0 == node,
    {
        if Self::can_cast(node.kind) {
            Some(CurlyGroupKeyValue(node))
        } else {
            None
        }
    }

    /// The node.
    pub fn syntax(&self) -> (n: &'a SyntaxNode)
        ensures
            n == self.0,
    {
        self.0
    }
}

/// Key-value pairs in brackets.
#[derive(Debug, Clone, Copy)]
pub struct BrackGroupKeyValue<'a>(pub &'a SyntaxNode);

impl<'a> BrackGroupKeyValue<'a> {
    /// Whether a node of raw kind `kind` is a `BrackGroupKeyValue`.
    pub open spec fn is_kind(kind: u16) -> bool {
        kind == SyntaxKind::BRACK_GROUP_KEY_VALUE.raw()
    }

    /// Whether a node of raw kind `kind` is a `BrackGroupKeyValue`.
    pub fn can_cast(kind: u16) -> (b: bool)
        ensures
            b == Self::is_kind(kind),
    {
        kind == SyntaxKind::BRACK_GROUP_KEY_VALUE.to_raw()
    }

    /// `node` as a `BrackGroupKeyValue`, if it is one.
    pub fn cast(node: &'a SyntaxNode) -> (r: Option<Self>)
        ensures
            r.is_some() == Self::is_kind(node.kind),
            r.is_some() ==> r.unwrap().0 == node,
    {
        if Self::can_cast(node.kind) {
            Some(BrackGroupKeyValue(node))
        } else {
            None
        }
    }

    /// The node.
    pub fn syntax(&self) -> (n: &'a SyntaxNode)
        ensures
            n == self.0,
    {
        self.0
    }
}

/// An inline formula.
#[derive(Debug, Clone, Copy)]
pub struct Formula<'a>(pub &'a SyntaxNode);

impl<'a> Formula<'a> {
    /// Whether a node of raw kind `kind` is a `Formula`.
    pub open spec fn is_kind(kind: u16) -> bool {
        kind == SyntaxKind::FORMULA.raw()
    }

    /// Whether a node of raw kind `kind` is a `Formula`.
    pub fn can_cast(kind: u16) -> (b: bool)
        ensures
            b == Self::is_kind(kind),
    {
        kind == SyntaxKind::FORMULA.to_raw()
    }

    /// `node` as a `Formula`, if it is one.
    pub fn cast(node: &'a SyntaxNode) -> (r: Option<Self>)
        ensures
            r.is_some() == Self::is_kind(node.kind),
            r.is_some() ==> r.unwrap().0 == node,
    {
        if Self::can_cast(node.kind) {
            Some(Formula(node))
        } else {
            None
        }
    }

    /// The node.
    pub fn syntax(&self) -> (n: &'a SyntaxNode)
        ensures
            n == self.0,
    {
        self.0
    }
}

/// A command with no particular meaning and its arguments.
#[derive(Debug, Clone, Copy)]
pub struct GenericCommand<'a>(pub &'a SyntaxNode);

impl<'a> GenericCommand<'a> {
    /// Whether a node of raw kind `kind` is a `GenericCommand`.
    pub open spec fn is_kind(kind: u16) -> bool {
        kind == SyntaxKind::GENERIC_COMMAND.raw()
    }

    /// Whether a node of raw kind `kind` is a `GenericCommand`.
    pub fn can_cast(kind: u16) -> (b: bool)
        ensures
            b == Self::is_kind(kind),
    {
        kind == SyntaxKind::GENERIC_COMMAND.to_raw()
    }

    /// `node` as a `GenericCommand`, if it is one.
    pub fn cast(node: &'a SyntaxNode) -> (r: Option<Self>)
        ensures
            r.is_some() == Self::is_kind(node.kind),
            r.is_some() ==> r.unwrap().0 == node,
    {
        if Self::can_cast(node.kind) {
            Some(GenericCommand(node))
        } else {
            None
        }
    }

    /// The node.
    pub fn syntax(&self) -> (n: &'a SyntaxNode)
        ensures
            n == self.0,
    {
        self.0
    }

    /// The command name.
    pub fn name(&self) -> (r: Option<&'a SyntaxToken>)
        ensures
            r.is_some() == nth_token(*self.0, seq![SyntaxKind::COMMAND_NAME.raw()], 0).is_some(),
            r.is_some() ==> nth_token(*self.0, seq![SyntaxKind::COMMAND_NAME.raw()], 0) == Some(*r.unwrap()),
    {
        nth_child_token(self.0, &kinds1(SyntaxKind::COMMAND_NAME.to_raw()), 0)
    }
}

/// A displayed equation.
#[derive(Debug, Clone, Copy)]
pub struct Equation<'a>(pub &'a SyntaxNode);

impl<'a> Equation<'a> {
    /// Whether a node of raw kind `kind` is a `Equation`.
    pub open spec fn is_kind(kind: u16) -> bool {
        kind == SyntaxKind::EQUATION.raw()
    }

    /// Whether a node of raw kind `kind` is a `Equation`.
    pub fn can_cast(kind: u16) -> (b: bool)
        ensures
            b == Self::is_kind(kind),
    {
        kind == SyntaxKind::EQUATION.to_raw()
    }

    /// `node` as a `Equation`, if it is one.
    pub fn cast(node: &'a SyntaxNode) -> (r: Option<Self>)
        ensures
            r.is_some() == Self::is_kind(node.kind),
            r.is_some() ==> r.unwrap().0 == node,
    {
        if Self::can_cast(node.kind) {
            Some(Equation(node))
        } else {
            None
        }
    }

    /// The node.
    pub fn syntax(&self) -> (n: &'a SyntaxNode)
        ensures
            n == self.0,
    {
        self.0
    }
}

/// The `\\begin` of an environment.
#[derive(Debug, Clone, Copy)]
pub struct Begin<'a>(pub &'a SyntaxNode);

impl<'a> Begin<'a> {
    /// Whether a node of raw kind `kind` is a `Begin`.
    pub open spec fn is_kind(kind: u16) -> bool {
        kind == SyntaxKind::BEGIN.raw()
    }

    /// Whether a node of raw kind `kind` is a `Begin`.
    pub fn can_cast(kind: u16) -> (b: bool)
        ensures
            b == Self::is_kind(kind),
    {
        kind == SyntaxKind::BEGIN.to_raw()
    }

    /// `node` as a `Begin`, if it is one.
    pub fn cast(node: &'a SyntaxNode) -> (r: Option<Self>)
        ensures
            r.is_some() == Self::is_kind(node.kind),
            r.is_some() ==> r.unwrap().0 == node,
    {
        if Self::can_cast(node.kind) {
            Some(Begin(node))
        } else {
            None
        }
    }

    /// The node.
    pub fn syntax(&self) -> (n: &'a SyntaxNode)
        ensures
            n == self.0,
    {
        self.0
    }

    /// The command's name: the first token.
    pub fn command(&self) -> (r: Option<&'a SyntaxToken>)
        ensures
            r.is_some() == first_token_of(*self.0).is_some(),
            r.is_some() ==> *r.unwrap() == first_token_of(*self.0).unwrap(),
    {
        first_token(self.0)
    }

    /// The name of the environment.
    pub fn name(&self) -> (r: Option<CurlyGroupWord<'a>>)
        ensures
            match r {
                Some(c) => nth_node(*self.0, seq![SyntaxKind::CURLY_GROUP_WORD.raw()], 0) == Some(*c.0),
                None => nth_node(*self.0, seq![SyntaxKind::CURLY_GROUP_WORD.raw()], 0) is None,
            },
    {
        match nth_child_node(self.0, &kinds1(SyntaxKind::CURLY_GROUP_WORD.to_raw()), 0) {
            Some(n) => Some(CurlyGroupWord(n)),
            None => None,
        }
    }

    /// The options of the environment.
    pub fn options(&self) -> (r: Option<BrackGroup<'a>>)
        ensures
            match r {
                Some(c) => nth_node(*self.0, seq![SyntaxKind::BRACK_GROUP.raw()], 0) == Some(*c.0),
                None => nth_node(*self.0, seq![SyntaxKind::BRACK_GROUP.raw()], 0) is None,
            },
    {
        match nth_child_node(self.0, &kinds1(SyntaxKind::BRACK_GROUP.to_raw()), 0) {
            Some(n) => Some(BrackGroup(n)),
            None => None,
        }
    }
}

/// The `\\end` of an environment.
#[derive(Debug, Clone, Copy)]
pub struct End<'a>(pub &'a SyntaxNode);

impl<'a> End<'a> {
    /// Whether a node of raw kind `kind` is a `End`.
    pub open spec fn is_kind(kind: u16) -> bool {
        kind == SyntaxKind::END.raw()
    }

    /// Whether a node of raw kind `kind` is a `End`.
    pub fn can_cast(kind: u16) -> (b: bool)
        ensures
            b == Self::is_kind(kind),
    {
        kind == SyntaxKind::END.to_raw()
    }

    /// `node` as a `End`, if it is one.
    pub fn cast(node: &'a SyntaxNode) -> (r: Option<Self>)
        ensures
            r.is_some() == Self::is_kind(node.kind),
            r.is_some() ==> r.unwrap().0 == node,
    {
        if Self::can_cast(node.kind) {
            Some(End(node))
        } else {
            None
        }
    }

    /// The node.
    pub fn syntax(&self) -> (n: &'a SyntaxNode)
        ensures
            n == self.0,
    {
        self.0
    }

    /// The command's name: the first token.
    pub fn command(&self) -> (r: Option<&'a SyntaxToken>)
        ensures
            r.is_some() == first_token_of(*self.0).is_some(),
            r.is_some() ==> *r.unwrap() == first_token_of(*self.0).unwrap(),
    {
        first_token(self.0)
    }

    /// The name of the environment.
    pub fn name(&self) -> (r: Option<CurlyGroupWord<'a>>)
        ensures
            match r {
                Some(c) => nth_node(*self.0, seq![SyntaxKind::CURLY_GROUP_WORD.raw()], 0) == Some(*c.0),
                None => nth_node(*self.0, seq![SyntaxKind::CURLY_GROUP_WORD.raw()], 0) is None,
            },
    {
        match nth_child_node(self.0, &kinds1(SyntaxKind::CURLY_GROUP_WORD.to_raw()), 0) {
            Some(n) => Some(CurlyGroupWord(n)),
            None => None,
        }
    }
}

/// An environment.
#[derive(Debug, Clone, Copy)]
pub struct Environment<'a>(pub &'a SyntaxNode);

impl<'a> Environment<'a> {
    /// Whether a node of raw kind `kind` is a `Environment`.
    pub open spec fn is_kind(kind: u16) -> bool {
        kind == SyntaxKind::ENVIRONMENT.raw()
    }

    /// Whether a node of raw kind `kind` is a `Environment`.
    pub fn can_cast(kind: u16) -> (b: bool)
        ensures
            b == Self::is_kind(kind),
    {
        kind == SyntaxKind::ENVIRONMENT.to_raw()
    }

    /// `node` as a `Environment`, if it is one.
    pub fn cast(node: &'a SyntaxNode) -> (r: Option<Self>)
        ensures
            r.is_some() == Self::is_kind(node.kind),
            r.is_some() ==> r.unwrap().0 == node,
    {
        if Self::can_cast(node.kind) {
            Some(Environment(node))
        } else {
            None
        }
    }

    /// The node.
    pub fn syntax(&self) -> (n: &'a SyntaxNode)
        ensures
            n == self.0,
    {
        self.0
    }

    /// The `\\begin`.
    pub fn begin(&self) -> (r: Option<Begin<'a>>)
        ensures
            match r {
                Some(c) => nth_node(*self.0, seq![SyntaxKind::BEGIN.raw()], 0) == Some(*c.0),
                None => nth_node(*self.0, seq![SyntaxKind::BEGIN.raw()], 0) is None,
            },
    {
        match nth_child_node(self.0, &kinds1(SyntaxKind::BEGIN.to_raw()), 0) {
            Some(n) => Some(Begin(n)),
            None => None,
        }
    }

    /// The `\\end`.
    pub fn end(&self) -> (r: Option<End<'a>>)
        ensures
            match r {
                Some(c) => nth_node(*self.0, seq![SyntaxKind::END.raw()], 0) == Some(*c.0),
                None => nth_node(*self.0, seq![SyntaxKind::END.raw()], 0) is None,
            },
    {
        match nth_child_node(self.0, &kinds1(SyntaxKind::END.to_raw()), 0) {
            Some(n) => Some(End(n)),
            None => None,
        }
    }
}

/// A sectioning or paragraph command and its content.
#[derive(Debug, Clone, Copy)]
pub struct Section<'a>(pub &'a SyntaxNode);

impl<'a> Section<'a> {
    /// Whether a node of raw kind `kind` is a `Section`.
    pub open spec fn is_kind(kind: u16) -> bool {
        kind == SyntaxKind::PART.raw() || kind == SyntaxKind::CHAPTER.raw() || kind == SyntaxKind::SECTION.raw() || kind == SyntaxKind::SUBSECTION.raw() || kind == SyntaxKind::SUBSUBSECTION.raw() || kind == SyntaxKind::PARAGRAPH.raw() || kind == SyntaxKind::SUBPARAGRAPH.raw()
    }

    /// Whether a node of raw kind `kind` is a `Section`.
    pub fn can_cast(kind: u16) -> (b: bool)
        ensures
            b == Self::is_kind(kind),
    {
        kind == SyntaxKind::PART.to_raw() || kind == SyntaxKind::CHAPTER.to_raw() || kind == SyntaxKind::SECTION.to_raw() || kind == SyntaxKind::SUBSECTION.to_raw() || kind == SyntaxKind::SUBSUBSECTION.to_raw() || kind == SyntaxKind::PARAGRAPH.to_raw() || kind == SyntaxKind::SUBPARAGRAPH.to_raw()
    }

    /// `node` as a `Section`, if it is one.
    pub fn cast(node: &'a SyntaxNode) -> (r: Option<Self>)
        ensures
            r.is_some() == Self::is_kind(node.kind),
            r.is_some() ==> r.unwrap().0 == node,
    {
        if Self::can_cast(node.kind) {
            Some(Section(node))
        } else {
            None
        }
    }

    /// The node.
    pub fn syntax(&self) -> (n: &'a SyntaxNode)
        ensures
            n == self.0,
    {
        self.0
    }

    /// The command's name: the first token.
    pub fn command(&self) -> (r: Option<&'a SyntaxToken>)
        ensures
            r.is_some() == first_token_of(*self.0).is_some(),
            r.is_some() ==> *r.unwrap() == first_token_of(*self.0).unwrap(),
    {
        first_token(self.0)
    }

    /// The title.
    pub fn name(&self) -> (r: Option<CurlyGroup<'a>>)
        ensures
            match r {
                Some(c) => nth_node(*self.0, seq![SyntaxKind::CURLY_GROUP.raw()], 0) == Some(*c.0),
                None => nth_node(*self.0, seq![SyntaxKind::CURLY_GROUP.raw()], 0) is None,
            },
    {
        match nth_child_node(self.0, &kinds1(SyntaxKind::CURLY_GROUP.to_raw()), 0) {
            Some(n) => Some(CurlyGroup(n)),
            None => None,
        }
    }
}

/// An item of an enumeration.
#[derive(Debug, Clone, Copy)]
pub struct EnumItem<'a>(pub &'a SyntaxNode);

impl<'a> EnumItem<'a> {
    /// Whether a node of raw kind `kind` is a `EnumItem`.
    pub open spec fn is_kind(kind: u16) -> bool {
        kind == SyntaxKind::ENUM_ITEM.raw()
    }

    /// Whether a node of raw kind `kind` is a `EnumItem`.
    pub fn can_cast(kind: u16) -> (b: bool)
        ensures
            b == Self::is_kind(kind),
    {
        kind == SyntaxKind::ENUM_ITEM.to_raw()
    }

    /// `node` as a `EnumItem`, if it is one.
    pub fn cast(node: &'a SyntaxNode) -> (r: Option<Self>)
        ensures
            r.is_some() == Self::is_kind(node.kind),
            r.is_some() ==> r.unwrap().0 == node,
    {
        if Self::can_cast(node.kind) {
            Some(EnumItem(node))
        } else {
            None
        }
    }

    /// The node.
    pub fn syntax(&self) -> (n: &'a SyntaxNode)
        ensures
            n == self.0,
    {
        self.0
    }

    /// The command's name: the first token.
    pub fn command(&self) -> (r: Option<&'a SyntaxToken>)
        ensures
            r.is_some() == first_token_of(*self.0).is_some(),
            r.is_some() ==> *r.unwrap() == first_token_of(*self.0).unwrap(),
    {
        first_token(self.0)
    }

    /// The label.
    pub fn label(&self) -> (r: Option<BrackGroup<'a>>)
        ensures
            match r {
                Some(c) => nth_node(*self.0, seq![SyntaxKind::BRACK_GROUP.raw()], 0) == Some(*c.0),
                None => nth_node(*self.0, seq![SyntaxKind::BRACK_GROUP.raw()], 0) is None,
            },
    {
        match nth_child_node(self.0, &kinds1(SyntaxKind::BRACK_GROUP.to_raw()), 0) {
            Some(n) => Some(BrackGroup(n)),
            None => None,
        }
    }
}

/// A caption.
#[derive(Debug, Clone, Copy)]
pub struct Caption<'a>(pub &'a SyntaxNode);

impl<'a> Caption<'a> {
    /// Whether a node of raw kind `kind` is a `Caption`.
    pub open spec fn is_kind(kind: u16) -> bool {
        kind == SyntaxKind::CAPTION.raw()
    }

    /// Whether a node of raw kind `kind` is a `Caption`.
    pub fn can_cast(kind: u16) -> (b: bool)
        ensures
            b == Self::is_kind(kind),
    {
        kind == SyntaxKind::CAPTION.to_raw()
    }

    /// `node` as a `Caption`, if it is one.
    pub fn cast(node: &'a SyntaxNode) -> (r: Option<Self>)
        ensures
            r.is_some() == Self::is_kind(node.kind),
            r.is_some() ==> r.unwrap().0 == node,
    {
        if Self::can_cast(node.kind) {
            Some(Caption(node))
        } else {
            None
        }
    }

    /// The node.
    pub fn syntax(&self) -> (n: &'a SyntaxNode)
        ensures
            n == self.0,
    {
        self.0
    }

    /// The command's name: the first token.
    pub fn command(&self) -> (r: Option<&'a SyntaxToken>)
        ensures
            r.is_some() == first_token_of(*self.0).is_some(),
            r.is_some() ==> *r.unwrap() == first_token_of(*self.0).unwrap(),
    {
        first_token(self.0)
    }

    /// The short caption.
    pub fn short(&self) -> (r: Option<BrackGroup<'a>>)
        ensures
            match r {
                Some(c) => nth_node(*self.0, seq![SyntaxKind::BRACK_GROUP.raw()], 0) == Some(*c.0),
                None => nth_node(*self.0, seq![SyntaxKind::BRACK_GROUP.raw()], 0) is None,
            },
    {
        match nth_child_node(self.0, &kinds1(SyntaxKind::BRACK_GROUP.to_raw()), 0) {
            Some(n) => Some(BrackGroup(n)),
            None => None,
        }
    }

    /// The long caption.
    pub fn long(&self) -> (r: Option<CurlyGroup<'a>>)
        ensures
            match r {
                Some(c) => nth_node(*self.0, seq![SyntaxKind::CURLY_GROUP.raw()], 0) == Some(*c.0),
                None => nth_node(*self.0, seq![SyntaxKind::CURLY_GROUP.raw()], 0) is None,
            },
    {
        match nth_child_node(self.0, &kinds1(SyntaxKind::CURLY_GROUP.to_raw()), 0) {
            Some(n) => Some(CurlyGroup(n)),
            None => None,
        }
    }
}

/// A citation.
#[derive(Debug, Clone, Copy)]
pub struct Citation<'a>(pub &'a SyntaxNode);

impl<'a> Citation<'a> {
    /// Whether a node of raw kind `kind` is a `Citation`.
    pub open spec fn is_kind(kind: u16) -> bool {
        kind == SyntaxKind::CITATION.raw()
    }

    /// Whether a node of raw kind `kind` is a `Citation`.
    pub fn can_cast(kind: u16) -> (b: bool)
        ensures
            b == Self::is_kind(kind),
    {
        kind == SyntaxKind::CITATION.to_raw()
    }

    /// `node` as a `Citation`, if it is one.
    pub fn cast(node: &'a SyntaxNode) -> (r: Option<Self>)
        ensures
            r.is_some() == Self::is_kind(node.kind),
            r.is_some() ==> r.unwrap().0 == node,
    {
        if Self::can_cast(node.kind) {
            Some(Citation(node))
        } else {
            None
        }
    }

    /// The node.
    pub fn syntax(&self) -> (n: &'a SyntaxNode)
        ensures
            n == self.0,
    {
        self.0
    }

    /// The command's name: the first token.
    pub fn command(&self) -> (r: Option<&'a SyntaxToken>)
        ensures
            r.is_some() == first_token_of(*self.0).is_some(),
            r.is_some() ==> *r.unwrap() == first_token_of(*self.0).unwrap(),
    {
        first_token(self.0)
    }

    /// The note before the citation.
    pub fn prenote(&self) -> (r: Option<BrackGroup<'a>>)
        ensures
            match r {
                Some(c) => nth_node(*self.0, seq![SyntaxKind::BRACK_GROUP.raw()], 0) == Some(*c.0),
                None => nth_node(*self.0, seq![SyntaxKind::BRACK_GROUP.raw()], 0) is None,
            },
    {
        match nth_child_node(self.0, &kinds1(SyntaxKind::BRACK_GROUP.to_raw()), 0) {
            Some(n) => Some(BrackGroup(n)),
            None => None,
        }
    }

    /// The note after the citation.
    pub fn postnote(&self) -> (r: Option<BrackGroup<'a>>)
        ensures
            match r {
                Some(c) => nth_node(*self.0, seq![SyntaxKind::BRACK_GROUP.raw()], 1) == Some(*c.0),
                None => nth_node(*self.0, seq![SyntaxKind::BRACK_GROUP.raw()], 1) is None,
            },
    {
        match nth_child_node(self.0, &kinds1(SyntaxKind::BRACK_GROUP.to_raw()), 1) {
            Some(n) => Some(BrackGroup(n)),
            None => None,
        }
    }

    /// The keys that are cited.
    pub fn key_list(&self) -> (r: Option<CurlyGroupWordList<'a>>)
        ensures
            match r {
                Some(c) => nth_node(*self.0, seq![SyntaxKind::CURLY_GROUP_WORD_LIST.raw()], 0) == Some(*c.0),
                None => nth_node(*self.0, seq![SyntaxKind::CURLY_GROUP_WORD_LIST.raw()], 0) is None,
            },
    {
        match nth_child_node(self.0, &kinds1(SyntaxKind::CURLY_GROUP_WORD_LIST.to_raw()), 0) {
            Some(n) => Some(CurlyGroupWordList(n)),
            None => None,
        }
    }
}

/// A command that includes files.
#[derive(Debug, Clone, Copy)]
pub struct Include<'a>(pub &'a SyntaxNode);

impl<'a> Include<'a> {
    /// Whether a node of raw kind `kind` is a `Include`.
    pub open spec fn is_kind(kind: u16) -> bool {
        kind == SyntaxKind::PACKAGE_INCLUDE.raw() || kind == SyntaxKind::CLASS_INCLUDE.raw() || kind == SyntaxKind::LATEX_INCLUDE.raw() || kind == SyntaxKind::BIBLATEX_INCLUDE.raw() || kind == SyntaxKind::BIBTEX_INCLUDE.raw() || kind == SyntaxKind::GRAPHICS_INCLUDE.raw() || kind == SyntaxKind::SVG_INCLUDE.raw() || kind == SyntaxKind::INKSCAPE_INCLUDE.raw() || kind == SyntaxKind::VERBATIM_INCLUDE.raw()
    }

    /// Whether a node of raw kind `kind` is a `Include`.
    pub fn can_cast(kind: u16) -> (b: bool)
        ensures
            b == Self::is_kind(kind),
    {
        kind == SyntaxKind::PACKAGE_INCLUDE.to_raw() || kind == SyntaxKind::CLASS_INCLUDE.to_raw() || kind == SyntaxKind::LATEX_INCLUDE.to_raw() || kind == SyntaxKind::BIBLATEX_INCLUDE.to_raw() || kind == SyntaxKind::BIBTEX_INCLUDE.to_raw() || kind == SyntaxKind::GRAPHICS_INCLUDE.to_raw() || kind == SyntaxKind::SVG_INCLUDE.to_raw() || kind == SyntaxKind::INKSCAPE_INCLUDE.to_raw() || kind == SyntaxKind::VERBATIM_INCLUDE.to_raw()
    }

    /// `node` as a `Include`, if it is one.
    pub fn cast(node: &'a SyntaxNode) -> (r: Option<Self>)
        ensures
            r.is_some() == Self::is_kind(node.kind),
            r.is_some() ==> r.unwrap().0 == node,
    {
        if Self::can_cast(node.kind) {
            Some(Include(node))
        } else {
            None
        }
    }

    /// The node.
    pub fn syntax(&self) -> (n: &'a SyntaxNode)
        ensures
            n == self.0,
    {
        self.0
    }

    /// The command's name: the first token.
    pub fn command(&self) -> (r: Option<&'a SyntaxToken>)
        ensures
            r.is_some() == first_token_of(*self.0).is_some(),
            r.is_some() ==> *r.unwrap() == first_token_of(*self.0).unwrap(),
    {
        first_token(self.0)
    }

    /// The paths that are included.
    pub fn path_list(&self) -> (r: Option<CurlyGroupWordList<'a>>)
        ensures
            match r {
                Some(c) => nth_node(*self.0, seq![SyntaxKind::CURLY_GROUP_WORD_LIST.raw()], 0) == Some(*c.0),
                None => nth_node(*self.0, seq![SyntaxKind::CURLY_GROUP_WORD_LIST.raw()], 0) is None,
            },
    {
        match nth_child_node(self.0, &kinds1(SyntaxKind::CURLY_GROUP_WORD_LIST.to_raw()), 0) {
            Some(n) => Some(CurlyGroupWordList(n)),
            None => None,
        }
    }
}

/// An import of a file from a directory.
#[derive(Debug, Clone, Copy)]
pub struct Import<'a>(pub &'a SyntaxNode);

impl<'a> Import<'a> {
    /// Whether a node of raw kind `kind` is a `Import`.
    pub open spec fn is_kind(kind: u16) -> bool {
        kind == SyntaxKind::IMPORT.raw()
    }

    /// Whether a node of raw kind `kind` is a `Import`.
    pub fn can_cast(kind: u16) -> (b: bool)
        ensures
            b == Self::is_kind(kind),
    {
        kind == SyntaxKind::IMPORT.to_raw()
    }

    /// `node` as a `Import`, if it is one.
    pub fn cast(node: &'a SyntaxNode) -> (r: Option<Self>)
        ensures
            r.is_some() == Self::is_kind(node.kind),
            r.is_some() ==> r.unwrap().0 == node,
    {
        if Self::can_cast(node.kind) {
            Some(Import(node))
        } else {
            None
        }
    }

    /// The node.
    pub fn syntax(&self) -> (n: &'a SyntaxNode)
        ensures
            n == self.0,
    {
        self.0
    }

    /// The command's name: the first token.
    pub fn command(&self) -> (r: Option<&'a SyntaxToken>)
        ensures
            r.is_some() == first_token_of(*self.0).is_some(),
            r.is_some() ==> *r.unwrap() == first_token_of(*self.0).unwrap(),
    {
        first_token(self.0)
    }

    /// The directory.
    pub fn directory(&self) -> (r: Option<CurlyGroupWord<'a>>)
        ensures
            match r {
                Some(c) => nth_node(*self.0, seq![SyntaxKind::CURLY_GROUP_WORD.raw()], 0) == Some(*c.0),
                None => nth_node(*self.0, seq![SyntaxKind::CURLY_GROUP_WORD.raw()], 0) is None,
            },
    {
        match nth_child_node(self.0, &kinds1(SyntaxKind::CURLY_GROUP_WORD.to_raw()), 0) {
            Some(n) => Some(CurlyGroupWord(n)),
            None => None,
        }
    }

    /// The file.
    pub fn file(&self) -> (r: Option<CurlyGroupWord<'a>>)
        ensures
            match r {
                Some(c) => nth_node(*self.0, seq![SyntaxKind::CURLY_GROUP_WORD.raw()], 1) == Some(*c.0),
                None => nth_node(*self.0, seq![SyntaxKind::CURLY_GROUP_WORD.raw()], 1) is None,
            },
    {
        match nth_child_node(self.0, &kinds1(SyntaxKind::CURLY_GROUP_WORD.to_raw()), 1) {
            Some(n) => Some(CurlyGroupWord(n)),
            None => None,
        }
    }
}

/// The definition of a label.
#[derive(Debug, Clone, Copy)]
pub struct LabelDefinition<'a>(pub &'a SyntaxNode);

impl<'a> LabelDefinition<'a> {
    /// Whether a node of raw kind `kind` is a `LabelDefinition`.
    pub open spec fn is_kind(kind: u16) -> bool {
        kind == SyntaxKind::LABEL_DEFINITION.raw()
    }

    /// Whether a node of raw kind `kind` is a `LabelDefinition`.
    pub fn can_cast(kind: u16) -> (b: bool)
        ensures
            b == Self::is_kind(kind),
    {
        kind == SyntaxKind::LABEL_DEFINITION.to_raw()
    }

    /// `node` as a `LabelDefinition`, if it is one.
    pub fn cast(node: &'a SyntaxNode) -> (r: Option<Self>)
        ensures
            r.is_some() == Self::is_kind(node.kind),
            r.is_some() ==> r.unwrap().0 == node,
    {
        if Self::can_cast(node.kind) {
            Some(LabelDefinition(node))
        } else {
            None
        }
    }

    /// The node.
    pub fn syntax(&self) -> (n: &'a SyntaxNode)
        ensures
            n == self.0,
    {
        self.0
    }

    /// The command's name: the first token.
    pub fn command(&self) -> (r: Option<&'a SyntaxToken>)
        ensures
            r.is_some() == first_token_of(*self.0).is_some(),
            r.is_some() ==> *r.unwrap() == first_token_of(*self.0).unwrap(),
    {
        first_token(self.0)
    }

    /// The name of the label.
    pub fn name(&self) -> (r: Option<CurlyGroupWord<'a>>)
        ensures
            match r {
                Some(c) => nth_node(*self.0, seq![SyntaxKind::CURLY_GROUP_WORD.raw()], 0) == Some(*c.0),
                None => nth_node(*self.0, seq![SyntaxKind::CURLY_GROUP_WORD.raw()], 0) is None,
            },
    {
        match nth_child_node(self.0, &kinds1(SyntaxKind::CURLY_GROUP_WORD.to_raw()), 0) {
            Some(n) => Some(CurlyGroupWord(n)),
            None => None,
        }
    }
}

/// A reference to labels.
#[derive(Debug, Clone, Copy)]
pub struct LabelReference<'a>(pub &'a SyntaxNode);

impl<'a> LabelReference<'a> {
    /// Whether a node of raw kind `kind` is a `LabelReference`.
    pub open spec fn is_kind(kind: u16) -> bool {
        kind == SyntaxKind::LABEL_REFERENCE.raw()
    }

    /// Whether a node of raw kind `kind` is a `LabelReference`.
    pub fn can_cast(kind: u16) -> (b: bool)
        ensures
            b == Self::is_kind(kind),
    {
        kind == SyntaxKind::LABEL_REFERENCE.to_raw()
    }

    /// `node` as a `LabelReference`, if it is one.
    pub fn cast(node: &'a SyntaxNode) -> (r: Option<Self>)
        ensures
            r.is_some() == Self::is_kind(node.kind),
            r.is_some() ==> r.unwrap().0 == node,
    {
        if Self::can_cast(node.kind) {
            Some(LabelReference(node))
        } else {
            None
        }
    }

    /// The node.
    pub fn syntax(&self) -> (n: &'a SyntaxNode)
        ensures
            n == self.0,
    {
        self.0
    }

    /// The command's name: the first token.
    pub fn command(&self) -> (r: Option<&'a SyntaxToken>)
        ensures
            r.is_some() == first_token_of(*self.0).is_some(),
            r.is_some() ==> *r.unwrap() == first_token_of(*self.0).unwrap(),
    {
        first_token(self.0)
    }

    /// The names of the labels.
    pub fn name_list(&self) -> (r: Option<CurlyGroupWordList<'a>>)
        ensures
            match r {
                Some(c) => nth_node(*self.0, seq![SyntaxKind::CURLY_GROUP_WORD_LIST.raw()], 0) == Some(*c.0),
                None => nth_node(*self.0, seq![SyntaxKind::CURLY_GROUP_WORD_LIST.raw()], 0) is None,
            },
    {
        match nth_child_node(self.0, &kinds1(SyntaxKind::CURLY_GROUP_WORD_LIST.to_raw()), 0) {
            Some(n) => Some(CurlyGroupWordList(n)),
            None => None,
        }
    }
}

/// A reference to a range of labels.
#[derive(Debug, Clone, Copy)]
pub struct LabelReferenceRange<'a>(pub &'a SyntaxNode);

impl<'a> LabelReferenceRange<'a> {
    /// Whether a node of raw kind `kind` is a `LabelReferenceRange`.
    pub open spec fn is_kind(kind: u16) -> bool {
        kind == SyntaxKind::LABEL_REFERENCE_RANGE.raw()
    }

    /// Whether a node of raw kind `kind` is a `LabelReferenceRange`.
    pub fn can_cast(kind: u16) -> (b: bool)
        ensures
            b == Self::is_kind(kind),
    {
        kind == SyntaxKind::LABEL_REFERENCE_RANGE.to_raw()
    }

    /// `node` as a `LabelReferenceRange`, if it is one.
    pub fn cast(node: &'a SyntaxNode) -> (r: Option<Self>)
        ensures
            r.is_some() == Self::is_kind(node.kind),
            r.is_some() ==> r.unwrap().0 == node,
    {
        if Self::can_cast(node.kind) {
            Some(LabelReferenceRange(node))
        } else {
            None
        }
    }

    /// The node.
    pub fn syntax(&self) -> (n: &'a SyntaxNode)
        ensures
            n == self.0,
    {
        self.0
    }

    /// The command's name: the first token.
    pub fn command(&self) -> (r: Option<&'a SyntaxToken>)
        ensures
            r.is_some() == first_token_of(*self.0).is_some(),
            r.is_some() ==> *r.unwrap() == first_token_of(*self.0).unwrap(),
    {
        first_token(self.0)
    }

    /// The first label of the range.
    pub fn from(&self) -> (r: Option<CurlyGroupWord<'a>>)
        ensures
            match r {
                Some(c) => nth_node(*self.0, seq![SyntaxKind::CURLY_GROUP_WORD.raw()], 0) == Some(*c.0),
                None => nth_node(*self.0, seq![SyntaxKind::CURLY_GROUP_WORD.raw()], 0) is None,
            },
    {
        match nth_child_node(self.0, &kinds1(SyntaxKind::CURLY_GROUP_WORD.to_raw()), 0) {
            Some(n) => Some(CurlyGroupWord(n)),
            None => None,
        }
    }

    /// The last label of the range.
    pub fn to(&self) -> (r: Option<CurlyGroupWord<'a>>)
        ensures
            match r {
                Some(c) => nth_node(*self.0, seq![SyntaxKind::CURLY_GROUP_WORD.raw()], 1) == Some(*c.0),
                None => nth_node(*self.0, seq![SyntaxKind::CURLY_GROUP_WORD.raw()], 1) is None,
            },
    {
        match nth_child_node(self.0, &kinds1(SyntaxKind::CURLY_GROUP_WORD.to_raw()), 1) {
            Some(n) => Some(CurlyGroupWord(n)),
            None => None,
        }
    }
}

/// The number of a label, as an auxiliary file records it.
#[derive(Debug, Clone, Copy)]
pub struct LabelNumber<'a>(pub &'a SyntaxNode);

impl<'a> LabelNumber<'a> {
    /// Whether a node of raw kind `kind` is a `LabelNumber`.
    pub open spec fn is_kind(kind: u16) -> bool {
        kind == SyntaxKind::LABEL_NUMBER.raw()
    }

    /// Whether a node of raw kind `kind` is a `LabelNumber`.
    pub fn can_cast(kind: u16) -> (b: bool)
        ensures
            b == Self::is_kind(kind),
    {
        kind == SyntaxKind::LABEL_NUMBER.to_raw()
    }

    /// `node` as a `LabelNumber`, if it is one.
    pub fn cast(node: &'a SyntaxNode) -> (r: Option<Self>)
        ensures
            r.is_some() == Self::is_kind(node.kind),
            r.is_some() ==> r.unwrap().0 == node,
    {
        if Self::can_cast(node.kind) {
            Some(LabelNumber(node))
        } else {
            None
        }
    }

    /// The node.
    pub fn syntax(&self) -> (n: &'a SyntaxNode)
        ensures
            n == self.0,
    {
        self.0
    }

    /// The command's name: the first token.
    pub fn command(&self) -> (r: Option<&'a SyntaxToken>)
        ensures
            r.is_some() == first_token_of(*self.0).is_some(),
            r.is_some() ==> *r.unwrap() == first_token_of(*self.0).unwrap(),
    {
        first_token(self.0)
    }

    /// The name of the label.
    pub fn name(&self) -> (r: Option<CurlyGroupWord<'a>>)
        ensures
            match r {
                Some(c) => nth_node(*self.0, seq![SyntaxKind::CURLY_GROUP_WORD.raw()], 0) == Some(*c.0),
                None => nth_node(*self.0, seq![SyntaxKind::CURLY_GROUP_WORD.raw()], 0) is None,
            },
    {
        match nth_child_node(self.0, &kinds1(SyntaxKind::CURLY_GROUP_WORD.to_raw()), 0) {
            Some(n) => Some(CurlyGroupWord(n)),
            None => None,
        }
    }

    /// The number and its text.
    pub fn text(&self) -> (r: Option<CurlyGroup<'a>>)
        ensures
            match r {
                Some(c) => nth_node(*self.0, seq![SyntaxKind::CURLY_GROUP.raw()], 0) == Some(*c.0),
                None => nth_node(*self.0, seq![SyntaxKind::CURLY_GROUP.raw()], 0) is None,
            },
    {
        match nth_child_node(self.0, &kinds1(SyntaxKind::CURLY_GROUP.to_raw()), 0) {
            Some(n) => Some(CurlyGroup(n)),
            None => None,
        }
    }
}

/// The definition of a theorem environment.
#[derive(Debug, Clone, Copy)]
pub struct TheoremDefinition<'a>(pub &'a SyntaxNode);

impl<'a> TheoremDefinition<'a> {
    /// Whether a node of raw kind `kind` is a `TheoremDefinition`.
    pub open spec fn is_kind(kind: u16) -> bool {
        kind == SyntaxKind::THEOREM_DEFINITION_AMSTHM.raw() || kind == SyntaxKind::THEOREM_DEFINITION_THMTOOLS.raw()
    }

    /// Whether a node of raw kind `kind` is a `TheoremDefinition`.
    pub fn can_cast(kind: u16) -> (b: bool)
        ensures
            b == Self::is_kind(kind),
    {
        kind == SyntaxKind::THEOREM_DEFINITION_AMSTHM.to_raw() || kind == SyntaxKind::THEOREM_DEFINITION_THMTOOLS.to_raw()
    }

    /// `node` as a `TheoremDefinition`, if it is one.
    pub fn cast(node: &'a SyntaxNode) -> (r: Option<Self>)
        ensures
            r.is_some() == Self::is_kind(node.kind),
            r.is_some() ==> r.unwrap().0 == node,
    {
        if Self::can_cast(node.kind) {
            Some(TheoremDefinition(node))
        } else {
            None
        }
    }

    /// The node.
    pub fn syntax(&self) -> (n: &'a SyntaxNode)
        ensures
            n == self.0,
    {
        self.0
    }

    /// The command's name: the first token.
    pub fn command(&self) -> (r: Option<&'a SyntaxToken>)
        ensures
            r.is_some() == first_token_of(*self.0).is_some(),
            r.is_some() ==> *r.unwrap() == first_token_of(*self.0).unwrap(),
    {
        first_token(self.0)
    }
}

/// A command definition in plain TeX style.
#[derive(Debug, Clone, Copy)]
pub struct OldCommandDefinition<'a>(pub &'a SyntaxNode);

impl<'a> OldCommandDefinition<'a> {
    /// Whether a node of raw kind `kind` is a `OldCommandDefinition`.
    pub open spec fn is_kind(kind: u16) -> bool {
        kind == SyntaxKind::OLD_COMMAND_DEFINITION.raw()
    }

    /// Whether a node of raw kind `kind` is a `OldCommandDefinition`.
    pub fn can_cast(kind: u16) -> (b: bool)
        ensures
            b == Self::is_kind(kind),
    {
        kind == SyntaxKind::OLD_COMMAND_DEFINITION.to_raw()
    }

    /// `node` as a `OldCommandDefinition`, if it is one.
    pub fn cast(node: &'a SyntaxNode) -> (r: Option<Self>)
        ensures
            r.is_some() == Self::is_kind(node.kind),
            r.is_some() ==> r.unwrap().0 == node,
    {
        if Self::can_cast(node.kind) {
            Some(OldCommandDefinition(node))
        } else {
            None
        }
    }

    /// The node.
    pub fn syntax(&self) -> (n: &'a SyntaxNode)
        ensures
            n == self.0,
    {
        self.0
    }

    /// The command's name: the first token.
    pub fn command(&self) -> (r: Option<&'a SyntaxToken>)
        ensures
            r.is_some() == first_token_of(*self.0).is_some(),
            r.is_some() ==> *r.unwrap() == first_token_of(*self.0).unwrap(),
    {
        first_token(self.0)
    }
}

/// A command definition in LaTeX style.
#[derive(Debug, Clone, Copy)]
pub struct NewCommandDefinition<'a>(pub &'a SyntaxNode);

impl<'a> NewCommandDefinition<'a> {
    /// Whether a node of raw kind `kind` is a `NewCommandDefinition`.
    pub open spec fn is_kind(kind: u16) -> bool {
        kind == SyntaxKind::COMMAND_DEFINITION.raw() || kind == SyntaxKind::MATH_OPERATOR.raw()
    }

    /// Whether a node of raw kind `kind` is a `NewCommandDefinition`.
    pub fn can_cast(kind: u16) -> (b: bool)
        ensures
            b == Self::is_kind(kind),
    {
        kind == SyntaxKind::COMMAND_DEFINITION.to_raw() || kind == SyntaxKind::MATH_OPERATOR.to_raw()
    }

    /// `node` as a `NewCommandDefinition`, if it is one.
    pub fn cast(node: &'a SyntaxNode) -> (r: Option<Self>)
        ensures
            r.is_some() == Self::is_kind(node.kind),
            r.is_some() ==> r.unwrap().0 == node,
    {
        if Self::can_cast(node.kind) {
            Some(NewCommandDefinition(node))
        } else {
            None
        }
    }

    /// The node.
    pub fn syntax(&self) -> (n: &'a SyntaxNode)
        ensures
            n == self.0,
    {
        self.0
    }

    /// The command's name: the first token.
    pub fn command(&self) -> (r: Option<&'a SyntaxToken>)
        ensures
            r.is_some() == first_token_of(*self.0).is_some(),
            r.is_some() ==> *r.unwrap() == first_token_of(*self.0).unwrap(),
    {
        first_token(self.0)
    }

    /// The command that is defined.
    pub fn name(&self) -> (r: Option<CurlyGroupCommand<'a>>)
        ensures
            match r {
                Some(c) => nth_node(*self.0, seq![SyntaxKind::CURLY_GROUP_COMMAND.raw()], 0) == Some(*c.0),
                None => nth_node(*self.0, seq![SyntaxKind::CURLY_GROUP_COMMAND.raw()], 0) is None,
            },
    {
        match nth_child_node(self.0, &kinds1(SyntaxKind::CURLY_GROUP_COMMAND.to_raw()), 0) {
            Some(n) => Some(CurlyGroupCommand(n)),
            None => None,
        }
    }

    /// The body of the definition.
    pub fn implementation(&self) -> (r: Option<CurlyGroup<'a>>)
        ensures
            match r {
                Some(c) => nth_node(*self.0, seq![SyntaxKind::CURLY_GROUP.raw()], 0) == Some(*c.0),
                None => nth_node(*self.0, seq![SyntaxKind::CURLY_GROUP.raw()], 0) is None,
            },
    {
        match nth_child_node(self.0, &kinds1(SyntaxKind::CURLY_GROUP.to_raw()), 0) {
            Some(n) => Some(CurlyGroup(n)),
            None => None,
        }
    }
}

/// A reference to an acronym.
#[derive(Debug, Clone, Copy)]
pub struct AcronymReference<'a>(pub &'a SyntaxNode);

impl<'a> AcronymReference<'a> {
    /// Whether a node of raw kind `kind` is a `AcronymReference`.
    pub open spec fn is_kind(kind: u16) -> bool {
        kind == SyntaxKind::ACRONYM_REFERENCE.raw()
    }

    /// Whether a node of raw kind `kind` is a `AcronymReference`.
    pub fn can_cast(kind: u16) -> (b: bool)
        ensures
            b == Self::is_kind(kind),
    {
        kind == SyntaxKind::ACRONYM_REFERENCE.to_raw()
    }

    /// `node` as a `AcronymReference`, if it is one.
    pub fn cast(node: &'a SyntaxNode) -> (r: Option<Self>)
        ensures
            r.is_some() == Self::is_kind(node.kind),
            r.is_some() ==> r.unwrap().0 == node,
    {
        if Self::can_cast(node.kind) {
            Some(AcronymReference(node))
        } else {
            None
        }
    }

    /// The node.
    pub fn syntax(&self) -> (n: &'a SyntaxNode)
        ensures
            n == self.0,
    {
        self.0
    }

    /// The command's name: the first token.
    pub fn command(&self) -> (r: Option<&'a SyntaxToken>)
        ensures
            r.is_some() == first_token_of(*self.0).is_some(),
            r.is_some() ==> *r.unwrap() == first_token_of(*self.0).unwrap(),
    {
        first_token(self.0)
    }
}

/// The definition of an acronym.
#[derive(Debug, Clone, Copy)]
pub struct AcronymDefinition<'a>(pub &'a SyntaxNode);

impl<'a> AcronymDefinition<'a> {
    /// Whether a node of raw kind `kind` is a `AcronymDefinition`.
    pub open spec fn is_kind(kind: u16) -> bool {
        kind == SyntaxKind::ACRONYM_DEFINITION.raw()
    }

    /// Whether a node of raw kind `kind` is a `AcronymDefinition`.
    pub fn can_cast(kind: u16) -> (b: bool)
        ensures
            b == Self::is_kind(kind),
    {
        kind == SyntaxKind::ACRONYM_DEFINITION.to_raw()
    }

    /// `node` as a `AcronymDefinition`, if it is one.
    pub fn cast(node: &'a SyntaxNode) -> (r: Option<Self>)
        ensures
            r.is_some() == Self::is_kind(node.kind),
            r.is_some() ==> r.unwrap().0 == node,
    {
        if Self::can_cast(node.kind) {
            Some(AcronymDefinition(node))
        } else {
            None
        }
    }

    /// The node.
    pub fn syntax(&self) -> (n: &'a SyntaxNode)
        ensures
            n == self.0,
    {
        self.0
    }

    /// The command's name: the first token.
    pub fn command(&self) -> (r: Option<&'a SyntaxToken>)
        ensures
            r.is_some() == first_token_of(*self.0).is_some(),
            r.is_some() ==> *r.unwrap() == first_token_of(*self.0).unwrap(),
    {
        first_token(self.0)
    }

    /// The name of the acronym.
    pub fn name(&self) -> (r: Option<CurlyGroupWord<'a>>)
        ensures
            match r {
                Some(c) => nth_node(*self.0, seq![SyntaxKind::CURLY_GROUP_WORD.raw()], 0) == Some(*c.0),
                None => nth_node(*self.0, seq![SyntaxKind::CURLY_GROUP_WORD.raw()], 0) is None,
            },
    {
        match nth_child_node(self.0, &kinds1(SyntaxKind::CURLY_GROUP_WORD.to_raw()), 0) {
            Some(n) => Some(CurlyGroupWord(n)),
            None => None,
        }
    }
}

/// The declaration of an acronym.
#[derive(Debug, Clone, Copy)]
pub struct AcronymDeclaration<'a>(pub &'a SyntaxNode);

impl<'a> AcronymDeclaration<'a> {
    /// Whether a node of raw kind `kind` is a `AcronymDeclaration`.
    pub open spec fn is_kind(kind: u16) -> bool {
        kind == SyntaxKind::ACRONYM_DECLARATION.raw()
    }

    /// Whether a node of raw kind `kind` is a `AcronymDeclaration`.
    pub fn can_cast(kind: u16) -> (b: bool)
        ensures
            b == Self::is_kind(kind),
    {
        kind == SyntaxKind::ACRONYM_DECLARATION.to_raw()
    }

    /// `node` as a `AcronymDeclaration`, if it is one.
    pub fn cast(node: &'a SyntaxNode) -> (r: Option<Self>)
        ensures
            r.is_some() == Self::is_kind(node.kind),
            r.is_some() ==> r.unwrap().0 == node,
    {
        if Self::can_cast(node.kind) {
            Some(AcronymDeclaration(node))
        } else {
            None
        }
    }

    /// The node.
    pub fn syntax(&self) -> (n: &'a SyntaxNode)
        ensures
            n == self.0,
    {
        self.0
    }

    /// The command's name: the first token.
    pub fn command(&self) -> (r: Option<&'a SyntaxToken>)
        ensures
            r.is_some() == first_token_of(*self.0).is_some(),
            r.is_some() ==> *r.unwrap() == first_token_of(*self.0).unwrap(),
    {
        first_token(self.0)
    }

    /// The name of the acronym.
    pub fn name(&self) -> (r: Option<CurlyGroupWord<'a>>)
        ensures
            match r {
                Some(c) => nth_node(*self.0, seq![SyntaxKind::CURLY_GROUP_WORD.raw()], 0) == Some(*c.0),
                None => nth_node(*self.0, seq![SyntaxKind::CURLY_GROUP_WORD.raw()], 0) is None,
            },
    {
        match nth_child_node(self.0, &kinds1(SyntaxKind::CURLY_GROUP_WORD.to_raw()), 0) {
            Some(n) => Some(CurlyGroupWord(n)),
            None => None,
        }
    }
}

/// The definition of a color.
#[derive(Debug, Clone, Copy)]
pub struct ColorDefinition<'a>(pub &'a SyntaxNode);

impl<'a> ColorDefinition<'a> {
    /// Whether a node of raw kind `kind` is a `ColorDefinition`.
    pub open spec fn is_kind(kind: u16) -> bool {
        kind == SyntaxKind::COLOR_DEFINITION.raw()
    }

    /// Whether a node of raw kind `kind` is a `ColorDefinition`.
    pub fn can_cast(kind: u16) -> (b: bool)
        ensures
            b == Self::is_kind(kind),
    {
        kind == SyntaxKind::COLOR_DEFINITION.to_raw()
    }

    /// `node` as a `ColorDefinition`, if it is one.
    pub fn cast(node: &'a SyntaxNode) -> (r: Option<Self>)
        ensures
            r.is_some() == Self::is_kind(node.kind),
            r.is_some() ==> r.unwrap().0 == node,
    {
        if Self::can_cast(node.kind) {
            Some(ColorDefinition(node))
        } else {
            None
        }
    }

    /// The node.
    pub fn syntax(&self) -> (n: &'a SyntaxNode)
        ensures
            n == self.0,
    {
        self.0
    }

    /// The command's name: the first token.
    pub fn command(&self) -> (r: Option<&'a SyntaxToken>)
        ensures
            r.is_some() == first_token_of(*self.0).is_some(),
            r.is_some() ==> *r.unwrap() == first_token_of(*self.0).unwrap(),
    {
        first_token(self.0)
    }

    /// The name of the color.
    pub fn name(&self) -> (r: Option<CurlyGroupWord<'a>>)
        ensures
            match r {
                Some(c) => nth_node(*self.0, seq![SyntaxKind::CURLY_GROUP_WORD.raw()], 0) == Some(*c.0),
                None => nth_node(*self.0, seq![SyntaxKind::CURLY_GROUP_WORD.raw()], 0) is None,
            },
    {
        match nth_child_node(self.0, &kinds1(SyntaxKind::CURLY_GROUP_WORD.to_raw()), 0) {
            Some(n) => Some(CurlyGroupWord(n)),
            None => None,
        }
    }

    /// The color model.
    pub fn model(&self) -> (r: Option<CurlyGroupWord<'a>>)
        ensures
            match r {
                Some(c) => nth_node(*self.0, seq![SyntaxKind::CURLY_GROUP_WORD.raw()], 1) == Some(*c.0),
                None => nth_node(*self.0, seq![SyntaxKind::CURLY_GROUP_WORD.raw()], 1) is None,
            },
    {
        match nth_child_node(self.0, &kinds1(SyntaxKind::CURLY_GROUP_WORD.to_raw()), 1) {
            Some(n) => Some(CurlyGroupWord(n)),
            None => None,
        }
    }

    /// The color's specification.
    pub fn spec(&self) -> (r: Option<CurlyGroup<'a>>)
        ensures
            match r {
                Some(c) => nth_node(*self.0, seq![SyntaxKind::CURLY_GROUP.raw()], 0) == Some(*c.0),
                None => nth_node(*self.0, seq![SyntaxKind::CURLY_GROUP.raw()], 0) is None,
            },
    {
        match nth_child_node(self.0, &kinds1(SyntaxKind::CURLY_GROUP.to_raw()), 0) {
            Some(n) => Some(CurlyGroup(n)),
            None => None,
        }
    }
}

/// The definition of a set of colors.
#[derive(Debug, Clone, Copy)]
pub struct ColorSetDefinition<'a>(pub &'a SyntaxNode);

impl<'a> ColorSetDefinition<'a> {
    /// Whether a node of raw kind `kind` is a `ColorSetDefinition`.
    pub open spec fn is_kind(kind: u16) -> bool {
        kind == SyntaxKind::COLOR_SET_DEFINITION.raw()
    }

    /// Whether a node of raw kind `kind` is a `ColorSetDefinition`.
    pub fn can_cast(kind: u16) -> (b: bool)
        ensures
            b == Self::is_kind(kind),
    {
        kind == SyntaxKind::COLOR_SET_DEFINITION.to_raw()
    }

    /// `node` as a `ColorSetDefinition`, if it is one.
    pub fn cast(node: &'a SyntaxNode) -> (r: Option<Self>)
        ensures
            r.is_some() == Self::is_kind(node.kind),
            r.is_some() ==> r.unwrap().0 == node,
    {
        if Self::can_cast(node.kind) {
            Some(ColorSetDefinition(node))
        } else {
            None
        }
    }

    /// The node.
    pub fn syntax(&self) -> (n: &'a SyntaxNode)
        ensures
            n == self.0,
    {
        self.0
    }

    /// The command's name: the first token.
    pub fn command(&self) -> (r: Option<&'a SyntaxToken>)
        ensures
            r.is_some() == first_token_of(*self.0).is_some(),
            r.is_some() ==> *r.unwrap() == first_token_of(*self.0).unwrap(),
    {
        first_token(self.0)
    }

    /// The color models.
    pub fn model_list(&self) -> (r: Option<CurlyGroupWordList<'a>>)
        ensures
            match r {
                Some(c) => nth_node(*self.0, seq![SyntaxKind::CURLY_GROUP_WORD_LIST.raw()], 0) == Some(*c.0),
                None => nth_node(*self.0, seq![SyntaxKind::CURLY_GROUP_WORD_LIST.raw()], 0) is None,
            },
    {
        match nth_child_node(self.0, &kinds1(SyntaxKind::CURLY_GROUP_WORD_LIST.to_raw()), 0) {
            Some(n) => Some(CurlyGroupWordList(n)),
            None => None,
        }
    }
}

/// A reference to a color.
#[derive(Debug, Clone, Copy)]
pub struct ColorReference<'a>(pub &'a SyntaxNode);

impl<'a> ColorReference<'a> {
    /// Whether a node of raw kind `kind` is a `ColorReference`.
    pub open spec fn is_kind(kind: u16) -> bool {
        kind == SyntaxKind::COLOR_REFERENCE.raw()
    }

    /// Whether a node of raw kind `kind` is a `ColorReference`.
    pub fn can_cast(kind: u16) -> (b: bool)
        ensures
            b == Self::is_kind(kind),
    {
        kind == SyntaxKind::COLOR_REFERENCE.to_raw()
    }

    /// `node` as a `ColorReference`, if it is one.
    pub fn cast(node: &'a SyntaxNode) -> (r: Option<Self>)
        ensures
            r.is_some() == Self::is_kind(node.kind),
            r.is_some() ==> r.unwrap().0 == node,
    {
        if Self::can_cast(node.kind) {
            Some(ColorReference(node))
        } else {
            None
        }
    }

    /// The node.
    pub fn syntax(&self) -> (n: &'a SyntaxNode)
        ensures
            n == self.0,
    {
        self.0
    }

    /// The command's name: the first token.
    pub fn command(&self) -> (r: Option<&'a SyntaxToken>)
        ensures
            r.is_some() == first_token_of(*self.0).is_some(),
            r.is_some() ==> *r.unwrap() == first_token_of(*self.0).unwrap(),
    {
        first_token(self.0)
    }

    /// The name of the color.
    pub fn name(&self) -> (r: Option<CurlyGroupWord<'a>>)
        ensures
            match r {
                Some(c) => nth_node(*self.0, seq![SyntaxKind::CURLY_GROUP_WORD.raw()], 0) == Some(*c.0),
                None => nth_node(*self.0, seq![SyntaxKind::CURLY_GROUP_WORD.raw()], 0) is None,
            },
    {
        match nth_child_node(self.0, &kinds1(SyntaxKind::CURLY_GROUP_WORD.to_raw()), 0) {
            Some(n) => Some(CurlyGroupWord(n)),
            None => None,
        }
    }
}

/// A reference to a glossary entry.
#[derive(Debug, Clone, Copy)]
pub struct GlossaryEntryReference<'a>(pub &'a SyntaxNode);

impl<'a> GlossaryEntryReference<'a> {
    /// Whether a node of raw kind `kind` is a `GlossaryEntryReference`.
    pub open spec fn is_kind(kind: u16) -> bool {
        kind == SyntaxKind::GLOSSARY_ENTRY_REFERENCE.raw()
    }

    /// Whether a node of raw kind `kind` is a `GlossaryEntryReference`.
    pub fn can_cast(kind: u16) -> (b: bool)
        ensures
            b == Self::is_kind(kind),
    {
        kind == SyntaxKind::GLOSSARY_ENTRY_REFERENCE.to_raw()
    }

    /// `node` as a `GlossaryEntryReference`, if it is one.
    pub fn cast(node: &'a SyntaxNode) -> (r: Option<Self>)
        ensures
            r.is_some() == Self::is_kind(node.kind),
            r.is_some() ==> r.unwrap().0 == node,
    {
        if Self::can_cast(node.kind) {
            Some(GlossaryEntryReference(node))
        } else {
            None
        }
    }

    /// The node.
    pub fn syntax(&self) -> (n: &'a SyntaxNode)
        ensures
            n == self.0,
    {
        self.0
    }

    /// The command's name: the first token.
    pub fn command(&self) -> (r: Option<&'a SyntaxToken>)
        ensures
            r.is_some() == first_token_of(*self.0).is_some(),
            r.is_some() ==> *r.unwrap() == first_token_of(*self.0).unwrap(),
    {
        first_token(self.0)
    }

    /// The name of the entry.
    pub fn name(&self) -> (r: Option<CurlyGroupWord<'a>>)
        ensures
            match r {
                Some(c) => nth_node(*self.0, seq![SyntaxKind::CURLY_GROUP_WORD.raw()], 0) == Some(*c.0),
                None => nth_node(*self.0, seq![SyntaxKind::CURLY_GROUP_WORD.raw()], 0) is None,
            },
    {
        match nth_child_node(self.0, &kinds1(SyntaxKind::CURLY_GROUP_WORD.to_raw()), 0) {
            Some(n) => Some(CurlyGroupWord(n)),
            None => None,
        }
    }
}

/// The definition of a glossary entry.
#[derive(Debug, Clone, Copy)]
pub struct GlossaryEntryDefinition<'a>(pub &'a SyntaxNode);

impl<'a> GlossaryEntryDefinition<'a> {
    /// Whether a node of raw kind `kind` is a `GlossaryEntryDefinition`.
    pub open spec fn is_kind(kind: u16) -> bool {
        kind == SyntaxKind::GLOSSARY_ENTRY_DEFINITION.raw()
    }

    /// Whether a node of raw kind `kind` is a `GlossaryEntryDefinition`.
    pub fn can_cast(kind: u16) -> (b: bool)
        ensures
            b == Self::is_kind(kind),
    {
        kind == SyntaxKind::GLOSSARY_ENTRY_DEFINITION.to_raw()
    }

    /// `node` as a `GlossaryEntryDefinition`, if it is one.
    pub fn cast(node: &'a SyntaxNode) -> (r: Option<Self>)
        ensures
            r.is_some() == Self::is_kind(node.kind),
            r.is_some() ==> r.unwrap().0 == node,
    {
        if Self::can_cast(node.kind) {
            Some(GlossaryEntryDefinition(node))
        } else {
            None
        }
    }

    /// The node.
    pub fn syntax(&self) -> (n: &'a SyntaxNode)
        ensures
            n == self.0,
    {
        self.0
    }

    /// The command's name: the first token.
    pub fn command(&self) -> (r: Option<&'a SyntaxToken>)
        ensures
            r.is_some() == first_token_of(*self.0).is_some(),
            r.is_some() ==> *r.unwrap() == first_token_of(*self.0).unwrap(),
    {
        first_token(self.0)
    }

    /// The name of the entry.
    pub fn name(&self) -> (r: Option<CurlyGroupWord<'a>>)
        ensures
            match r {
                Some(c) => nth_node(*self.0, seq![SyntaxKind::CURLY_GROUP_WORD.raw()], 0) == Some(*c.0),
                None => nth_node(*self.0, seq![SyntaxKind::CURLY_GROUP_WORD.raw()], 0) is None,
            },
    {
        match nth_child_node(self.0, &kinds1(SyntaxKind::CURLY_GROUP_WORD.to_raw()), 0) {
            Some(n) => Some(CurlyGroupWord(n)),
            None => None,
        }
    }
}

/// An import of TikZ libraries.
#[derive(Debug, Clone, Copy)]
pub struct TikzLibraryImport<'a>(pub &'a SyntaxNode);

impl<'a> TikzLibraryImport<'a> {
    /// Whether a node of raw kind `kind` is a `TikzLibraryImport`.
    pub open spec fn is_kind(kind: u16) -> bool {
        kind == SyntaxKind::TIKZ_LIBRARY_IMPORT.raw()
    }

    /// Whether a node of raw kind `kind` is a `TikzLibraryImport`.
    pub fn can_cast(kind: u16) -> (b: bool)
        ensures
            b == Self::is_kind(kind),
    {
        kind == SyntaxKind::TIKZ_LIBRARY_IMPORT.to_raw()
    }

    /// `node` as a `TikzLibraryImport`, if it is one.
    pub fn cast(node: &'a SyntaxNode) -> (r: Option<Self>)
        ensures
            r.is_some() == Self::is_kind(node.kind),
            r.is_some() ==> r.unwrap().0 == node,
    {
        if Self::can_cast(node.kind) {
            Some(TikzLibraryImport(node))
        } else {
            None
        }
    }

    /// The node.
    pub fn syntax(&self) -> (n: &'a SyntaxNode)
        ensures
            n == self.0,
    {
        self.0
    }

    /// The command's name: the first token.
    pub fn command(&self) -> (r: Option<&'a SyntaxToken>)
        ensures
            r.is_some() == first_token_of(*self.0).is_some(),
            r.is_some() ==> *r.unwrap() == first_token_of(*self.0).unwrap(),
    {
        first_token(self.0)
    }

    /// The names of the libraries.
    pub fn name_list(&self) -> (r: Option<CurlyGroupWordList<'a>>)
        ensures
            match r {
                Some(c) => nth_node(*self.0, seq![SyntaxKind::CURLY_GROUP_WORD_LIST.raw()], 0) == Some(*c.0),
                None => nth_node(*self.0, seq![SyntaxKind::CURLY_GROUP_WORD_LIST.raw()], 0) is None,
            },
    {
        match nth_child_node(self.0, &kinds1(SyntaxKind::CURLY_GROUP_WORD_LIST.to_raw()), 0) {
            Some(n) => Some(CurlyGroupWordList(n)),
            None => None,
        }
    }
}

/// The paths where graphics are looked for.
#[derive(Debug, Clone, Copy)]
pub struct GraphicsPath<'a>(pub &'a SyntaxNode);

impl<'a> GraphicsPath<'a> {
    /// Whether a node of raw kind `kind` is a `GraphicsPath`.
    pub open spec fn is_kind(kind: u16) -> bool {
        kind == SyntaxKind::GRAPHICS_PATH.raw()
    }

    /// Whether a node of raw kind `kind` is a `GraphicsPath`.
    pub fn can_cast(kind: u16) -> (b: bool)
        ensures
            b == Self::is_kind(kind),
    {
        kind == SyntaxKind::GRAPHICS_PATH.to_raw()
    }

    /// `node` as a `GraphicsPath`, if it is one.
    pub fn cast(node: &'a SyntaxNode) -> (r: Option<Self>)
        ensures
            r.is_some() == Self::is_kind(node.kind),
            r.is_some() ==> r.unwrap().0 == node,
    {
        if Self::can_cast(node.kind) {
            Some(GraphicsPath(node))
        } else {
            None
        }
    }

    /// The node.
    pub fn syntax(&self) -> (n: &'a SyntaxNode)
        ensures
            n == self.0,
    {
        self.0
    }

    /// The command's name: the first token.
    pub fn command(&self) -> (r: Option<&'a SyntaxToken>)
        ensures
            r.is_some() == first_token_of(*self.0).is_some(),
            r.is_some() ==> *r.unwrap() == first_token_of(*self.0).unwrap(),
    {
        first_token(self.0)
    }
}

/// A bibliography item.
#[derive(Debug, Clone, Copy)]
pub struct BibItem<'a>(pub &'a SyntaxNode);

impl<'a> BibItem<'a> {
    /// Whether a node of raw kind `kind` is a `BibItem`.
    pub open spec fn is_kind(kind: u16) -> bool {
        kind == SyntaxKind::BIBITEM.raw()
    }

    /// Whether a node of raw kind `kind` is a `BibItem`.
    pub fn can_cast(kind: u16) -> (b: bool)
        ensures
            b == Self::is_kind(kind),
    {
        kind == SyntaxKind::BIBITEM.to_raw()
    }

    /// `node` as a `BibItem`, if it is one.
    pub fn cast(node: &'a SyntaxNode) -> (r: Option<Self>)
        ensures
            r.is_some() == Self::is_kind(node.kind),
            r.is_some() ==> r.unwrap().0 == node,
    {
        if Self::can_cast(node.kind) {
            Some(BibItem(node))
        } else {
            None
        }
    }

    /// The node.
    pub fn syntax(&self) -> (n: &'a SyntaxNode)
        ensures
            n == self.0,
    {
        self.0
    }

    /// The command's name: the first token.
    pub fn command(&self) -> (r: Option<&'a SyntaxToken>)
        ensures
            r.is_some() == first_token_of(*self.0).is_some(),
            r.is_some() ==> *r.unwrap() == first_token_of(*self.0).unwrap(),
    {
        first_token(self.0)
    }

    /// The key of the item.
    pub fn name(&self) -> (r: Option<CurlyGroupWord<'a>>)
        ensures
            match r {
                Some(c) => nth_node(*self.0, seq![SyntaxKind::CURLY_GROUP_WORD.raw()], 0) == Some(*c.0),
                None => nth_node(*self.0, seq![SyntaxKind::CURLY_GROUP_WORD.raw()], 0) is None,
            },
    {
        match nth_child_node(self.0, &kinds1(SyntaxKind::CURLY_GROUP_WORD.to_raw()), 0) {
            Some(n) => Some(CurlyGroupWord(n)),
            None => None,
        }
    }
}

/// A line of a table of contents.
#[derive(Debug, Clone, Copy)]
pub struct TocContentsLine<'a>(pub &'a SyntaxNode);

impl<'a> TocContentsLine<'a> {
    /// Whether a node of raw kind `kind` is a `TocContentsLine`.
    pub open spec fn is_kind(kind: u16) -> bool {
        kind == SyntaxKind::TOC_CONTENTS_LINE.raw()
    }

    /// Whether a node of raw kind `kind` is a `TocContentsLine`.
    pub fn can_cast(kind: u16) -> (b: bool)
        ensures
            b == Self::is_kind(kind),
    {
        kind == SyntaxKind::TOC_CONTENTS_LINE.to_raw()
    }

    /// `node` as a `TocContentsLine`, if it is one.
    pub fn cast(node: &'a SyntaxNode) -> (r: Option<Self>)
        ensures
            r.is_some() == Self::is_kind(node.kind),
            r.is_some() ==> r.unwrap().0 == node,
    {
        if Self::can_cast(node.kind) {
            Some(TocContentsLine(node))
        } else {
            None
        }
    }

    /// The node.
    pub fn syntax(&self) -> (n: &'a SyntaxNode)
        ensures
            n == self.0,
    {
        self.0
    }

    /// The command's name: the first token.
    pub fn command(&self) -> (r: Option<&'a SyntaxToken>)
        ensures
            r.is_some() == first_token_of(*self.0).is_some(),
            r.is_some() ==> *r.unwrap() == first_token_of(*self.0).unwrap(),
    {
        first_token(self.0)
    }

    /// The sectioning unit.
    pub fn unit(&self) -> (r: Option<CurlyGroup<'a>>)
        ensures
            match r {
                Some(c) => nth_node(*self.0, seq![SyntaxKind::CURLY_GROUP.raw()], 0) == Some(*c.0),
                None => nth_node(*self.0, seq![SyntaxKind::CURLY_GROUP.raw()], 0) is None,
            },
    {
        match nth_child_node(self.0, &kinds1(SyntaxKind::CURLY_GROUP.to_raw()), 0) {
            Some(n) => Some(CurlyGroup(n)),
            None => None,
        }
    }

    /// The line.
    pub fn line(&self) -> (r: Option<CurlyGroup<'a>>)
        ensures
            match r {
                Some(c) => nth_node(*self.0, seq![SyntaxKind::CURLY_GROUP.raw()], 1) == Some(*c.0),
                None => nth_node(*self.0, seq![SyntaxKind::CURLY_GROUP.raw()], 1) is None,
            },
    {
        match nth_child_node(self.0, &kinds1(SyntaxKind::CURLY_GROUP.to_raw()), 1) {
            Some(n) => Some(CurlyGroup(n)),
            None => None,
        }
    }
}

/// The number of a line of a table of contents.
#[derive(Debug, Clone, Copy)]
pub struct TocNumberLine<'a>(pub &'a SyntaxNode);

impl<'a> TocNumberLine<'a> {
    /// Whether a node of raw kind `kind` is a `TocNumberLine`.
    pub open spec fn is_kind(kind: u16) -> bool {
        kind == SyntaxKind::TOC_NUMBER_LINE.raw()
    }

    /// Whether a node of raw kind `kind` is a `TocNumberLine`.
    pub fn can_cast(kind: u16) -> (b: bool)
        ensures
            b == Self::is_kind(kind),
    {
        kind == SyntaxKind::TOC_NUMBER_LINE.to_raw()
    }

    /// `node` as a `TocNumberLine`, if it is one.
    pub fn cast(node: &'a SyntaxNode) -> (r: Option<Self>)
        ensures
            r.is_some() == Self::is_kind(node.kind),
            r.is_some() ==> r.unwrap().0 == node,
    {
        if Self::can_cast(node.kind) {
            Some(TocNumberLine(node))
        } else {
            None
        }
    }

    /// The node.
    pub fn syntax(&self) -> (n: &'a SyntaxNode)
        ensures
            n == self.0,
    {
        self.0
    }

    /// The command's name: the first token.
    pub fn command(&self) -> (r: Option<&'a SyntaxToken>)
        ensures
            r.is_some() == first_token_of(*self.0).is_some(),
            r.is_some() ==> *r.unwrap() == first_token_of(*self.0).unwrap(),
    {
        first_token(self.0)
    }

    /// The number.
    pub fn number(&self) -> (r: Option<CurlyGroup<'a>>)
        ensures
            match r {
                Some(c) => nth_node(*self.0, seq![SyntaxKind::CURLY_GROUP.raw()], 0) == Some(*c.0),
                None => nth_node(*self.0, seq![SyntaxKind::CURLY_GROUP.raw()], 0) is None,
            },
    {
        match nth_child_node(self.0, &kinds1(SyntaxKind::CURLY_GROUP.to_raw()), 0) {
            Some(n) => Some(CurlyGroup(n)),
            None => None,
        }
    }
}

/// A node delimited by braces.
pub trait HasCurly<'a> {
    /// The node.
    spec fn node(&self) -> SyntaxNode;

    /// The node.
    fn syntax_node(&self) -> (n: &'a SyntaxNode)
        ensures
            *n == self.node(),
    ;

    /// The opening delimiter.
    fn left_curly(&self) -> (r: Option<&'a SyntaxToken>)
        ensures
            r.is_some() == nth_token(self.node(), seq![SyntaxKind::L_CURLY.raw()], 0).is_some(),
            r.is_some() ==> nth_token(self.node(), seq![SyntaxKind::L_CURLY.raw()], 0) == Some(*r.unwrap()),
    {
        nth_child_token(self.syntax_node(), &kinds1(SyntaxKind::L_CURLY.to_raw()), 0)
    }

    /// The closing delimiter.
    fn right_curly(&self) -> (r: Option<&'a SyntaxToken>)
        ensures
            r.is_some() == nth_token(self.node(), seq![SyntaxKind::R_CURLY.raw()], 0).is_some(),
            r.is_some() ==> nth_token(self.node(), seq![SyntaxKind::R_CURLY.raw()], 0) == Some(*r.unwrap()),
    {
        nth_child_token(self.syntax_node(), &kinds1(SyntaxKind::R_CURLY.to_raw()), 0)
    }

    /// The text between the delimiters without the comments and without white
    /// space at either end; none when a delimiter is missing.
    fn content_text(&self) -> (r: Option<String>)
        requires
            nth_token(self.node(), seq![SyntaxKind::L_CURLY.raw()], 0).is_some() && nth_token(
                self.node(),
                seq![SyntaxKind::R_CURLY.raw()],
                0,
            ).is_some() ==> group_text_sliceable(self.node(), SyntaxKind::COMMENT.raw()),
        ensures
            r.is_some() == (nth_token(self.node(), seq![SyntaxKind::L_CURLY.raw()], 0).is_some() && nth_token(
                self.node(),
                seq![SyntaxKind::R_CURLY.raw()],
                0,
            ).is_some()),
            r.is_some() ==> r.unwrap()@ == group_content(self.node(), SyntaxKind::COMMENT.raw()),
    {
        if self.left_curly().is_none() || self.right_curly().is_none() {
            return None;
        }
        Some(group_content_text(self.syntax_node(), SyntaxKind::COMMENT.to_raw()))
    }
}

impl<'a> HasCurly<'a> for CurlyGroup<'a> {
    open spec fn node(&self) -> SyntaxNode {
        *self.0
    }

    fn syntax_node(&self) -> (n: &'a SyntaxNode) {
        self.0
    }
}

impl<'a> HasCurly<'a> for CurlyGroupWord<'a> {
    open spec fn node(&self) -> SyntaxNode {
        *self.0
    }

    fn syntax_node(&self) -> (n: &'a SyntaxNode) {
        self.0
    }
}

impl<'a> HasCurly<'a> for CurlyGroupWordList<'a> {
    open spec fn node(&self) -> SyntaxNode {
        *self.0
    }

    fn syntax_node(&self) -> (n: &'a SyntaxNode) {
        self.0
    }
}

impl<'a> HasCurly<'a> for CurlyGroupCommand<'a> {
    open spec fn node(&self) -> SyntaxNode {
        *self.0
    }

    fn syntax_node(&self) -> (n: &'a SyntaxNode) {
        self.0
    }
}

impl<'a> HasCurly<'a> for CurlyGroupKeyValue<'a> {
    open spec fn node(&self) -> SyntaxNode {
        *self.0
    }

    fn syntax_node(&self) -> (n: &'a SyntaxNode) {
        self.0
    }
}

/// A node delimited by brackets.
pub trait HasBrack<'a> {
    /// The node.
    spec fn node(&self) -> SyntaxNode;

    /// The node.
    fn syntax_node(&self) -> (n: &'a SyntaxNode)
        ensures
            *n == self.node(),
    ;

    /// The opening delimiter.
    fn left_brack(&self) -> (r: Option<&'a SyntaxToken>)
        ensures
            r.is_some() == nth_token(self.node(), seq![SyntaxKind::L_BRACK.raw()], 0).is_some(),
            r.is_some() ==> nth_token(self.node(), seq![SyntaxKind::L_BRACK.raw()], 0) == Some(*r.unwrap()),
    {
        nth_child_token(self.syntax_node(), &kinds1(SyntaxKind::L_BRACK.to_raw()), 0)
    }

    /// The closing delimiter.
    fn right_brack(&self) -> (r: Option<&'a SyntaxToken>)
        ensures
            r.is_some() == nth_token(self.node(), seq![SyntaxKind::R_BRACK.raw()], 0).is_some(),
            r.is_some() ==> nth_token(self.node(), seq![SyntaxKind::R_BRACK.raw()], 0) == Some(*r.unwrap()),
    {
        nth_child_token(self.syntax_node(), &kinds1(SyntaxKind::R_BRACK.to_raw()), 0)
    }

    /// The text between the delimiters without the comments and without white
    /// space at either end; none when a delimiter is missing.
    fn content_text(&self) -> (r: Option<String>)
        requires
            nth_token(self.node(), seq![SyntaxKind::L_BRACK.raw()], 0).is_some() && nth_token(
                self.node(),
                seq![SyntaxKind::R_BRACK.raw()],
                0,
            ).is_some() ==> group_text_sliceable(self.node(), SyntaxKind::COMMENT.raw()),
        ensures
            r.is_some() == (nth_token(self.node(), seq![SyntaxKind::L_BRACK.raw()], 0).is_some() && nth_token(
                self.node(),
                seq![SyntaxKind::R_BRACK.raw()],
                0,
            ).is_some()),
            r.is_some() ==> r.unwrap()@ == group_content(self.node(), SyntaxKind::COMMENT.raw()),
    {
        if self.left_brack().is_none() || self.right_brack().is_none() {
            return None;
        }
        Some(group_content_text(self.syntax_node(), SyntaxKind::COMMENT.to_raw()))
    }
}

impl<'a> HasBrack<'a> for BrackGroup<'a> {
    open spec fn node(&self) -> SyntaxNode {
        *self.0
    }

    fn syntax_node(&self) -> (n: &'a SyntaxNode) {
        self.0
    }
}

impl<'a> HasBrack<'a> for BrackGroupWord<'a> {
    open spec fn node(&self) -> SyntaxNode {
        *self.0
    }

    fn syntax_node(&self) -> (n: &'a SyntaxNode) {
        self.0
    }
}

impl<'a> HasBrack<'a> for BrackGroupKeyValue<'a> {
    open spec fn node(&self) -> SyntaxNode {
        *self.0
    }

    fn syntax_node(&self) -> (n: &'a SyntaxNode) {
        self.0
    }
}

/// A node delimited by parentheses.
pub trait HasParen<'a> {
    /// The node.
    spec fn node(&self) -> SyntaxNode;

    /// The node.
    fn syntax_node(&self) -> (n: &'a SyntaxNode)
        ensures
            *n == self.node(),
    ;

    /// The opening delimiter.
    fn left_paren(&self) -> (r: Option<&'a SyntaxToken>)
        ensures
            r.is_some() == nth_token(self.node(), seq![SyntaxKind::L_PAREN.raw()], 0).is_some(),
            r.is_some() ==> nth_token(self.node(), seq![SyntaxKind::L_PAREN.raw()], 0) == Some(*r.unwrap()),
    {
        nth_child_token(self.syntax_node(), &kinds1(SyntaxKind::L_PAREN.to_raw()), 0)
    }

    /// The closing delimiter.
    fn right_paren(&self) -> (r: Option<&'a SyntaxToken>)
        ensures
            r.is_some() == nth_token(self.node(), seq![SyntaxKind::R_PAREN.raw()], 0).is_some(),
            r.is_some() ==> nth_token(self.node(), seq![SyntaxKind::R_PAREN.raw()], 0) == Some(*r.unwrap()),
    {
        nth_child_token(self.syntax_node(), &kinds1(SyntaxKind::R_PAREN.to_raw()), 0)
    }
}

impl<'a> HasParen<'a> for ParenGroup<'a> {
    open spec fn node(&self) -> SyntaxNode {
        *self.0
    }

    fn syntax_node(&self) -> (n: &'a SyntaxNode) {
        self.0
    }
}

/// A node that holds key-value pairs.
pub trait HasKeyValueBody<'a> {
    /// The node.
    spec fn node(&self) -> SyntaxNode;

    /// The node.
    fn syntax_node(&self) -> (n: &'a SyntaxNode)
        ensures
            *n == self.node(),
    ;

    /// The key-value pairs.
    fn body(&self) -> (r: Option<KeyValueBody<'a>>)
        ensures
            match r {
                Some(c) => nth_node(self.node(), seq![SyntaxKind::KEY_VALUE_BODY.raw()], 0) == Some(*c.0),
                None => nth_node(self.node(), seq![SyntaxKind::KEY_VALUE_BODY.raw()], 0) is None,
            },
    {
        match nth_child_node(self.syntax_node(), &kinds1(SyntaxKind::KEY_VALUE_BODY.to_raw()), 0) {
            Some(n) => Some(KeyValueBody(n)),
            None => None,
        }
    }
}

impl<'a> HasKeyValueBody<'a> for CurlyGroupKeyValue<'a> {
    open spec fn node(&self) -> SyntaxNode {
        *self.0
    }

    fn syntax_node(&self) -> (n: &'a SyntaxNode) {
        self.0
    }
}

impl<'a> HasKeyValueBody<'a> for BrackGroupKeyValue<'a> {
    open spec fn node(&self) -> SyntaxNode {
        *self.0
    }

    fn syntax_node(&self) -> (n: &'a SyntaxNode) {
        self.0
    }
}


/// The characters of a key's tokens, each white space or comment token as one
/// space.
pub open spec fn key_chars(ts: Seq<SyntaxToken>) -> Seq<char>
    decreases ts.len(),
{
    if ts.len() == 0 {
        Seq::empty()
    } else if ts.last().kind == SyntaxKind::WHITESPACE.raw() || ts.last().kind
        == SyntaxKind::COMMENT.raw() {
        key_chars(ts.drop_last()).push(' ')
    } else {
        key_chars(ts.drop_last()) + ts.last().text@
    }
}

/// The text of a key: its tokens' characters, white space and comments as
/// single spaces, without white space at either end.
pub open spec fn key_string(n: SyntaxNode) -> Seq<char> {
    trim(key_chars(child_tokens(n.children@)))
}

/// The texts of tokens.
pub open spec fn token_texts(ts: Seq<SyntaxToken>) -> Seq<Seq<char>> {
    Seq::new(ts.len(), |i: int| ts[i].text@)
}

/// The words of a key: its tokens that are neither white space nor comments.
pub open spec fn key_words(n: SyntaxNode) -> Seq<SyntaxToken> {
    tokens_without_kind(
        child_tokens(n.children@),
        seq![SyntaxKind::WHITESPACE.raw(), SyntaxKind::COMMENT.raw()],
    )
}

/// The nodes that keys stand for.
pub open spec fn key_nodes(ks: Seq<Key>) -> Seq<SyntaxNode> {
    Seq::new(ks.len(), |i: int| *ks[i].0)
}

impl<'a> Text<'a> {
    /// The words of the text.
    pub fn words(&self) -> (r: Vec<&'a SyntaxToken>)
        ensures
            r@.len() == tokens_with_kind(child_tokens(self.0.children@), seq![SyntaxKind::WORD.raw()]).len(),
            forall|j: int| 0 <= j < r@.len() ==> *#[trigger] r@[j] == tokens_with_kind(
                child_tokens(self.0.children@),
                seq![SyntaxKind::WORD.raw()],
            )[j],
    {
        child_tokens_with_kind(self.0, &kinds1(SyntaxKind::WORD.to_raw()))
    }
}

impl<'a> Key<'a> {
    /// The words of the key: its tokens that are neither white space nor
    /// comments.
    pub fn words(&self) -> (r: Vec<&'a SyntaxToken>)
        ensures
            r@.len() == key_words(*self.0).len(),
            forall|j: int| 0 <= j < r@.len() ==> *#[trigger] r@[j] == key_words(*self.0)[j],
    {
        child_tokens_without_kind(
            self.0,
            &kinds2(SyntaxKind::WHITESPACE.to_raw(), SyntaxKind::COMMENT.to_raw()),
        )
    }

    /// The key as a string: its tokens' texts, white space and comments as
    /// single spaces, without white space at either end.
    pub fn to_string(&self) -> (s: String)
        ensures
            s@ == key_string(*self.0),
    {
        let ghost ts = child_tokens(self.0.children@);
        let tokens = child_tokens_without_kind(self.0, &Vec::new());
        proof {
            lemma_without_nothing(ts);
        }
        let mut chars: Vec<char> = Vec::new();
        let mut i: usize = 0;
        while i < tokens.len()
            invariant
                i <= tokens@.len(),
                tokens@.len() == ts.len(),
                forall|j: int| 0 <= j < tokens@.len() ==> *#[trigger] tokens@[j] == ts[j],
                chars@ == key_chars(ts.take(i as int)),
            decreases tokens.len() - i,
        {
            let t = tokens[i];
            proof {
                assert(ts.take(i + 1).drop_last() =~= ts.take(i as int));
                assert(ts.take(i + 1).last() == *t);
            }
            if t.kind == SyntaxKind::WHITESPACE.to_raw() || t.kind == SyntaxKind::COMMENT.to_raw() {
                chars.push(' ');
            } else {
                crate::cst_support::push_str_chars(&mut chars, t.text.as_str());
            }
            i += 1;
        }
        assert(ts.take(i as int) =~= ts);
        let e = crate::cst_support::trim_end_len(&chars, chars.len());
        assert(chars@.take(chars.len() as int) =~= chars@);
        let b = crate::cst_support::trim_start_pos(&chars, 0, e);
        assert(chars@.subrange(0, e as int) =~= chars@.take(e as int));
        crate::text::string_of_range(&chars, b, e)
    }
}

/// Leaving out no kind keeps every token.
proof fn lemma_without_nothing(ts: Seq<SyntaxToken>)
    ensures
        tokens_without_kind(ts, Seq::<u16>::empty()) == ts,
    decreases ts.len(),
{
    if ts.len() > 0 {
        lemma_without_nothing(ts.drop_last());
        assert(ts.drop_last().push(ts.last()) =~= ts);
    }
}

impl<'a> PartialEq for Key<'a> {
    fn eq(&self, other: &Self) -> (r: bool) {
        let a = self.words();
        let b = other.words();
        if a.len() != b.len() {
            proof {
                assert(token_texts(key_words(*self.0)).len() != token_texts(key_words(*other.0)).len());
            }
            return false;
        }
        let mut i: usize = 0;
        while i < a.len()
            invariant
                i <= a@.len(),
                a@.len() == b@.len(),
                a@.len() == key_words(*self.0).len(),
                b@.len() == key_words(*other.0).len(),
                forall|j: int| 0 <= j < a@.len() ==> *#[trigger] a@[j] == key_words(*self.0)[j],
                forall|j: int| 0 <= j < b@.len() ==> *#[trigger] b@[j] == key_words(*other.0)[j],
                forall|j: int| 0 <= j < i ==> #[trigger] key_words(*self.0)[j].text@ == key_words(*other.0)[j].text@,
            decreases a.len() - i,
        {
            if a[i].text != b[i].text {
                proof {
                    let x = token_texts(key_words(*self.0));
                    let y = token_texts(key_words(*other.0));
                    assert(x[i as int] != y[i as int]);
                }
                return false;
            }
            i += 1;
        }
        proof {
            assert(token_texts(key_words(*self.0)) =~= token_texts(key_words(*other.0)));
        }
        true
    }
}

impl<'a> vstd::std_specs::cmp::PartialEqSpecImpl for Key<'a> {
    open spec fn obeys_eq_spec() -> bool {
        true
    }

    /// Two keys are equal when their words have the same texts, in order.
    open spec fn eq_spec(&self, other: &Self) -> bool {
        same_key(*self, *other)
    }
}

impl<'a> Eq for Key<'a> {

}

/// Whether two keys have words with the same texts, in order: what `==`
/// on keys computes.
pub open spec fn same_key(a: Key, b: Key) -> bool {
    token_texts(key_words(*a.0)) == token_texts(key_words(*b.0))
}

/// Equality of keys is an equivalence: every key equals itself, equality
/// is symmetric, and two keys equal to a third are equal.
pub proof fn lemma_key_eq_equivalence(a: Key, b: Key, c: Key)
    ensures
        same_key(a, a),
        same_key(a, b) == same_key(b, a),
        same_key(a, b) && same_key(b, c) ==> same_key(a, c),
{
}

impl<'a> Value<'a> {
    /// The value's text: the content of the group when the node is a curly
    /// group, else its whole text.
    pub fn text(&self) -> (r: Option<String>)
        requires
            CurlyGroup::is_kind(self.0.kind) && nth_token(
                *self.0,
                seq![SyntaxKind::L_CURLY.raw()],
                0,
            ).is_some() && nth_token(*self.0, seq![SyntaxKind::R_CURLY.raw()], 0).is_some()
                ==> group_text_sliceable(*self.0, SyntaxKind::COMMENT.raw()),
        ensures
            CurlyGroup::is_kind(self.0.kind) ==> r.is_some() == (nth_token(
                *self.0,
                seq![SyntaxKind::L_CURLY.raw()],
                0,
            ).is_some() && nth_token(*self.0, seq![SyntaxKind::R_CURLY.raw()], 0).is_some()),
            CurlyGroup::is_kind(self.0.kind) && r.is_some() ==> r.unwrap()@ == group_content(
                *self.0,
                SyntaxKind::COMMENT.raw(),
            ),
            !CurlyGroup::is_kind(self.0.kind) ==> r.is_some() && r.unwrap()@ == self.0.text(),
    {
        match CurlyGroup::cast(self.0) {
            Some(group) => group.content_text(),
            None => Some(crate::cst_support::node_text_string(self.0)),
        }
    }
}

impl<'a> KeyValueBody<'a> {
    /// The key-value pairs, in order.
    pub fn pairs(&self) -> (r: Vec<KeyValuePair<'a>>)
        ensures
            r@.len() == nodes_with_kind(child_nodes(self.0.children@), seq![SyntaxKind::KEY_VALUE_PAIR.raw()]).len(),
            forall|j: int| 0 <= j < r@.len() ==> *(#[trigger] r@[j]).0 == nodes_with_kind(
                child_nodes(self.0.children@),
                seq![SyntaxKind::KEY_VALUE_PAIR.raw()],
            )[j],
    {
        let nodes = crate::cst_support::child_nodes_with_kind(
            self.0,
            &kinds1(SyntaxKind::KEY_VALUE_PAIR.to_raw()),
        );
        let mut r: Vec<KeyValuePair<'a>> = Vec::new();
        let mut i: usize = 0;
        while i < nodes.len()
            invariant
                i <= nodes@.len(),
                r@.len() == i,
                forall|j: int| 0 <= j < i ==> (#[trigger] r@[j]).0 == nodes@[j],
            decreases nodes.len() - i,
        {
            r.push(KeyValuePair(nodes[i]));
            i += 1;
        }
        r
    }
}

/// The nodes of kind `kind` in the subtree of `node`, in document order.
fn descendants_of_kind<'a>(node: &'a SyntaxNode, kind: SyntaxKind) -> (r: Vec<&'a SyntaxNode>)
    ensures
        deref_nodes(r@) == nodes_with_kind(descendants(*node), seq![kind.raw()]),
{
    let mut r: Vec<&'a SyntaxNode> = Vec::new();
    descendants_with_kind(node, &kinds1(kind.to_raw()), &mut r);
    assert(deref_nodes(Seq::<&SyntaxNode>::empty()) =~= Seq::<SyntaxNode>::empty());
    r
}

impl<'a> CurlyGroupWordList<'a> {
    /// The keys in the list, nested ones included, in document order.
    pub fn keys(&self) -> (r: Vec<Key<'a>>)
        ensures
            key_nodes(r@) == nodes_with_kind(descendants(*self.0), seq![SyntaxKind::KEY.raw()]),
    {
        let nodes = descendants_of_kind(self.0, SyntaxKind::KEY);
        let mut r: Vec<Key<'a>> = Vec::new();
        let mut i: usize = 0;
        while i < nodes.len()
            invariant
                i <= nodes@.len(),
                r@.len() == i,
                forall|j: int| 0 <= j < i ==> (#[trigger] r@[j]).0 == nodes@[j],
            decreases nodes.len() - i,
        {
            r.push(Key(nodes[i]));
            i += 1;
        }
        assert(key_nodes(r@) =~= deref_nodes(nodes@));
        r
    }
}

impl<'a> GraphicsPath<'a> {
    /// The groups of single paths in the command, nested ones included, in
    /// document order.
    pub fn path_list(&self) -> (r: Vec<CurlyGroupWord<'a>>)
        ensures
            r@.len() == nodes_with_kind(descendants(*self.0), seq![SyntaxKind::CURLY_GROUP_WORD.raw()]).len(),
            forall|j: int| 0 <= j < r@.len() ==> *(#[trigger] r@[j]).0 == nodes_with_kind(
                descendants(*self.0),
                seq![SyntaxKind::CURLY_GROUP_WORD.raw()],
            )[j],
    {
        let nodes = descendants_of_kind(self.0, SyntaxKind::CURLY_GROUP_WORD);
        let mut r: Vec<CurlyGroupWord<'a>> = Vec::new();
        let mut i: usize = 0;
        while i < nodes.len()
            invariant
                i <= nodes@.len(),
                r@.len() == i,
                forall|j: int| 0 <= j < i ==> (#[trigger] r@[j]).0 == nodes@[j],
            decreases nodes.len() - i,
        {
            r.push(CurlyGroupWord(nodes[i]));
            i += 1;
        }
        assert(deref_nodes(nodes@)[0] == *nodes@[0] || nodes@.len() == 0);
        r
    }
}

/// Whether the first child of `n` is a command name token.
pub open spec fn starts_with_command_name(n: SyntaxNode) -> bool {
    n.children@.len() > 0 && (n.children@[0] matches crate::tree::SyntaxElement::Token(t) && t.kind
        == SyntaxKind::COMMAND_NAME.raw())
}

impl<'a> OldCommandDefinition<'a> {
    /// The command that is defined: the first command name token among the
    /// children after the first.
    pub fn name(&self) -> (r: Option<&'a SyntaxToken>)
        ensures
            ({
                let skip = if starts_with_command_name(*self.0) {
                    1int
                } else {
                    0int
                };
                r.is_some() == nth_token(*self.0, seq![SyntaxKind::COMMAND_NAME.raw()], skip).is_some()
                    && (r.is_some() ==> nth_token(*self.0, seq![SyntaxKind::COMMAND_NAME.raw()], skip)
                    == Some(*r.unwrap()))
            }),
    {
        let skip: usize = if self.0.children.len() > 0 {
            match &self.0.children[0] {
                crate::tree::SyntaxElement::Token(t) => if t.kind == SyntaxKind::COMMAND_NAME.to_raw() {
                    1
                } else {
                    0
                },
                crate::tree::SyntaxElement::Node(_) => 0,
            }
        } else {
            0
        };
        nth_child_token(self.0, &kinds1(SyntaxKind::COMMAND_NAME.to_raw()), skip)
    }
}

/// The names that a theorem definition defines: the keys of its first word
/// list (nested ones included), then the key of its first word group.
pub open spec fn theorem_names(n: SyntaxNode) -> Seq<SyntaxNode> {
    (match nth_node(n, seq![SyntaxKind::CURLY_GROUP_WORD_LIST.raw()], 0) {
        Some(g) => nodes_with_kind(descendants(g), seq![SyntaxKind::KEY.raw()]),
        None => Seq::empty(),
    }) + (match nth_node(n, seq![SyntaxKind::CURLY_GROUP_WORD.raw()], 0) {
        Some(g) => match nth_node(g, seq![SyntaxKind::KEY.raw()], 0) {
            Some(k) => seq![k],
            None => Seq::empty(),
        },
        None => Seq::empty(),
    })
}

/// Whether the key of a key-value pair reads `name`.
pub open spec fn pair_is_name(p: SyntaxNode) -> bool {
    match nth_node(p, seq![SyntaxKind::KEY.raw()], 0) {
        Some(k) => key_string(k) == "name"@,
        None => false,
    }
}

/// The first of `pairs` whose key reads `name`.
pub open spec fn find_name_pair(pairs: Seq<SyntaxNode>) -> Option<SyntaxNode>
    decreases pairs.len(),
{
    if pairs.len() == 0 {
        None
    } else if pair_is_name(pairs[0]) {
        Some(pairs[0])
    } else {
        find_name_pair(pairs.drop_first())
    }
}

/// The heading that a theorem definition gives: for the thmtools form, the
/// text of the value of its `name` option; else the content of its first
/// curly group.
pub open spec fn theorem_heading(n: SyntaxNode) -> Option<Seq<char>> {
    if n.kind == SyntaxKind::THEOREM_DEFINITION_THMTOOLS.raw() {
        match nth_node(n, seq![SyntaxKind::BRACK_GROUP_KEY_VALUE.raw()], 0) {
            None => None,
            Some(g) => match nth_node(g, seq![SyntaxKind::KEY_VALUE_BODY.raw()], 0) {
                None => None,
                Some(body) => match find_name_pair(
                    nodes_with_kind(child_nodes(body.children@), seq![SyntaxKind::KEY_VALUE_PAIR.raw()]),
                ) {
                    None => None,
                    Some(p) => match nth_node(p, seq![SyntaxKind::VALUE.raw()], 0) {
                        None => None,
                        Some(v) => Some(v.text()),
                    },
                },
            },
        }
    } else {
        match nth_node(n, seq![SyntaxKind::CURLY_GROUP.raw()], 0) {
            None => None,
            Some(g) => if nth_token(g, seq![SyntaxKind::L_CURLY.raw()], 0).is_some() && nth_token(
                g,
                seq![SyntaxKind::R_CURLY.raw()],
                0,
            ).is_some() {
                Some(group_content(g, SyntaxKind::COMMENT.raw()))
            } else {
                None
            },
        }
    }
}

/// Whether the heading of a theorem definition can be read without slicing
/// a group's text where it cannot be sliced.
pub open spec fn theorem_heading_readable(n: SyntaxNode) -> bool {
    n.kind != SyntaxKind::THEOREM_DEFINITION_THMTOOLS.raw() ==> match nth_node(
        n,
        seq![SyntaxKind::CURLY_GROUP.raw()],
        0,
    ) {
        None => true,
        Some(g) => nth_token(g, seq![SyntaxKind::L_CURLY.raw()], 0).is_some() && nth_token(
            g,
            seq![SyntaxKind::R_CURLY.raw()],
            0,
        ).is_some() ==> group_text_sliceable(g, SyntaxKind::COMMENT.raw()),
    }
}

impl<'a> TheoremDefinition<'a> {
    /// The names that the definition defines.
    pub fn names(&self) -> (r: Vec<Key<'a>>)
        ensures
            key_nodes(r@) == theorem_names(*self.0),
    {
        let mut r: Vec<Key<'a>> = match nth_child_node(
            self.0,
            &kinds1(SyntaxKind::CURLY_GROUP_WORD_LIST.to_raw()),
            0,
        ) {
            Some(n) => CurlyGroupWordList(n).keys(),
            None => Vec::new(),
        };
        let ghost first = key_nodes(r@);
        match nth_child_node(self.0, &kinds1(SyntaxKind::CURLY_GROUP_WORD.to_raw()), 0) {
            Some(n) => match CurlyGroupWord(n).key() {
                Some(k) => {
                    r.push(k);
                    assert(key_nodes(r@) =~= first + seq![*k.0]);
                },
                None => {},
            },
            None => {},
        }
        assert(key_nodes(r@) =~= theorem_names(*self.0));
        r
    }

    /// The heading that the definition gives.
    pub fn heading(&self) -> (r: Option<String>)
        requires
            theorem_heading_readable(*self.0),
        ensures
            r.is_some() == theorem_heading(*self.0).is_some(),
            r.is_some() ==> r.unwrap()@ == theorem_heading(*self.0).unwrap(),
    {
        if self.0.kind == SyntaxKind::THEOREM_DEFINITION_THMTOOLS.to_raw() {
            let group = match nth_child_node(
                self.0,
                &kinds1(SyntaxKind::BRACK_GROUP_KEY_VALUE.to_raw()),
                0,
            ) {
                Some(g) => BrackGroupKeyValue(g),
                None => return None,
            };
            let body = match group.body() {
                Some(b) => b,
                None => return None,
            };
            let pairs = body.pairs();
            let ghost all = nodes_with_kind(
                child_nodes(body.0.children@),
                seq![SyntaxKind::KEY_VALUE_PAIR.raw()],
            );
            let mut i: usize = 0;
            proof {
                assert(all.skip(0) =~= all);
            }
            while i < pairs.len()
                invariant
                    i <= pairs@.len(),
                    pairs@.len() == all.len(),
                    forall|j: int| 0 <= j < pairs@.len() ==> *(#[trigger] pairs@[j]).0 == all[j],
                    find_name_pair(all) == find_name_pair(all.skip(i as int)),
                    self.0.kind == SyntaxKind::THEOREM_DEFINITION_THMTOOLS.raw(),
                    nth_node(*self.0, seq![SyntaxKind::BRACK_GROUP_KEY_VALUE.raw()], 0) == Some(*group.0),
                    nth_node(*group.0, seq![SyntaxKind::KEY_VALUE_BODY.raw()], 0) == Some(*body.0),
                    all == nodes_with_kind(
                        child_nodes(body.0.children@),
                        seq![SyntaxKind::KEY_VALUE_PAIR.raw()],
                    ),
                decreases pairs.len() - i,
            {
                let pair = pairs[i];
                let ghost rest = all.skip(i as int);
                proof {
                    assert(rest[0] == all[i as int]);
                    assert(rest.drop_first() =~= all.skip(i + 1));
                }
                let is_name = match pair.key() {
                    Some(key) => {
                        let text = key.to_string();
                        let chars = crate::text::chars_of(text.as_str());
                        super::lexer::chars_eq_str(&chars, "name")
                    },
                    None => false,
                };
                proof {
                    assert(is_name == pair_is_name(all[i as int]));
                    if is_name {
                        assert(find_name_pair(rest) == Some(all[i as int]));
                    } else {
                        assert(find_name_pair(rest) == find_name_pair(all.skip(i + 1)));
                    }
                }
                if is_name {
                    return match pair.value() {
                        Some(v) => {
                            proof {
                                crate::cst_support::lemma_nodes_with_kind_kinds(
                                    child_nodes(pair.0.children@),
                                    seq![SyntaxKind::VALUE.raw()],
                                );
                                let vs = nodes_with_kind(child_nodes(pair.0.children@), seq![SyntaxKind::VALUE.raw()]);
                                assert(seq![SyntaxKind::VALUE.raw()].contains(vs[0].kind));
                            }
                            v.text()
                        },
                        None => None,
                    };
                }
                i += 1;
            }
            proof {
                assert(all.skip(i as int).len() == 0);
            }
            None
        } else {
            match nth_child_node(self.0, &kinds1(SyntaxKind::CURLY_GROUP.to_raw()), 0) {
                Some(g) => CurlyGroup(g).content_text(),
                None => None,
            }
        }
    }
}
/// `ts` without the white space and comments at its end.
pub open spec fn significant_tokens(ts: Seq<SyntaxToken>) -> Seq<SyntaxToken>
    decreases ts.len(),
{
    if ts.len() == 0 {
        ts
    } else if ts.last().kind == SyntaxKind::WHITESPACE.raw() || ts.last().kind
        == SyntaxKind::COMMENT.raw() {
        significant_tokens(ts.drop_last())
    } else {
        ts
    }
}

/// `significant_tokens` keeps a prefix of the tokens.
proof fn lemma_significant_prefix(ts: Seq<SyntaxToken>)
    ensures
        significant_tokens(ts) == ts.take(significant_tokens(ts).len() as int),
        significant_tokens(ts).len() <= ts.len(),
    decreases ts.len(),
{
    if ts.len() > 0 && (ts.last().kind == SyntaxKind::WHITESPACE.raw() || ts.last().kind
        == SyntaxKind::COMMENT.raw()) {
        lemma_significant_prefix(ts.drop_last());
        let k = significant_tokens(ts).len() as int;
        assert(ts.drop_last().take(k) =~= ts.take(k));
    } else {
        assert(ts.take(ts.len() as int) =~= ts);
    }
}

/// The range of a node that begins at byte offset `start`, without the
/// white space and comments at its end: it ends after its last token that
/// is neither (at `start` when there is none).
pub fn small_range(node: &SyntaxNode, start: u32) -> (r: (u32, u32))
    requires
        start + encode_utf8(tokens_text(descendant_tokens(*node))).len() <= u32::MAX,
    ensures
        r.0 == start,
        r.1 == start + encode_utf8(tokens_text(significant_tokens(descendant_tokens(*node)))).len(),
{
    let mut refs: Vec<&SyntaxToken> = Vec::new();
    crate::cst_support::collect_tokens(node, &mut refs);
    let ghost ts = descendant_tokens(*node);
    assert(deref_tokens(refs@) =~= ts);
    let mut k = refs.len();
    assert(ts.take(k as int) =~= ts);
    while k > 0 && (refs[k - 1].kind == SyntaxKind::WHITESPACE.to_raw() || refs[k - 1].kind
        == SyntaxKind::COMMENT.to_raw())
        invariant
            k <= refs@.len(),
            refs@.len() == ts.len(),
            forall|j: int| 0 <= j < refs@.len() ==> *(#[trigger] refs@[j]) == ts[j],
            significant_tokens(ts) == significant_tokens(ts.take(k as int)),
        decreases k,
    {
        assert(ts.take(k as int).drop_last() =~= ts.take(k - 1));
        assert(ts.take(k as int).last() == ts[k - 1]);
        k -= 1;
    }
    proof {
        if k > 0 {
            assert(ts.take(k as int).last() == ts[k - 1]);
        }
        assert(significant_tokens(ts.take(k as int)) == ts.take(k as int));
        lemma_tokens_text_add(ts.take(k as int), ts.skip(k as int));
        assert(ts.take(k as int) + ts.skip(k as int) =~= ts);
        crate::green::lemma_encode_utf8_add(tokens_text(ts.take(k as int)), tokens_text(ts.skip(k as int)));
        assert(tokens_text(Seq::<SyntaxToken>::empty()) =~= Seq::<char>::empty());
    }
    let mut len: u32 = 0;
    let mut j: usize = 0;
    while j < k
        invariant
            j <= k <= refs@.len(),
            refs@.len() == ts.len(),
            forall|q: int| 0 <= q < refs@.len() ==> *(#[trigger] refs@[q]) == ts[q],
            start + encode_utf8(tokens_text(ts.take(k as int))).len() <= u32::MAX,
            len == encode_utf8(tokens_text(ts.take(j as int))).len(),
        decreases k - j,
    {
        proof {
            assert(ts.take(j + 1).drop_last() =~= ts.take(j as int));
            assert(ts.take(j + 1).last() == ts[j as int]);
            crate::green::lemma_encode_utf8_add(tokens_text(ts.take(j as int)), ts[j as int].text@);
            lemma_tokens_text_add(ts.take(j + 1), ts.take(k as int).skip(j + 1));
            assert(ts.take(j + 1) + ts.take(k as int).skip(j + 1) =~= ts.take(k as int));
            crate::green::lemma_encode_utf8_add(tokens_text(ts.take(j + 1)), tokens_text(ts.take(k as int).skip(j + 1)));
        }
        let n = refs[j].text.as_str().len();
        len = len + n as u32;
        j += 1;
    }
    (start, start + len)
}

} // verus!
