use vstd::prelude::*;

verus! {
/// The kinds of the tokens and nodes of a BibTeX syntax tree.
#[allow(non_camel_case_types)]
#[derive(Debug, PartialEq, Eq, PartialOrd, Ord, Clone, Copy, Hash, Structural)]
pub enum SyntaxKind {
    WHITESPACE,
    JUNK,
    L_DELIM,
    R_DELIM,
    L_CURLY,
    R_CURLY,
    COMMA,
    POUND,
    QUOTE,
    EQ,
    TYPE,
    WORD,
    NAME,
    INTEGER,
    NBSP,
    ACCENT_NAME,
    COMMAND_NAME,
    PREAMBLE,
    STRING,
    ENTRY,
    FIELD,
    VALUE,
    LITERAL,
    JOIN,
    ACCENT,
    COMMAND,
    CURLY_GROUP,
    QUOTE_GROUP,
    ROOT,
}

impl SyntaxKind {
    /// The raw number of this kind, as a syntax tree stores it: its position in
    /// the declaration above.
    pub open spec fn raw(self) -> u16 {
        match self {
            SyntaxKind::WHITESPACE => 0,
            SyntaxKind::JUNK => 1,
            SyntaxKind::L_DELIM => 2,
            SyntaxKind::R_DELIM => 3,
            SyntaxKind::L_CURLY => 4,
            SyntaxKind::R_CURLY => 5,
            SyntaxKind::COMMA => 6,
            SyntaxKind::POUND => 7,
            SyntaxKind::QUOTE => 8,
            SyntaxKind::EQ => 9,
            SyntaxKind::TYPE => 10,
            SyntaxKind::WORD => 11,
            SyntaxKind::NAME => 12,
            SyntaxKind::INTEGER => 13,
            SyntaxKind::NBSP => 14,
            SyntaxKind::ACCENT_NAME => 15,
            SyntaxKind::COMMAND_NAME => 16,
            SyntaxKind::PREAMBLE => 17,
            SyntaxKind::STRING => 18,
            SyntaxKind::ENTRY => 19,
            SyntaxKind::FIELD => 20,
            SyntaxKind::VALUE => 21,
            SyntaxKind::LITERAL => 22,
            SyntaxKind::JOIN => 23,
            SyntaxKind::ACCENT => 24,
            SyntaxKind::COMMAND => 25,
            SyntaxKind::CURLY_GROUP => 26,
            SyntaxKind::QUOTE_GROUP => 27,
            SyntaxKind::ROOT => 28,
        }
    }

    /// The raw number of this kind.
    pub fn to_raw(self) -> (r: u16)
        ensures
            r == self.raw(),
    {
        match self {
            SyntaxKind::WHITESPACE => 0,
            SyntaxKind::JUNK => 1,
            SyntaxKind::L_DELIM => 2,
            SyntaxKind::R_DELIM => 3,
            SyntaxKind::L_CURLY => 4,
            SyntaxKind::R_CURLY => 5,
            SyntaxKind::COMMA => 6,
            SyntaxKind::POUND => 7,
            SyntaxKind::QUOTE => 8,
            SyntaxKind::EQ => 9,
            SyntaxKind::TYPE => 10,
            SyntaxKind::WORD => 11,
            SyntaxKind::NAME => 12,
            SyntaxKind::INTEGER => 13,
            SyntaxKind::NBSP => 14,
            SyntaxKind::ACCENT_NAME => 15,
            SyntaxKind::COMMAND_NAME => 16,
            SyntaxKind::PREAMBLE => 17,
            SyntaxKind::STRING => 18,
            SyntaxKind::ENTRY => 19,
            SyntaxKind::FIELD => 20,
            SyntaxKind::VALUE => 21,
            SyntaxKind::LITERAL => 22,
            SyntaxKind::JOIN => 23,
            SyntaxKind::ACCENT => 24,
            SyntaxKind::COMMAND => 25,
            SyntaxKind::CURLY_GROUP => 26,
            SyntaxKind::QUOTE_GROUP => 27,
            SyntaxKind::ROOT => 28,
        }
    }

    /// The kind whose raw number is `raw`, if there is one.
    pub fn from_raw(raw: u16) -> (r: Option<SyntaxKind>)
        ensures
            raw < 29 ==> r is Some && r->0.raw() == raw,
            raw >= 29 ==> r is None,
    {
        match raw {
            0 => Some(SyntaxKind::WHITESPACE),
            1 => Some(SyntaxKind::JUNK),
            2 => Some(SyntaxKind::L_DELIM),
            3 => Some(SyntaxKind::R_DELIM),
            4 => Some(SyntaxKind::L_CURLY),
            5 => Some(SyntaxKind::R_CURLY),
            6 => Some(SyntaxKind::COMMA),
            7 => Some(SyntaxKind::POUND),
            8 => Some(SyntaxKind::QUOTE),
            9 => Some(SyntaxKind::EQ),
            10 => Some(SyntaxKind::TYPE),
            11 => Some(SyntaxKind::WORD),
            12 => Some(SyntaxKind::NAME),
            13 => Some(SyntaxKind::INTEGER),
            14 => Some(SyntaxKind::NBSP),
            15 => Some(SyntaxKind::ACCENT_NAME),
            16 => Some(SyntaxKind::COMMAND_NAME),
            17 => Some(SyntaxKind::PREAMBLE),
            18 => Some(SyntaxKind::STRING),
            19 => Some(SyntaxKind::ENTRY),
            20 => Some(SyntaxKind::FIELD),
            21 => Some(SyntaxKind::VALUE),
            22 => Some(SyntaxKind::LITERAL),
            23 => Some(SyntaxKind::JOIN),
            24 => Some(SyntaxKind::ACCENT),
            25 => Some(SyntaxKind::COMMAND),
            26 => Some(SyntaxKind::CURLY_GROUP),
            27 => Some(SyntaxKind::QUOTE_GROUP),
            28 => Some(SyntaxKind::ROOT),
            _ => None,
        }
    }
}

/// Distinct kinds have distinct raw numbers, so a raw number names one kind.
pub proof fn lemma_raw_injective(a: SyntaxKind, b: SyntaxKind)
    ensures
        a.raw() == b.raw() <==> a == b,
        a.raw() < 29,
{
}

/// The language of BibTeX syntax trees, whose kinds are [`SyntaxKind`]. A marker type that names this set of kinds.
#[derive(Debug, PartialEq, Eq, Clone, Copy, Hash)]
pub struct BibtexLanguage;

} // verus!
