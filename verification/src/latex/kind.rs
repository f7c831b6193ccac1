use vstd::prelude::*;

verus! {
/// The kinds of the tokens and nodes of a LaTeX syntax tree.
#[allow(non_camel_case_types)]
#[derive(Debug, PartialEq, Eq, PartialOrd, Ord, Clone, Copy, Hash, Structural)]
pub enum SyntaxKind {
    LINE_BREAK,
    WHITESPACE,
    COMMENT,
    VERBATIM,
    L_CURLY,
    R_CURLY,
    L_BRACK,
    R_BRACK,
    L_PAREN,
    R_PAREN,
    COMMA,
    EQUALITY_SIGN,
    WORD,
    DOLLAR,
    COMMAND_NAME,
    PREAMBLE,
    TEXT,
    KEY,
    VALUE,
    KEY_VALUE_PAIR,
    KEY_VALUE_BODY,
    CURLY_GROUP,
    CURLY_GROUP_WORD,
    CURLY_GROUP_WORD_LIST,
    CURLY_GROUP_COMMAND,
    CURLY_GROUP_KEY_VALUE,
    BRACK_GROUP,
    BRACK_GROUP_WORD,
    BRACK_GROUP_KEY_VALUE,
    PAREN_GROUP,
    MIXED_GROUP,
    GENERIC_COMMAND,
    ENVIRONMENT,
    BEGIN,
    END,
    EQUATION,
    PART,
    CHAPTER,
    SECTION,
    SUBSECTION,
    SUBSUBSECTION,
    PARAGRAPH,
    SUBPARAGRAPH,
    ENUM_ITEM,
    FORMULA,
    CAPTION,
    CITATION,
    PACKAGE_INCLUDE,
    CLASS_INCLUDE,
    LATEX_INCLUDE,
    BIBLATEX_INCLUDE,
    BIBTEX_INCLUDE,
    GRAPHICS_INCLUDE,
    SVG_INCLUDE,
    INKSCAPE_INCLUDE,
    VERBATIM_INCLUDE,
    IMPORT,
    LABEL_DEFINITION,
    LABEL_REFERENCE,
    LABEL_REFERENCE_RANGE,
    LABEL_NUMBER,
    OLD_COMMAND_DEFINITION,
    COMMAND_DEFINITION,
    MATH_OPERATOR,
    GLOSSARY_ENTRY_DEFINITION,
    GLOSSARY_ENTRY_REFERENCE,
    ACRONYM_DEFINITION,
    ACRONYM_DECLARATION,
    ACRONYM_REFERENCE,
    THEOREM_DEFINITION_AMSTHM,
    THEOREM_DEFINITION_THMTOOLS,
    COLOR_REFERENCE,
    COLOR_DEFINITION,
    COLOR_SET_DEFINITION,
    TIKZ_LIBRARY_IMPORT,
    ENVIRONMENT_DEFINITION,
    GRAPHICS_PATH,
    BLOCK_COMMENT,
    BIBITEM,
    TOC_CONTENTS_LINE,
    TOC_NUMBER_LINE,
    ERROR,
    ROOT,
}

impl SyntaxKind {
    /// The raw number of this kind, as a syntax tree stores it: its position in
    /// the declaration above.
    pub open spec fn raw(self) -> u16 {
        match self {
            SyntaxKind::LINE_BREAK => 0,
            SyntaxKind::WHITESPACE => 1,
            SyntaxKind::COMMENT => 2,
            SyntaxKind::VERBATIM => 3,
            SyntaxKind::L_CURLY => 4,
            SyntaxKind::R_CURLY => 5,
            SyntaxKind::L_BRACK => 6,
            SyntaxKind::R_BRACK => 7,
            SyntaxKind::L_PAREN => 8,
            SyntaxKind::R_PAREN => 9,
            SyntaxKind::COMMA => 10,
            SyntaxKind::EQUALITY_SIGN => 11,
            SyntaxKind::WORD => 12,
            SyntaxKind::DOLLAR => 13,
            SyntaxKind::COMMAND_NAME => 14,
            SyntaxKind::PREAMBLE => 15,
            SyntaxKind::TEXT => 16,
            SyntaxKind::KEY => 17,
            SyntaxKind::VALUE => 18,
            SyntaxKind::KEY_VALUE_PAIR => 19,
            SyntaxKind::KEY_VALUE_BODY => 20,
            SyntaxKind::CURLY_GROUP => 21,
            SyntaxKind::CURLY_GROUP_WORD => 22,
            SyntaxKind::CURLY_GROUP_WORD_LIST => 23,
            SyntaxKind::CURLY_GROUP_COMMAND => 24,
            SyntaxKind::CURLY_GROUP_KEY_VALUE => 25,
            SyntaxKind::BRACK_GROUP => 26,
            SyntaxKind::BRACK_GROUP_WORD => 27,
            SyntaxKind::BRACK_GROUP_KEY_VALUE => 28,
            SyntaxKind::PAREN_GROUP => 29,
            SyntaxKind::MIXED_GROUP => 30,
            SyntaxKind::GENERIC_COMMAND => 31,
            SyntaxKind::ENVIRONMENT => 32,
            SyntaxKind::BEGIN => 33,
            SyntaxKind::END => 34,
            SyntaxKind::EQUATION => 35,
            SyntaxKind::PART => 36,
            SyntaxKind::CHAPTER => 37,
            SyntaxKind::SECTION => 38,
            SyntaxKind::SUBSECTION => 39,
            SyntaxKind::SUBSUBSECTION => 40,
            SyntaxKind::PARAGRAPH => 41,
            SyntaxKind::SUBPARAGRAPH => 42,
            SyntaxKind::ENUM_ITEM => 43,
            SyntaxKind::FORMULA => 44,
            SyntaxKind::CAPTION => 45,
            SyntaxKind::CITATION => 46,
            SyntaxKind::PACKAGE_INCLUDE => 47,
            SyntaxKind::CLASS_INCLUDE => 48,
            SyntaxKind::LATEX_INCLUDE => 49,
            SyntaxKind::BIBLATEX_INCLUDE => 50,
            SyntaxKind::BIBTEX_INCLUDE => 51,
            SyntaxKind::GRAPHICS_INCLUDE => 52,
            SyntaxKind::SVG_INCLUDE => 53,
            SyntaxKind::INKSCAPE_INCLUDE => 54,
            SyntaxKind::VERBATIM_INCLUDE => 55,
            SyntaxKind::IMPORT => 56,
            SyntaxKind::LABEL_DEFINITION => 57,
            SyntaxKind::LABEL_REFERENCE => 58,
            SyntaxKind::LABEL_REFERENCE_RANGE => 59,
            SyntaxKind::LABEL_NUMBER => 60,
            SyntaxKind::OLD_COMMAND_DEFINITION => 61,
            SyntaxKind::COMMAND_DEFINITION => 62,
            SyntaxKind::MATH_OPERATOR => 63,
            SyntaxKind::GLOSSARY_ENTRY_DEFINITION => 64,
            SyntaxKind::GLOSSARY_ENTRY_REFERENCE => 65,
            SyntaxKind::ACRONYM_DEFINITION => 66,
            SyntaxKind::ACRONYM_DECLARATION => 67,
            SyntaxKind::ACRONYM_REFERENCE => 68,
            SyntaxKind::THEOREM_DEFINITION_AMSTHM => 69,
            SyntaxKind::THEOREM_DEFINITION_THMTOOLS => 70,
            SyntaxKind::COLOR_REFERENCE => 71,
            SyntaxKind::COLOR_DEFINITION => 72,
            SyntaxKind::COLOR_SET_DEFINITION => 73,
            SyntaxKind::TIKZ_LIBRARY_IMPORT => 74,
            SyntaxKind::ENVIRONMENT_DEFINITION => 75,
            SyntaxKind::GRAPHICS_PATH => 76,
            SyntaxKind::BLOCK_COMMENT => 77,
            SyntaxKind::BIBITEM => 78,
            SyntaxKind::TOC_CONTENTS_LINE => 79,
            SyntaxKind::TOC_NUMBER_LINE => 80,
            SyntaxKind::ERROR => 81,
            SyntaxKind::ROOT => 82,
        }
    }

    /// The raw number of this kind.
    pub fn to_raw(self) -> (r: u16)
        ensures
            r == self.raw(),
    {
        match self {
            SyntaxKind::LINE_BREAK => 0,
            SyntaxKind::WHITESPACE => 1,
            SyntaxKind::COMMENT => 2,
            SyntaxKind::VERBATIM => 3,
            SyntaxKind::L_CURLY => 4,
            SyntaxKind::R_CURLY => 5,
            SyntaxKind::L_BRACK => 6,
            SyntaxKind::R_BRACK => 7,
            SyntaxKind::L_PAREN => 8,
            SyntaxKind::R_PAREN => 9,
            SyntaxKind::COMMA => 10,
            SyntaxKind::EQUALITY_SIGN => 11,
            SyntaxKind::WORD => 12,
            SyntaxKind::DOLLAR => 13,
            SyntaxKind::COMMAND_NAME => 14,
            SyntaxKind::PREAMBLE => 15,
            SyntaxKind::TEXT => 16,
            SyntaxKind::KEY => 17,
            SyntaxKind::VALUE => 18,
            SyntaxKind::KEY_VALUE_PAIR => 19,
            SyntaxKind::KEY_VALUE_BODY => 20,
            SyntaxKind::CURLY_GROUP => 21,
            SyntaxKind::CURLY_GROUP_WORD => 22,
            SyntaxKind::CURLY_GROUP_WORD_LIST => 23,
            SyntaxKind::CURLY_GROUP_COMMAND => 24,
            SyntaxKind::CURLY_GROUP_KEY_VALUE => 25,
            SyntaxKind::BRACK_GROUP => 26,
            SyntaxKind::BRACK_GROUP_WORD => 27,
            SyntaxKind::BRACK_GROUP_KEY_VALUE => 28,
            SyntaxKind::PAREN_GROUP => 29,
            SyntaxKind::MIXED_GROUP => 30,
            SyntaxKind::GENERIC_COMMAND => 31,
            SyntaxKind::ENVIRONMENT => 32,
            SyntaxKind::BEGIN => 33,
            SyntaxKind::END => 34,
            SyntaxKind::EQUATION => 35,
            SyntaxKind::PART => 36,
            SyntaxKind::CHAPTER => 37,
            SyntaxKind::SECTION => 38,
            SyntaxKind::SUBSECTION => 39,
            SyntaxKind::SUBSUBSECTION => 40,
            SyntaxKind::PARAGRAPH => 41,
            SyntaxKind::SUBPARAGRAPH => 42,
            SyntaxKind::ENUM_ITEM => 43,
            SyntaxKind::FORMULA => 44,
            SyntaxKind::CAPTION => 45,
            SyntaxKind::CITATION => 46,
            SyntaxKind::PACKAGE_INCLUDE => 47,
            SyntaxKind::CLASS_INCLUDE => 48,
            SyntaxKind::LATEX_INCLUDE => 49,
            SyntaxKind::BIBLATEX_INCLUDE => 50,
            SyntaxKind::BIBTEX_INCLUDE => 51,
            SyntaxKind::GRAPHICS_INCLUDE => 52,
            SyntaxKind::SVG_INCLUDE => 53,
            SyntaxKind::INKSCAPE_INCLUDE => 54,
            SyntaxKind::VERBATIM_INCLUDE => 55,
            SyntaxKind::IMPORT => 56,
            SyntaxKind::LABEL_DEFINITION => 57,
            SyntaxKind::LABEL_REFERENCE => 58,
            SyntaxKind::LABEL_REFERENCE_RANGE => 59,
            SyntaxKind::LABEL_NUMBER => 60,
            SyntaxKind::OLD_COMMAND_DEFINITION => 61,
            SyntaxKind::COMMAND_DEFINITION => 62,
            SyntaxKind::MATH_OPERATOR => 63,
            SyntaxKind::GLOSSARY_ENTRY_DEFINITION => 64,
            SyntaxKind::GLOSSARY_ENTRY_REFERENCE => 65,
            SyntaxKind::ACRONYM_DEFINITION => 66,
            SyntaxKind::ACRONYM_DECLARATION => 67,
            SyntaxKind::ACRONYM_REFERENCE => 68,
            SyntaxKind::THEOREM_DEFINITION_AMSTHM => 69,
            SyntaxKind::THEOREM_DEFINITION_THMTOOLS => 70,
            SyntaxKind::COLOR_REFERENCE => 71,
            SyntaxKind::COLOR_DEFINITION => 72,
            SyntaxKind::COLOR_SET_DEFINITION => 73,
            SyntaxKind::TIKZ_LIBRARY_IMPORT => 74,
            SyntaxKind::ENVIRONMENT_DEFINITION => 75,
            SyntaxKind::GRAPHICS_PATH => 76,
            SyntaxKind::BLOCK_COMMENT => 77,
            SyntaxKind::BIBITEM => 78,
            SyntaxKind::TOC_CONTENTS_LINE => 79,
            SyntaxKind::TOC_NUMBER_LINE => 80,
            SyntaxKind::ERROR => 81,
            SyntaxKind::ROOT => 82,
        }
    }

    /// The kind whose raw number is `raw`, if there is one.
    pub fn from_raw(raw: u16) -> (r: Option<SyntaxKind>)
        ensures
            raw < 83 ==> r is Some && r->0.raw() == raw,
            raw >= 83 ==> r is None,
    {
        match raw {
            0 => Some(SyntaxKind::LINE_BREAK),
            1 => Some(SyntaxKind::WHITESPACE),
            2 => Some(SyntaxKind::COMMENT),
            3 => Some(SyntaxKind::VERBATIM),
            4 => Some(SyntaxKind::L_CURLY),
            5 => Some(SyntaxKind::R_CURLY),
            6 => Some(SyntaxKind::L_BRACK),
            7 => Some(SyntaxKind::R_BRACK),
            8 => Some(SyntaxKind::L_PAREN),
            9 => Some(SyntaxKind::R_PAREN),
            10 => Some(SyntaxKind::COMMA),
            11 => Some(SyntaxKind::EQUALITY_SIGN),
            12 => Some(SyntaxKind::WORD),
            13 => Some(SyntaxKind::DOLLAR),
            14 => Some(SyntaxKind::COMMAND_NAME),
            15 => Some(SyntaxKind::PREAMBLE),
            16 => Some(SyntaxKind::TEXT),
            17 => Some(SyntaxKind::KEY),
            18 => Some(SyntaxKind::VALUE),
            19 => Some(SyntaxKind::KEY_VALUE_PAIR),
            20 => Some(SyntaxKind::KEY_VALUE_BODY),
            21 => Some(SyntaxKind::CURLY_GROUP),
            22 => Some(SyntaxKind::CURLY_GROUP_WORD),
            23 => Some(SyntaxKind::CURLY_GROUP_WORD_LIST),
            24 => Some(SyntaxKind::CURLY_GROUP_COMMAND),
            25 => Some(SyntaxKind::CURLY_GROUP_KEY_VALUE),
            26 => Some(SyntaxKind::BRACK_GROUP),
            27 => Some(SyntaxKind::BRACK_GROUP_WORD),
            28 => Some(SyntaxKind::BRACK_GROUP_KEY_VALUE),
            29 => Some(SyntaxKind::PAREN_GROUP),
            30 => Some(SyntaxKind::MIXED_GROUP),
            31 => Some(SyntaxKind::GENERIC_COMMAND),
            32 => Some(SyntaxKind::ENVIRONMENT),
            33 => Some(SyntaxKind::BEGIN),
            34 => Some(SyntaxKind::END),
            35 => Some(SyntaxKind::EQUATION),
            36 => Some(SyntaxKind::PART),
            37 => Some(SyntaxKind::CHAPTER),
            38 => Some(SyntaxKind::SECTION),
            39 => Some(SyntaxKind::SUBSECTION),
            40 => Some(SyntaxKind::SUBSUBSECTION),
            41 => Some(SyntaxKind::PARAGRAPH),
            42 => Some(SyntaxKind::SUBPARAGRAPH),
            43 => Some(SyntaxKind::ENUM_ITEM),
            44 => Some(SyntaxKind::FORMULA),
            45 => Some(SyntaxKind::CAPTION),
            46 => Some(SyntaxKind::CITATION),
            47 => Some(SyntaxKind::PACKAGE_INCLUDE),
            48 => Some(SyntaxKind::CLASS_INCLUDE),
            49 => Some(SyntaxKind::LATEX_INCLUDE),
            50 => Some(SyntaxKind::BIBLATEX_INCLUDE),
            51 => Some(SyntaxKind::BIBTEX_INCLUDE),
            52 => Some(SyntaxKind::GRAPHICS_INCLUDE),
            53 => Some(SyntaxKind::SVG_INCLUDE),
            54 => Some(SyntaxKind::INKSCAPE_INCLUDE),
            55 => Some(SyntaxKind::VERBATIM_INCLUDE),
            56 => Some(SyntaxKind::IMPORT),
            57 => Some(SyntaxKind::LABEL_DEFINITION),
            58 => Some(SyntaxKind::LABEL_REFERENCE),
            59 => Some(SyntaxKind::LABEL_REFERENCE_RANGE),
            60 => Some(SyntaxKind::LABEL_NUMBER),
            61 => Some(SyntaxKind::OLD_COMMAND_DEFINITION),
            62 => Some(SyntaxKind::COMMAND_DEFINITION),
            63 => Some(SyntaxKind::MATH_OPERATOR),
            64 => Some(SyntaxKind::GLOSSARY_ENTRY_DEFINITION),
            65 => Some(SyntaxKind::GLOSSARY_ENTRY_REFERENCE),
            66 => Some(SyntaxKind::ACRONYM_DEFINITION),
            67 => Some(SyntaxKind::ACRONYM_DECLARATION),
            68 => Some(SyntaxKind::ACRONYM_REFERENCE),
            69 => Some(SyntaxKind::THEOREM_DEFINITION_AMSTHM),
            70 => Some(SyntaxKind::THEOREM_DEFINITION_THMTOOLS),
            71 => Some(SyntaxKind::COLOR_REFERENCE),
            72 => Some(SyntaxKind::COLOR_DEFINITION),
            73 => Some(SyntaxKind::COLOR_SET_DEFINITION),
            74 => Some(SyntaxKind::TIKZ_LIBRARY_IMPORT),
            75 => Some(SyntaxKind::ENVIRONMENT_DEFINITION),
            76 => Some(SyntaxKind::GRAPHICS_PATH),
            77 => Some(SyntaxKind::BLOCK_COMMENT),
            78 => Some(SyntaxKind::BIBITEM),
            79 => Some(SyntaxKind::TOC_CONTENTS_LINE),
            80 => Some(SyntaxKind::TOC_NUMBER_LINE),
            81 => Some(SyntaxKind::ERROR),
            82 => Some(SyntaxKind::ROOT),
            _ => None,
        }
    }
}

/// Distinct kinds have distinct raw numbers, so a raw number names one kind.
pub proof fn lemma_raw_injective(a: SyntaxKind, b: SyntaxKind)
    ensures
        a.raw() == b.raw() <==> a == b,
        a.raw() < 83,
{
}

/// The language of LaTeX syntax trees, whose kinds are [`SyntaxKind`]. A marker type that names this set of kinds.
#[derive(Debug, PartialEq, Eq, Clone, Copy, Hash)]
pub struct LatexLanguage;

} // verus!
