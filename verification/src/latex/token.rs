use vstd::prelude::*;

verus! {

/// A token of LaTeX source, as the lexer classifies it.
#[derive(Debug, PartialEq, Eq, PartialOrd, Ord, Clone, Copy, Hash, Structural)]
pub enum Token {
    LineBreak,
    Whitespace,
    LineComment,
    LCurly,
    RCurly,
    LBrack,
    RBrack,
    LParen,
    RParen,
    Comma,
    Eq,
    Pipe,
    Word,
    Dollar,
    CommandName(CommandName),
}

/// What a command does, as far as the parser is concerned.
#[derive(Debug, PartialEq, Eq, PartialOrd, Ord, Clone, Copy, Hash, Structural)]
pub enum CommandName {
    Generic,
    BeginEnvironment,
    EndEnvironment,
    BeginEquation,
    EndEquation,
    Section(SectionLevel),
    Paragraph(ParagraphLevel),
    EnumItem,
    Caption,
    Citation,
    PackageInclude,
    ClassInclude,
    LatexInclude,
    BiblatexInclude,
    BibtexInclude,
    GraphicsInclude,
    SvgInclude,
    InkscapeInclude,
    VerbatimInclude,
    Import,
    LabelDefinition,
    LabelReference,
    LabelReferenceRange,
    LabelNumber,
    OldCommandDefinition,
    NewCommandDefinition,
    MathOperator,
    GlossaryEntryDefinition,
    GlossaryEntryReference,
    AcronymDefinition,
    AcronymDeclaration,
    AcronymReference,
    TheoremDefinitionAmsThm,
    TheoremDefinitionThmTools,
    ColorReference,
    ColorDefinition,
    ColorSetDefinition,
    TikzLibraryImport,
    EnvironmentDefinition,
    GraphicsPath,
    BeginBlockComment,
    EndBlockComment,
    VerbatimBlock,
    BibItem,
    TocContentsLine,
    TocNumberLine,
}

/// The level of a sectioning command, from the outermost to the innermost.
#[derive(Debug, PartialEq, Eq, PartialOrd, Ord, Clone, Copy, Hash, Structural)]
pub enum SectionLevel {
    Part,
    Chapter,
    Section,
    Subsection,
    Subsubsection,
}

/// The level of a paragraph command, from the outermost to the innermost.
#[derive(Debug, PartialEq, Eq, PartialOrd, Ord, Clone, Copy, Hash, Structural)]
pub enum ParagraphLevel {
    Paragraph,
    Subparagraph,
}

impl SectionLevel {
    /// The depth of the level: `Part` is the outermost.
    pub open spec fn depth(self) -> int {
        match self {
            SectionLevel::Part => 0,
            SectionLevel::Chapter => 1,
            SectionLevel::Section => 2,
            SectionLevel::Subsection => 3,
            SectionLevel::Subsubsection => 4,
        }
    }

    /// Whether `self` is at the level of `other` or further out, in the
    /// order of the declaration.
    pub fn at_or_above(self, other: SectionLevel) -> (b: bool)
        ensures
            b == (self.depth() <= other.depth()),
    {
        let a: u8 = match self {
            SectionLevel::Part => 0,
            SectionLevel::Chapter => 1,
            SectionLevel::Section => 2,
            SectionLevel::Subsection => 3,
            SectionLevel::Subsubsection => 4,
        };
        let b: u8 = match other {
            SectionLevel::Part => 0,
            SectionLevel::Chapter => 1,
            SectionLevel::Section => 2,
            SectionLevel::Subsection => 3,
            SectionLevel::Subsubsection => 4,
        };
        a <= b
    }
}

impl ParagraphLevel {
    /// The depth of the level: `Paragraph` is the outermost.
    pub open spec fn depth(self) -> int {
        match self {
            ParagraphLevel::Paragraph => 0,
            ParagraphLevel::Subparagraph => 1,
        }
    }

    /// Whether `self` is at the level of `other` or further out.
    pub fn at_or_above(self, other: ParagraphLevel) -> (b: bool)
        ensures
            b == (self.depth() <= other.depth()),
    {
        match (self, other) {
            (ParagraphLevel::Subparagraph, ParagraphLevel::Paragraph) => false,
            _ => true,
        }
    }
}

} // verus!
