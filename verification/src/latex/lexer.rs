use vstd::prelude::*;
use vstd::std_specs::iter::IteratorSpec;

use crate::config::{string_set_contains, string_set_contents, SyntaxConfig};
use crate::text::{chars_of, is_alphanumeric, is_whitespace, char_alphanumeric, is_white_space, string_of_range};

use super::kind::SyntaxKind;
use super::token::{CommandName, ParagraphLevel, SectionLevel, Token};

verus! {

broadcast use vstd::string::axiom_spec_iter, vstd::string::next_postcondition;

/// A line break character.
pub open spec fn is_line_break_char(c: char) -> bool {
    c == '\r' || c == '\n'
}

/// A character that ends a word: a backslash, a percent sign, a brace, a comma,
/// a dollar, a bracket, a parenthesis, an equality sign or a pipe.
pub open spec fn is_special_char(c: char) -> bool {
    c == '\\' || c == '%' || c == '{' || c == '}' || c == ',' || c == '$' || c == '[' || c == ']'
        || c == '(' || c == ')' || c == '=' || c == '|'
}

/// The classes of characters that a run of one token is made of.
pub enum CharClass {
    /// `[\r\n]`
    LineBreak,
    /// `[^\S\r\n]`: white space other than a line break.
    Space,
    /// `[^\r\n]`: anything but a line break, the rest of a comment.
    NotLineBreak,
    /// `[^\s\\%\{\},\$\[\]\(\)=\|]`
    Word,
}

pub open spec fn in_class(c: char, k: CharClass) -> bool {
    match k {
        CharClass::LineBreak => is_line_break_char(c),
        CharClass::Space => is_white_space(c) && !is_line_break_char(c),
        CharClass::NotLineBreak => !is_line_break_char(c),
        CharClass::Word => !is_white_space(c) && !is_special_char(c),
    }
}

/// The end of the longest run of characters of class `k` in `s` from `i` on.
pub open spec fn run_end(s: Seq<char>, i: int, k: CharClass) -> int
    decreases s.len() - i,
{
    if 0 <= i < s.len() && in_class(s[i], k) {
        run_end(s, i + 1, k)
    } else {
        i
    }
}

/// The end of the rest of a command's name that starts with a letter, a digit
/// or `@`: letters, digits, `@` and `:`, a `_` when a letter or digit follows
/// it, and at most a final `*`.
pub open spec fn command_rest_end(s: Seq<char>, k: int) -> int
    decreases s.len() - k,
{
    if k < 0 || k >= s.len() {
        k
    } else if s[k] == '*' {
        k + 1
    } else if char_alphanumeric(s[k]) {
        command_rest_end(s, k + 1)
    } else if s[k] == '_' {
        if k + 1 < s.len() && char_alphanumeric(s[k + 1]) {
            command_rest_end(s, k + 1)
        } else {
            k
        }
    } else if s[k] == '@' || s[k] == ':' {
        command_rest_end(s, k + 1)
    } else {
        k
    }
}

/// The end of a command's name that starts at `j`, just after its backslash:
/// nothing before white space or the end, else one character, continued by
/// `command_rest_end` when it is a letter, a digit or `@`.
pub open spec fn command_name_end(s: Seq<char>, j: int) -> int {
    if j < 0 || j >= s.len() || is_white_space(s[j]) {
        j
    } else if char_alphanumeric(s[j]) || s[j] == '@' {
        command_rest_end(s, j + 1)
    } else {
        j + 1
    }
}

/// The token that starts at `i` in `s` and where it ends, by the longest match
/// of the token rules. A command is `CommandName(Generic)` until classified.
pub open spec fn token_at(s: Seq<char>, i: int) -> (Token, int) {
    let c = s[i];
    if is_line_break_char(c) {
        (Token::LineBreak, run_end(s, i + 1, CharClass::LineBreak))
    } else if is_white_space(c) {
        (Token::Whitespace, run_end(s, i + 1, CharClass::Space))
    } else if c == '%' {
        (Token::LineComment, run_end(s, i + 1, CharClass::NotLineBreak))
    } else if c == '{' {
        (Token::LCurly, i + 1)
    } else if c == '}' {
        (Token::RCurly, i + 1)
    } else if c == '[' {
        (Token::LBrack, i + 1)
    } else if c == ']' {
        (Token::RBrack, i + 1)
    } else if c == '(' {
        (Token::LParen, i + 1)
    } else if c == ')' {
        (Token::RParen, i + 1)
    } else if c == ',' {
        (Token::Comma, i + 1)
    } else if c == '=' {
        (Token::Eq, i + 1)
    } else if c == '|' {
        (Token::Pipe, i + 1)
    } else if c == '$' {
        if i + 1 < s.len() && s[i + 1] == '$' {
            (Token::Dollar, i + 2)
        } else {
            (Token::Dollar, i + 1)
        }
    } else if c == '\\' {
        (Token::CommandName(CommandName::Generic), command_name_end(s, i + 1))
    } else {
        (Token::Word, run_end(s, i + 1, CharClass::Word))
    }
}

/// The token `t` found at `s[i..e]`, with a command classified by its name.
pub open spec fn classified(t: Token, s: Seq<char>, i: int, e: int, citations: Set<Seq<char>>) -> Token {
    if t == Token::CommandName(CommandName::Generic) {
        Token::CommandName(spec_classify(s.subrange(i + 1, e), citations))
    } else {
        t
    }
}

/// The tokens of `s` from position `i` on, each with its text.
pub open spec fn lex_from(s: Seq<char>, i: int, citations: Set<Seq<char>>) -> Seq<(Token, Seq<char>)>
    decreases s.len() - i,
{
    if i < 0 || i >= s.len() {
        Seq::empty()
    } else {
        let e = token_at(s, i).1;
        if e <= i || e > s.len() {
            Seq::empty()
        } else {
            seq![(classified(token_at(s, i).0, s, i, e, citations), s.subrange(i, e))] + lex_from(
                s,
                e,
                citations,
            )
        }
    }
}

/// The tokens of a whole text.
pub open spec fn lex(s: Seq<char>, citations: Set<Seq<char>>) -> Seq<(Token, Seq<char>)> {
    lex_from(s, 0, citations)
}

/// The texts of a sequence of tokens, concatenated.
pub open spec fn concat_texts(ts: Seq<(Token, Seq<char>)>) -> Seq<char>
    decreases ts.len(),
{
    if ts.len() == 0 {
        Seq::empty()
    } else {
        ts[0].1 + concat_texts(ts.drop_first())
    }
}

pub proof fn lemma_run_end(s: Seq<char>, i: int, k: CharClass)
    requires
        0 <= i <= s.len(),
    ensures
        i <= run_end(s, i, k) <= s.len(),
    decreases s.len() - i,
{
    if i < s.len() && in_class(s[i], k) {
        lemma_run_end(s, i + 1, k);
    }
}

pub proof fn lemma_command_rest_end(s: Seq<char>, k: int)
    requires
        0 <= k <= s.len(),
    ensures
        k <= command_rest_end(s, k) <= s.len(),
    decreases s.len() - k,
{
    if k < s.len() {
        if s[k] != '*' && (char_alphanumeric(s[k]) || (s[k] == '_' && k + 1 < s.len()
            && char_alphanumeric(s[k + 1])) || s[k] == '@' || s[k] == ':') {
            lemma_command_rest_end(s, k + 1);
        }
    }
}

/// A token is never empty and never runs past the end of the text.
pub proof fn lemma_token_at(s: Seq<char>, i: int)
    requires
        0 <= i < s.len(),
    ensures
        i < token_at(s, i).1 <= s.len(),
{
    lemma_run_end(s, i + 1, CharClass::LineBreak);
    lemma_run_end(s, i + 1, CharClass::Space);
    lemma_run_end(s, i + 1, CharClass::NotLineBreak);
    lemma_run_end(s, i + 1, CharClass::Word);
    if i + 1 < s.len() {
        lemma_command_rest_end(s, i + 2);
    }
}

/// Lexing loses nothing: the texts of the tokens of `s` from `i` on, in order,
/// make up `s[i..]`, and no token is empty.
pub proof fn lemma_lex_from_lossless(s: Seq<char>, i: int, citations: Set<Seq<char>>)
    requires
        0 <= i <= s.len(),
    ensures
        concat_texts(lex_from(s, i, citations)) == s.subrange(i, s.len() as int),
        forall|j: int|
            0 <= j < lex_from(s, i, citations).len() ==> #[trigger] lex_from(s, i, citations)[j].1.len()
                > 0,
    decreases s.len() - i,
{
    if i < s.len() {
        lemma_token_at(s, i);
        let e = token_at(s, i).1;
        lemma_lex_from_lossless(s, e, citations);
        let rest = lex_from(s, e, citations);
        let ts = lex_from(s, i, citations);
        assert(ts.drop_first() =~= rest);
        assert(s.subrange(i, s.len() as int) =~= s.subrange(i, e) + s.subrange(e, s.len() as int));
        assert forall|j: int| 0 <= j < ts.len() implies #[trigger] ts[j].1.len() > 0 by {
            if j > 0 {
                assert(ts[j] == rest[j - 1]);
            }
        }
    } else {
        assert(s.subrange(i, s.len() as int) =~= Seq::<char>::empty());
    }
}

/// The lexer's central law: the texts of the tokens of a text, in order, make
/// up the text, and no token is empty.
pub proof fn lemma_lex_lossless(s: Seq<char>, citations: Set<Seq<char>>)
    ensures
        concat_texts(lex(s, citations)) == s,
        forall|j: int| 0 <= j < lex(s, citations).len() ==> #[trigger] lex(s, citations)[j].1.len() > 0,
{
    lemma_lex_from_lossless(s, 0, citations);
    assert(s.subrange(0, s.len() as int) =~= s);
}

/// What the command with name `name` (without its backslash) does, given the
/// names of the citation commands.
pub open spec fn spec_classify(name: Seq<char>, citations: Set<Seq<char>>) -> CommandName {
    if name == "begin"@ {
        CommandName::BeginEnvironment
    } else if name == "end"@ {
        CommandName::EndEnvironment
    } else if name == "["@ {
        CommandName::BeginEquation
    } else if name == "]"@ {
        CommandName::EndEquation
    } else if name == "part"@ || name == "part*"@ {
        CommandName::Section(SectionLevel::Part)
    } else if name == "chapter"@ || name == "chapter*"@ {
        CommandName::Section(SectionLevel::Chapter)
    } else if name == "section"@ || name == "section*"@ {
        CommandName::Section(SectionLevel::Section)
    } else if name == "subsection"@ || name == "subsection*"@ {
        CommandName::Section(SectionLevel::Subsection)
    } else if name == "subsubsection"@ || name == "subsubsection*"@ {
        CommandName::Section(SectionLevel::Subsubsection)
    } else if name == "paragraph"@ || name == "paragraph*"@ {
        CommandName::Paragraph(ParagraphLevel::Paragraph)
    } else if name == "subparagraph"@ || name == "subparagraph*"@ {
        CommandName::Paragraph(ParagraphLevel::Subparagraph)
    } else if name == "item"@ {
        CommandName::EnumItem
    } else if name == "caption"@ {
        CommandName::Caption
    } else if name == "usepackage"@ || name == "RequirePackage"@ {
        CommandName::PackageInclude
    } else if name == "documentclass"@ {
        CommandName::ClassInclude
    } else if name == "include"@ || name == "subfileinclude"@ || name == "input"@ || name == "subfile"@ {
        CommandName::LatexInclude
    } else if name == "addbibresource"@ {
        CommandName::BiblatexInclude
    } else if name == "bibliography"@ {
        CommandName::BibtexInclude
    } else if name == "includegraphics"@ {
        CommandName::GraphicsInclude
    } else if name == "includesvg"@ {
        CommandName::SvgInclude
    } else if name == "includeinkscape"@ {
        CommandName::InkscapeInclude
    } else if name == "verbatiminput"@ || name == "VerbatimInput"@ {
        CommandName::VerbatimInclude
    } else if name == "import"@ || name == "subimport"@ || name == "inputfrom"@ || name == "subinputfrom"@ || name == "subincludefrom"@ {
        CommandName::Import
    } else if name == "label"@ {
        CommandName::LabelDefinition
    } else if name == "ref"@ || name == "vref"@ || name == "Vref"@ || name == "autoref"@ || name == "pageref"@ || name == "cref"@ || name == "cref*"@ || name == "Cref"@ || name == "Cref*"@ || name == "namecref"@ || name == "nameCref"@ || name == "lcnamecref"@ || name == "namecrefs"@ || name == "nameCrefs"@ || name == "lcnamecrefs"@ || name == "labelcref"@ || name == "labelcpageref"@ || name == "eqref"@ {
        CommandName::LabelReference
    } else if name == "crefrange"@ || name == "crefrange*"@ || name == "Crefrange"@ || name == "Crefrange*"@ {
        CommandName::LabelReferenceRange
    } else if name == "newlabel"@ {
        CommandName::LabelNumber
    } else if name == "def"@ || name == "let"@ {
        CommandName::OldCommandDefinition
    } else if name == "newcommand"@ || name == "newcommand*"@ || name == "renewcommand"@ || name == "renewcommand*"@ || name == "DeclareRobustCommand"@ || name == "DeclareRobustCommand*"@ {
        CommandName::NewCommandDefinition
    } else if name == "DeclareMathOperator"@ || name == "DeclareMathOperator*"@ {
        CommandName::MathOperator
    } else if name == "newglossaryentry"@ {
        CommandName::GlossaryEntryDefinition
    } else if name == "gls"@ || name == "Gls"@ || name == "GLS"@ || name == "glspl"@ || name == "Glspl"@ || name == "GLSpl"@ || name == "glsdisp"@ || name == "glslink"@ || name == "glstext"@ || name == "Glstext"@ || name == "GLStext"@ || name == "glsfirst"@ || name == "Glsfirst"@ || name == "GLSfirst"@ || name == "glsplural"@ || name == "Glsplural"@ || name == "GLSplural"@ || name == "glsfirstplural"@ || name == "Glsfirstplural"@ || name == "GLSfirstplural"@ || name == "glsname"@ || name == "Glsname"@ || name == "GLSname"@ || name == "glssymbol"@ || name == "Glssymbol"@ || name == "glsdesc"@ || name == "Glsdesc"@ || name == "GLSdesc"@ || name == "glsuseri"@ || name == "Glsuseri"@ || name == "GLSuseri"@ || name == "glsuserii"@ || name == "Glsuserii"@ || name == "glsuseriii"@ || name == "glsuseriv"@ || name == "Glsuseriv"@ || name == "GLSuseriv"@ || name == "glsuserv"@ || name == "Glsuserv"@ || name == "GLSuserv"@ || name == "glsuservi"@ || name == "Glsuservi"@ || name == "GLSuservi"@ {
        CommandName::GlossaryEntryReference
    } else if name == "newacronym"@ || name == "newacro"@ || name == "acrodef"@ || name == "acro"@ || name == "newacroindefinite"@ || name == "acrodefindefinite"@ || name == "acroindefinite"@ || name == "acroplural"@ || name == "newacroplural"@ || name == "acrodefplural"@ {
        CommandName::AcronymDefinition
    } else if name == "DeclareAcronym"@ {
        CommandName::AcronymDeclaration
    } else if name == "acrshort"@ || name == "Acrshort"@ || name == "ACRshort"@ || name == "acrshortpl"@ || name == "Acrshortpl"@ || name == "ACRshortpl"@ || name == "acrlong"@ || name == "Acrlong"@ || name == "ACRlong"@ || name == "acrlongpl"@ || name == "Acrlongpl"@ || name == "ACRlongpl"@ || name == "acrfull"@ || name == "Acrfull"@ || name == "ACRfull"@ || name == "acrfullpl"@ || name == "Acrfullpl"@ || name == "ACRfullpl"@ || name == "acs"@ || name == "Acs"@ || name == "acsp"@ || name == "Acsp"@ || name == "acl"@ || name == "Acl"@ || name == "aclp"@ || name == "Aclp"@ || name == "acf"@ || name == "Acf"@ || name == "acfi"@ || name == "Acfi"@ || name == "acfp"@ || name == "Acfp"@ || name == "ac"@ || name == "Ac"@ || name == "acp"@ || name == "Acp"@ || name == "acused"@ || name == "acsu"@ || name == "Aclu"@ || name == "iac"@ || name == "Iac"@ || name == "acs*"@ || name == "Acs*"@ || name == "acsp*"@ || name == "Acsp*"@ || name == "acl*"@ || name == "Acl*"@ || name == "aclp*"@ || name == "Aclp*"@ || name == "acf*"@ || name == "Acf*"@ || name == "acfi*"@ || name == "Acfi*"@ || name == "acfp*"@ || name == "Acfp*"@ || name == "ac*"@ || name == "Ac*"@ || name == "acp*"@ || name == "Acp*"@ || name == "acused*"@ || name == "acsu*"@ || name == "Aclu*"@ || name == "iac*"@ || name == "Iac*"@ || name == "glsentrylong"@ || name == "Glsentrylong"@ || name == "glsentrylongpl"@ || name == "Glsentrylongpl"@ || name == "glsentryshort"@ || name == "Glsentryshort"@ || name == "glsentryshortpl"@ || name == "Glsentryshortpl"@ || name == "glsentryfullpl"@ || name == "Glsentryfullpl"@ {
        CommandName::AcronymReference
    } else if name == "newtheorem"@ || name == "newtheorem*"@ {
        CommandName::TheoremDefinitionAmsThm
    } else if name == "declaretheorem"@ || name == "declaretheorem*"@ {
        CommandName::TheoremDefinitionThmTools
    } else if name == "color"@ || name == "colorbox"@ || name == "textcolor"@ || name == "pagecolor"@ {
        CommandName::ColorReference
    } else if name == "definecolor"@ {
        CommandName::ColorDefinition
    } else if name == "definecolorset"@ {
        CommandName::ColorSetDefinition
    } else if name == "usepgflibrary"@ || name == "usetikzlibrary"@ {
        CommandName::TikzLibraryImport
    } else if name == "newenvironment"@ || name == "newenvironment*"@ || name == "renewenvironment"@ || name == "renewenvironment*"@ {
        CommandName::EnvironmentDefinition
    } else if name == "graphicspath"@ {
        CommandName::GraphicsPath
    } else if name == "iffalse"@ {
        CommandName::BeginBlockComment
    } else if name == "fi"@ {
        CommandName::EndBlockComment
    } else if name == "verb"@ {
        CommandName::VerbatimBlock
    } else if name == "bibitem"@ {
        CommandName::BibItem
    } else if name == "contentsline"@ {
        CommandName::TocContentsLine
    } else if name == "numberline"@ {
        CommandName::TocNumberLine
    } else if citations.contains(name) {
        CommandName::Citation
    } else {
        CommandName::Generic
    }
}

/// What the command with name `name` (without its backslash) does: its
/// class by a fixed table of names, or `Citation` for a citation command of the
/// configuration, or `Generic`.
pub fn classify(name: &str, config: &SyntaxConfig) -> (c: CommandName)
    ensures
        c == spec_classify(name@, string_set_contents(config.citation_commands)),
{
    let n = chars_of(name);
    if chars_eq_str(&n, "begin") {
        CommandName::BeginEnvironment
    } else if chars_eq_str(&n, "end") {
        CommandName::EndEnvironment
    } else if chars_eq_str(&n, "[") {
        CommandName::BeginEquation
    } else if chars_eq_str(&n, "]") {
        CommandName::EndEquation
    } else if chars_eq_str(&n, "part") || chars_eq_str(&n, "part*") {
        CommandName::Section(SectionLevel::Part)
    } else if chars_eq_str(&n, "chapter") || chars_eq_str(&n, "chapter*") {
        CommandName::Section(SectionLevel::Chapter)
    } else if chars_eq_str(&n, "section") || chars_eq_str(&n, "section*") {
        CommandName::Section(SectionLevel::Section)
    } else if chars_eq_str(&n, "subsection") || chars_eq_str(&n, "subsection*") {
        CommandName::Section(SectionLevel::Subsection)
    } else if chars_eq_str(&n, "subsubsection") || chars_eq_str(&n, "subsubsection*") {
        CommandName::Section(SectionLevel::Subsubsection)
    } else if chars_eq_str(&n, "paragraph") || chars_eq_str(&n, "paragraph*") {
        CommandName::Paragraph(ParagraphLevel::Paragraph)
    } else if chars_eq_str(&n, "subparagraph") || chars_eq_str(&n, "subparagraph*") {
        CommandName::Paragraph(ParagraphLevel::Subparagraph)
    } else if chars_eq_str(&n, "item") {
        CommandName::EnumItem
    } else if chars_eq_str(&n, "caption") {
        CommandName::Caption
    } else if chars_eq_str(&n, "usepackage") || chars_eq_str(&n, "RequirePackage") {
        CommandName::PackageInclude
    } else if chars_eq_str(&n, "documentclass") {
        CommandName::ClassInclude
    } else if chars_eq_str(&n, "include") || chars_eq_str(&n, "subfileinclude") || chars_eq_str(&n, "input") || chars_eq_str(&n, "subfile") {
        CommandName::LatexInclude
    } else if chars_eq_str(&n, "addbibresource") {
        CommandName::BiblatexInclude
    } else if chars_eq_str(&n, "bibliography") {
        CommandName::BibtexInclude
    } else if chars_eq_str(&n, "includegraphics") {
        CommandName::GraphicsInclude
    } else if chars_eq_str(&n, "includesvg") {
        CommandName::SvgInclude
    } else if chars_eq_str(&n, "includeinkscape") {
        CommandName::InkscapeInclude
    } else if chars_eq_str(&n, "verbatiminput") || chars_eq_str(&n, "VerbatimInput") {
        CommandName::VerbatimInclude
    } else if chars_eq_str(&n, "import") || chars_eq_str(&n, "subimport") || chars_eq_str(&n, "inputfrom") || chars_eq_str(&n, "subinputfrom") || chars_eq_str(&n, "subincludefrom") {
        CommandName::Import
    } else if chars_eq_str(&n, "label") {
        CommandName::LabelDefinition
    } else if chars_eq_str(&n, "ref") || chars_eq_str(&n, "vref") || chars_eq_str(&n, "Vref") || chars_eq_str(&n, "autoref") || chars_eq_str(&n, "pageref") || chars_eq_str(&n, "cref") || chars_eq_str(&n, "cref*") || chars_eq_str(&n, "Cref") || chars_eq_str(&n, "Cref*") || chars_eq_str(&n, "namecref") || chars_eq_str(&n, "nameCref") || chars_eq_str(&n, "lcnamecref") || chars_eq_str(&n, "namecrefs") || chars_eq_str(&n, "nameCrefs") || chars_eq_str(&n, "lcnamecrefs") || chars_eq_str(&n, "labelcref") || chars_eq_str(&n, "labelcpageref") || chars_eq_str(&n, "eqref") {
        CommandName::LabelReference
    } else if chars_eq_str(&n, "crefrange") || chars_eq_str(&n, "crefrange*") || chars_eq_str(&n, "Crefrange") || chars_eq_str(&n, "Crefrange*") {
        CommandName::LabelReferenceRange
    } else if chars_eq_str(&n, "newlabel") {
        CommandName::LabelNumber
    } else if chars_eq_str(&n, "def") || chars_eq_str(&n, "let") {
        CommandName::OldCommandDefinition
    } else if chars_eq_str(&n, "newcommand") || chars_eq_str(&n, "newcommand*") || chars_eq_str(&n, "renewcommand") || chars_eq_str(&n, "renewcommand*") || chars_eq_str(&n, "DeclareRobustCommand") || chars_eq_str(&n, "DeclareRobustCommand*") {
        CommandName::NewCommandDefinition
    } else if chars_eq_str(&n, "DeclareMathOperator") || chars_eq_str(&n, "DeclareMathOperator*") {
        CommandName::MathOperator
    } else if chars_eq_str(&n, "newglossaryentry") {
        CommandName::GlossaryEntryDefinition
    } else if chars_eq_str(&n, "gls") || chars_eq_str(&n, "Gls") || chars_eq_str(&n, "GLS") || chars_eq_str(&n, "glspl") || chars_eq_str(&n, "Glspl") || chars_eq_str(&n, "GLSpl") || chars_eq_str(&n, "glsdisp") || chars_eq_str(&n, "glslink") || chars_eq_str(&n, "glstext") || chars_eq_str(&n, "Glstext") || chars_eq_str(&n, "GLStext") || chars_eq_str(&n, "glsfirst") || chars_eq_str(&n, "Glsfirst") || chars_eq_str(&n, "GLSfirst") || chars_eq_str(&n, "glsplural") || chars_eq_str(&n, "Glsplural") || chars_eq_str(&n, "GLSplural") || chars_eq_str(&n, "glsfirstplural") || chars_eq_str(&n, "Glsfirstplural") || chars_eq_str(&n, "GLSfirstplural") || chars_eq_str(&n, "glsname") || chars_eq_str(&n, "Glsname") || chars_eq_str(&n, "GLSname") || chars_eq_str(&n, "glssymbol") || chars_eq_str(&n, "Glssymbol") || chars_eq_str(&n, "glsdesc") || chars_eq_str(&n, "Glsdesc") || chars_eq_str(&n, "GLSdesc") || chars_eq_str(&n, "glsuseri") || chars_eq_str(&n, "Glsuseri") || chars_eq_str(&n, "GLSuseri") || chars_eq_str(&n, "glsuserii") || chars_eq_str(&n, "Glsuserii") || chars_eq_str(&n, "glsuseriii") || chars_eq_str(&n, "glsuseriv") || chars_eq_str(&n, "Glsuseriv") || chars_eq_str(&n, "GLSuseriv") || chars_eq_str(&n, "glsuserv") || chars_eq_str(&n, "Glsuserv") || chars_eq_str(&n, "GLSuserv") || chars_eq_str(&n, "glsuservi") || chars_eq_str(&n, "Glsuservi") || chars_eq_str(&n, "GLSuservi") {
        CommandName::GlossaryEntryReference
    } else if chars_eq_str(&n, "newacronym") || chars_eq_str(&n, "newacro") || chars_eq_str(&n, "acrodef") || chars_eq_str(&n, "acro") || chars_eq_str(&n, "newacroindefinite") || chars_eq_str(&n, "acrodefindefinite") || chars_eq_str(&n, "acroindefinite") || chars_eq_str(&n, "acroplural") || chars_eq_str(&n, "newacroplural") || chars_eq_str(&n, "acrodefplural") {
        CommandName::AcronymDefinition
    } else if chars_eq_str(&n, "DeclareAcronym") {
        CommandName::AcronymDeclaration
    } else if chars_eq_str(&n, "acrshort") || chars_eq_str(&n, "Acrshort") || chars_eq_str(&n, "ACRshort") || chars_eq_str(&n, "acrshortpl") || chars_eq_str(&n, "Acrshortpl") || chars_eq_str(&n, "ACRshortpl") || chars_eq_str(&n, "acrlong") || chars_eq_str(&n, "Acrlong") || chars_eq_str(&n, "ACRlong") || chars_eq_str(&n, "acrlongpl") || chars_eq_str(&n, "Acrlongpl") || chars_eq_str(&n, "ACRlongpl") || chars_eq_str(&n, "acrfull") || chars_eq_str(&n, "Acrfull") || chars_eq_str(&n, "ACRfull") || chars_eq_str(&n, "acrfullpl") || chars_eq_str(&n, "Acrfullpl") || chars_eq_str(&n, "ACRfullpl") || chars_eq_str(&n, "acs") || chars_eq_str(&n, "Acs") || chars_eq_str(&n, "acsp") || chars_eq_str(&n, "Acsp") || chars_eq_str(&n, "acl") || chars_eq_str(&n, "Acl") || chars_eq_str(&n, "aclp") || chars_eq_str(&n, "Aclp") || chars_eq_str(&n, "acf") || chars_eq_str(&n, "Acf") || chars_eq_str(&n, "acfi") || chars_eq_str(&n, "Acfi") || chars_eq_str(&n, "acfp") || chars_eq_str(&n, "Acfp") || chars_eq_str(&n, "ac") || chars_eq_str(&n, "Ac") || chars_eq_str(&n, "acp") || chars_eq_str(&n, "Acp") || chars_eq_str(&n, "acused") || chars_eq_str(&n, "acsu") || chars_eq_str(&n, "Aclu") || chars_eq_str(&n, "iac") || chars_eq_str(&n, "Iac") || chars_eq_str(&n, "acs*") || chars_eq_str(&n, "Acs*") || chars_eq_str(&n, "acsp*") || chars_eq_str(&n, "Acsp*") || chars_eq_str(&n, "acl*") || chars_eq_str(&n, "Acl*") || chars_eq_str(&n, "aclp*") || chars_eq_str(&n, "Aclp*") || chars_eq_str(&n, "acf*") || chars_eq_str(&n, "Acf*") || chars_eq_str(&n, "acfi*") || chars_eq_str(&n, "Acfi*") || chars_eq_str(&n, "acfp*") || chars_eq_str(&n, "Acfp*") || chars_eq_str(&n, "ac*") || chars_eq_str(&n, "Ac*") || chars_eq_str(&n, "acp*") || chars_eq_str(&n, "Acp*") || chars_eq_str(&n, "acused*") || chars_eq_str(&n, "acsu*") || chars_eq_str(&n, "Aclu*") || chars_eq_str(&n, "iac*") || chars_eq_str(&n, "Iac*") || chars_eq_str(&n, "glsentrylong") || chars_eq_str(&n, "Glsentrylong") || chars_eq_str(&n, "glsentrylongpl") || chars_eq_str(&n, "Glsentrylongpl") || chars_eq_str(&n, "glsentryshort") || chars_eq_str(&n, "Glsentryshort") || chars_eq_str(&n, "glsentryshortpl") || chars_eq_str(&n, "Glsentryshortpl") || chars_eq_str(&n, "glsentryfullpl") || chars_eq_str(&n, "Glsentryfullpl") {
        CommandName::AcronymReference
    } else if chars_eq_str(&n, "newtheorem") || chars_eq_str(&n, "newtheorem*") {
        CommandName::TheoremDefinitionAmsThm
    } else if chars_eq_str(&n, "declaretheorem") || chars_eq_str(&n, "declaretheorem*") {
        CommandName::TheoremDefinitionThmTools
    } else if chars_eq_str(&n, "color") || chars_eq_str(&n, "colorbox") || chars_eq_str(&n, "textcolor") || chars_eq_str(&n, "pagecolor") {
        CommandName::ColorReference
    } else if chars_eq_str(&n, "definecolor") {
        CommandName::ColorDefinition
    } else if chars_eq_str(&n, "definecolorset") {
        CommandName::ColorSetDefinition
    } else if chars_eq_str(&n, "usepgflibrary") || chars_eq_str(&n, "usetikzlibrary") {
        CommandName::TikzLibraryImport
    } else if chars_eq_str(&n, "newenvironment") || chars_eq_str(&n, "newenvironment*") || chars_eq_str(&n, "renewenvironment") || chars_eq_str(&n, "renewenvironment*") {
        CommandName::EnvironmentDefinition
    } else if chars_eq_str(&n, "graphicspath") {
        CommandName::GraphicsPath
    } else if chars_eq_str(&n, "iffalse") {
        CommandName::BeginBlockComment
    } else if chars_eq_str(&n, "fi") {
        CommandName::EndBlockComment
    } else if chars_eq_str(&n, "verb") {
        CommandName::VerbatimBlock
    } else if chars_eq_str(&n, "bibitem") {
        CommandName::BibItem
    } else if chars_eq_str(&n, "contentsline") {
        CommandName::TocContentsLine
    } else if chars_eq_str(&n, "numberline") {
        CommandName::TocNumberLine
    } else if string_set_contains(&config.citation_commands, name) {
        CommandName::Citation
    } else {
        CommandName::Generic
    }
}

/// Whether the characters `a` are those of the string `b`.
pub fn chars_eq_str(a: &Vec<char>, b: &str) -> (r: bool)
    ensures
        r == (a@ == b@),
{
    let mut it = b.chars();
    let mut i: usize = 0;
    loop
        invariant
            i <= a.len(),
            a@.subrange(0, i as int) + it.remaining() == b@,
            it.obeys_prophetic_iter_laws(),
            it.decrease() is Some,
        decreases it.decrease()->0,
    {
        let ghost before = it.remaining();
        match it.next() {
            Some(c) => {
                assert(before =~= seq![c] + it.remaining());
                if i >= a.len() || a[i] != c {
                    proof {
                        if a@ == b@ {
                            assert(b@[i as int] == c);
                        }
                    }
                    return false;
                }
                assert(a@.subrange(0, i + 1) =~= a@.subrange(0, i as int).push(c));
                i += 1;
            },
            None => {
                if i == a.len() {
                    assert(a@ =~= b@) by {
                        assert(a@.subrange(0, i as int) =~= a@);
                    }
                    return true;
                } else {
                    assert(b@.len() == i);
                    return false;
                }
            },
        }
    }
}

fn in_class_exec(c: char, k: &CharClass) -> (b: bool)
    ensures
        b == in_class(c, *k),
{
    match k {
        CharClass::LineBreak => c == '\r' || c == '\n',
        CharClass::Space => is_whitespace(c) && !(c == '\r' || c == '\n'),
        CharClass::NotLineBreak => !(c == '\r' || c == '\n'),
        CharClass::Word => !is_whitespace(c) && !(c == '\\' || c == '%' || c == '{' || c == '}'
            || c == ',' || c == '$' || c == '[' || c == ']' || c == '(' || c == ')' || c == '='
            || c == '|'),
    }
}

fn run_end_exec(s: &Vec<char>, i: usize, k: CharClass) -> (e: usize)
    requires
        i <= s.len(),
    ensures
        e == run_end(s@, i as int, k),
{
    let mut j = i;
    while j < s.len() && in_class_exec(s[j], &k)
        invariant
            i <= j <= s.len(),
            run_end(s@, j as int, k) == run_end(s@, i as int, k),
        decreases s.len() - j,
    {
        j += 1;
    }
    j
}

fn command_rest_end_exec(s: &Vec<char>, k: usize) -> (e: usize)
    requires
        k <= s.len(),
    ensures
        e == command_rest_end(s@, k as int),
{
    let mut j = k;
    while j < s.len()
        invariant
            k <= j <= s.len(),
            command_rest_end(s@, j as int) == command_rest_end(s@, k as int),
        decreases s.len() - j,
    {
        let c = s[j];
        if c == '*' {
            return j + 1;
        } else if is_alphanumeric(c) {
            j += 1;
        } else if c == '_' {
            if j + 1 < s.len() && is_alphanumeric(s[j + 1]) {
                j += 1;
            } else {
                return j;
            }
        } else if c == '@' || c == ':' {
            j += 1;
        } else {
            return j;
        }
    }
    j
}

fn command_name_end_exec(s: &Vec<char>, j: usize) -> (e: usize)
    requires
        j <= s.len(),
    ensures
        e == command_name_end(s@, j as int),
{
    if j >= s.len() || is_whitespace(s[j]) {
        j
    } else if is_alphanumeric(s[j]) || s[j] == '@' {
        command_rest_end_exec(s, j + 1)
    } else {
        j + 1
    }
}

/// The name of a command whose backslash comes just before `rest`: nothing
/// when `rest` is empty or starts with white space; else its first
/// character, followed, when that is a letter, a digit or `@`, by the
/// letters, digits, `@`, `:` and inner `_` after it and at most one `*`.
pub fn lex_command_name(rest: &str) -> (name: String)
    ensures
        name@ == rest@.take(command_name_end(rest@, 0)),
{
    let s = crate::text::chars_of(rest);
    let e = command_name_end_exec(&s, 0);
    proof {
        if s@.len() > 0 {
            lemma_command_rest_end(s@, 1);
        }
    }
    let name = crate::text::string_of_range(&s, 0, e);
    assert(s@.subrange(0, e as int) =~= s@.take(e as int));
    name
}

/// The token that starts at `i` and where it ends.
fn token_at_exec(s: &Vec<char>, i: usize) -> (r: (Token, usize))
    requires
        i < s.len(),
    ensures
        r.0 == token_at(s@, i as int).0,
        r.1 == token_at(s@, i as int).1,
{
    let c = s[i];
    if c == '\r' || c == '\n' {
        (Token::LineBreak, run_end_exec(s, i + 1, CharClass::LineBreak))
    } else if is_whitespace(c) {
        (Token::Whitespace, run_end_exec(s, i + 1, CharClass::Space))
    } else if c == '%' {
        (Token::LineComment, run_end_exec(s, i + 1, CharClass::NotLineBreak))
    } else if c == '{' {
        (Token::LCurly, i + 1)
    } else if c == '}' {
        (Token::RCurly, i + 1)
    } else if c == '[' {
        (Token::LBrack, i + 1)
    } else if c == ']' {
        (Token::RBrack, i + 1)
    } else if c == '(' {
        (Token::LParen, i + 1)
    } else if c == ')' {
        (Token::RParen, i + 1)
    } else if c == ',' {
        (Token::Comma, i + 1)
    } else if c == '=' {
        (Token::Eq, i + 1)
    } else if c == '|' {
        (Token::Pipe, i + 1)
    } else if c == '$' {
        if i + 1 < s.len() && s[i + 1] == '$' {
            (Token::Dollar, i + 2)
        } else {
            (Token::Dollar, i + 1)
        }
    } else if c == '\\' {
        (Token::CommandName(CommandName::Generic), command_name_end_exec(s, i + 1))
    } else {
        (Token::Word, run_end_exec(s, i + 1, CharClass::Word))
    }
}

/// The view of a sequence of tokens that hold their texts as strings.
pub open spec fn tokens_view(v: Seq<(Token, String)>) -> Seq<(Token, Seq<char>)> {
    Seq::new(v.len(), |i: int| (v[i].0, v[i].1@))
}

/// The tokens of `input`, in order, commands classified with `config`.
pub fn tokenize(input: &str, config: &SyntaxConfig) -> (v: Vec<(Token, String)>)
    ensures
        tokens_view(v@) == lex(input@, string_set_contents(config.citation_commands)),
{
    let ghost cites = string_set_contents(config.citation_commands);
    let s = chars_of(input);
    let mut v: Vec<(Token, String)> = Vec::new();
    let mut i: usize = 0;
    while i < s.len()
        invariant
            i <= s.len(),
            s@ == input@,
            cites == string_set_contents(config.citation_commands),
            tokens_view(v@) + lex_from(s@, i as int, cites) == lex(s@, cites),
        decreases s.len() - i,
    {
        proof {
            lemma_token_at(s@, i as int);
        }
        let (t, e) = token_at_exec(&s, i);
        let text = string_of_range(&s, i, e);
        let kind = if t == Token::CommandName(CommandName::Generic) {
            let name = string_of_range(&s, i + 1, e);
            Token::CommandName(classify(name.as_str(), config))
        } else {
            t
        };
        let ghost old_v = v@;
        v.push((kind, text));
        assert(tokens_view(v@) =~= tokens_view(old_v).push((kind, s@.subrange(i as int, e as int))));
        assert(lex_from(s@, i as int, cites) =~= seq![(kind, s@.subrange(i as int, e as int))]
            + lex_from(s@, e as int, cites));
        assert(tokens_view(v@) + lex_from(s@, e as int, cites) =~= tokens_view(old_v) + lex_from(
            s@,
            i as int,
            cites,
        ));
        i = e;
    }
    assert(tokens_view(v@) + lex_from(s@, i as int, cites) =~= tokens_view(v@));
    v
}

/// The kind of the syntax tree token that a lexer token becomes.
pub open spec fn token_syntax_kind(t: Token) -> SyntaxKind {
    match t {
        Token::LineBreak => SyntaxKind::LINE_BREAK,
        Token::Whitespace => SyntaxKind::WHITESPACE,
        Token::LineComment => SyntaxKind::COMMENT,
        Token::LCurly => SyntaxKind::L_CURLY,
        Token::RCurly => SyntaxKind::R_CURLY,
        Token::LBrack => SyntaxKind::L_BRACK,
        Token::RBrack => SyntaxKind::R_BRACK,
        Token::LParen => SyntaxKind::L_PAREN,
        Token::RParen => SyntaxKind::R_PAREN,
        Token::Comma => SyntaxKind::COMMA,
        Token::Eq => SyntaxKind::EQUALITY_SIGN,
        Token::Word => SyntaxKind::WORD,
        Token::Pipe => SyntaxKind::WORD,
        Token::Dollar => SyntaxKind::DOLLAR,
        Token::CommandName(_) => SyntaxKind::COMMAND_NAME,
    }
}

/// The tokens of a text that have not been taken yet. They are held last
/// first, so that taking the next one is a pop.
#[derive(Debug, PartialEq, Eq, Clone)]
pub struct Lexer {
    tokens: Vec<(Token, String)>,
}

impl Lexer {
    /// The tokens that are left, next first, each with its text.
    pub closed spec fn view(&self) -> Seq<(Token, Seq<char>)> {
        let n = self.tokens@.len();
        Seq::new(n, |i: int| (self.tokens@[n - 1 - i].0, self.tokens@[n - 1 - i].1@))
    }

    /// A lexer over the tokens of `input`.
    pub fn new(input: &str, config: &SyntaxConfig) -> (lexer: Self)
        ensures
            lexer@ == lex(input@, string_set_contents(config.citation_commands)),
    {
        let mut tokens = tokenize(input, config);
        let ghost all = tokens_view(tokens@);
        let mut reversed: Vec<(Token, String)> = Vec::new();
        while tokens.len() > 0
            invariant
                all.len() == tokens@.len() + reversed@.len(),
                forall|i: int| 0 <= i < tokens@.len() ==> (#[trigger] tokens@[i]).0 == all[i].0 && tokens@[i].1@ == all[i].1,
                forall|i: int| 0 <= i < reversed@.len() ==> (#[trigger] reversed@[i]).0 == all[all.len() - 1 - i].0
                    && reversed@[i].1@ == all[all.len() - 1 - i].1,
            decreases tokens.len(),
        {
            let t = tokens.pop().unwrap();
            reversed.push(t);
        }
        let lexer = Lexer { tokens: reversed };
        assert(lexer@ =~= all);
        lexer
    }

    /// The next token, if any is left.
    pub fn peek(&self) -> (r: Option<Token>)
        ensures
            self@.len() == 0 ==> r is None,
            self@.len() > 0 ==> r == Some(self@[0].0),
    {
        if self.tokens.len() == 0 {
            None
        } else {
            Some(self.tokens[self.tokens.len() - 1].0)
        }
    }

    /// Takes the next token, if any is left, and gives it as the kind and text
    /// of a syntax tree token.
    pub fn eat(&mut self) -> (r: Option<(SyntaxKind, String)>)
        ensures
            old(self)@.len() == 0 ==> r is None && final(self)@ == old(self)@,
            old(self)@.len() > 0 ==> (r matches Some((kind, text)) && kind == token_syntax_kind(
                old(self)@[0].0,
            ) && text@ == old(self)@[0].1 && final(self)@ == old(self)@.drop_first()),
    {
        if self.tokens.len() == 0 {
            return None;
        }
        let ghost before = self@;
        let (kind, text) = self.tokens.pop().unwrap();
        assert(self@ =~= before.drop_first());
        let kind = match kind {
            Token::LineBreak => SyntaxKind::LINE_BREAK,
            Token::Whitespace => SyntaxKind::WHITESPACE,
            Token::LineComment => SyntaxKind::COMMENT,
            Token::LCurly => SyntaxKind::L_CURLY,
            Token::RCurly => SyntaxKind::R_CURLY,
            Token::LBrack => SyntaxKind::L_BRACK,
            Token::RBrack => SyntaxKind::R_BRACK,
            Token::LParen => SyntaxKind::L_PAREN,
            Token::RParen => SyntaxKind::R_PAREN,
            Token::Comma => SyntaxKind::COMMA,
            Token::Eq => SyntaxKind::EQUALITY_SIGN,
            Token::Word => SyntaxKind::WORD,
            Token::Pipe => SyntaxKind::WORD,
            Token::Dollar => SyntaxKind::DOLLAR,
            Token::CommandName(_) => SyntaxKind::COMMAND_NAME,
        };
        Some((kind, text))
    }
}


/// Whether every character of `t` is in class `k`.
pub open spec fn all_in_class(t: Seq<char>, k: CharClass) -> bool {
    forall|j: int| 0 <= j < t.len() ==> in_class(#[trigger] t[j], k)
}

/// Whether a token of kind `kind` may have the text `t`: a delimiter, comma,
/// `=` or `|` is that one character; a dollar is `$` or `$$`; line breaks,
/// white space and words are runs of their characters; a comment starts with
/// `%` and holds no line break; a command starts with a backslash and has the
/// class of the name after it.
pub open spec fn token_fits(kind: Token, t: Seq<char>, citations: Set<Seq<char>>) -> bool {
    &&& t.len() > 0
    &&& match kind {
        Token::LCurly => t == seq!['{'],
        Token::RCurly => t == seq!['}'],
        Token::LBrack => t == seq!['\x5b'],
        Token::RBrack => t == seq!['\x5d'],
        Token::LParen => t == seq!['('],
        Token::RParen => t == seq![')'],
        Token::Comma => t == seq![','],
        Token::Eq => t == seq!['='],
        Token::Pipe => t == seq!['|'],
        Token::Dollar => t == seq!['$'] || t == seq!['$', '$'],
        Token::LineBreak => all_in_class(t, CharClass::LineBreak),
        Token::Whitespace => all_in_class(t, CharClass::Space),
        Token::LineComment => t[0] == '%' && all_in_class(t, CharClass::NotLineBreak),
        Token::Word => all_in_class(t, CharClass::Word),
        Token::CommandName(name) => t[0] == '\\' && name == spec_classify(t.drop_first(), citations),
    }
}

/// The characters of a run of class `k` are all of that class.
proof fn lemma_run_chars(s: Seq<char>, i: int, k: CharClass)
    requires
        0 <= i <= s.len(),
    ensures
        forall|j: int| i <= j < run_end(s, i, k) ==> in_class(#[trigger] s[j], k),
    decreases s.len() - i,
{
    if i < s.len() && in_class(s[i], k) {
        lemma_run_chars(s, i + 1, k);
    }
}

/// The token that the lexer finds at `i` fits its text.
proof fn lemma_token_fits(s: Seq<char>, i: int, citations: Set<Seq<char>>)
    requires
        0 <= i < s.len(),
    ensures
        token_fits(
            classified(token_at(s, i).0, s, i, token_at(s, i).1, citations),
            s.subrange(i, token_at(s, i).1),
            citations,
        ),
{
    lemma_token_at(s, i);
    let e = token_at(s, i).1;
    let t = s.subrange(i, e);
    let c = s[i];
    lemma_run_chars(s, i + 1, CharClass::LineBreak);
    lemma_run_chars(s, i + 1, CharClass::Space);
    lemma_run_chars(s, i + 1, CharClass::NotLineBreak);
    lemma_run_chars(s, i + 1, CharClass::Word);
    assert forall|j: int| 0 <= j < t.len() implies #[trigger] t[j] == s[i + j] by {}
    if e == i + 1 {
        assert(t =~= seq![c]);
    } else if c == '$' {
        assert(t =~= seq!['$', '$']);
    }
    if c == '\\' {
        assert(t.drop_first() =~= s.subrange(i + 1, e));
    }
}

/// The lexer's tokens fit their texts: every token of a text has the kind
/// that its characters make, and a command has the class of its name.
pub proof fn law_lex_tokens(s: Seq<char>, citations: Set<Seq<char>>)
    ensures
        forall|j: int|
            0 <= j < lex(s, citations).len() ==> token_fits(
                #[trigger] lex(s, citations)[j].0,
                lex(s, citations)[j].1,
                citations,
            ),
{
    lemma_lex_from_fits(s, 0, citations);
}

proof fn lemma_lex_from_fits(s: Seq<char>, i: int, citations: Set<Seq<char>>)
    requires
        0 <= i,
    ensures
        forall|j: int|
            0 <= j < lex_from(s, i, citations).len() ==> token_fits(
                #[trigger] lex_from(s, i, citations)[j].0,
                lex_from(s, i, citations)[j].1,
                citations,
            ),
    decreases s.len() - i,
{
    if i < s.len() {
        lemma_token_at(s, i);
        let e = token_at(s, i).1;
        lemma_lex_from_fits(s, e, citations);
        lemma_token_fits(s, i, citations);
        let ts = lex_from(s, i, citations);
        let rest = lex_from(s, e, citations);
        assert forall|j: int| 0 <= j < ts.len() implies token_fits(#[trigger] ts[j].0, ts[j].1, citations) by {
            if j > 0 {
                assert(ts[j] == rest[j - 1]);
            }
        }
    }
}

} // verus!
