use vstd::prelude::*;

use super::lexer::spec_classify;
use super::token::{CommandName, ParagraphLevel, SectionLevel};

verus! {

/// The names, without their backslash, of the commands of class `c`: the
/// lexer's table of LaTeX commands. No name is listed under two classes, and
/// citation and generic commands are not listed: which commands cite depends
/// on the configuration.
pub open spec fn command_names(c: CommandName) -> Set<Seq<char>> {
    match c {
        CommandName::BeginEnvironment => set!["begin"@],
        CommandName::EndEnvironment => set!["end"@],
        CommandName::BeginEquation => set!["["@],
        CommandName::EndEquation => set!["]"@],
        CommandName::Section(SectionLevel::Part) => set!["part"@, "part*"@],
        CommandName::Section(SectionLevel::Chapter) => set!["chapter"@, "chapter*"@],
        CommandName::Section(SectionLevel::Section) => set!["section"@, "section*"@],
        CommandName::Section(SectionLevel::Subsection) => set!["subsection"@, "subsection*"@],
        CommandName::Section(SectionLevel::Subsubsection) => set!["subsubsection"@, "subsubsection*"@],
        CommandName::Paragraph(ParagraphLevel::Paragraph) => set!["paragraph"@, "paragraph*"@],
        CommandName::Paragraph(ParagraphLevel::Subparagraph) => set!["subparagraph"@, "subparagraph*"@],
        CommandName::EnumItem => set!["item"@],
        CommandName::Caption => set!["caption"@],
        CommandName::PackageInclude => set!["usepackage"@, "RequirePackage"@],
        CommandName::ClassInclude => set!["documentclass"@],
        CommandName::LatexInclude => set!["include"@, "subfileinclude"@, "input"@, "subfile"@],
        CommandName::BiblatexInclude => set!["addbibresource"@],
        CommandName::BibtexInclude => set!["bibliography"@],
        CommandName::GraphicsInclude => set!["includegraphics"@],
        CommandName::SvgInclude => set!["includesvg"@],
        CommandName::InkscapeInclude => set!["includeinkscape"@],
        CommandName::VerbatimInclude => set!["verbatiminput"@, "VerbatimInput"@],
        CommandName::Import => set!["import"@, "subimport"@, "inputfrom"@, "subinputfrom"@, "subincludefrom"@],
        CommandName::LabelDefinition => set!["label"@],
        CommandName::LabelReference => set!["ref"@, "vref"@, "Vref"@, "autoref"@, "pageref"@, "cref"@, "cref*"@, "Cref"@, "Cref*"@, "namecref"@, "nameCref"@, "lcnamecref"@, "namecrefs"@, "nameCrefs"@, "lcnamecrefs"@, "labelcref"@, "labelcpageref"@, "eqref"@],
        CommandName::LabelReferenceRange => set!["crefrange"@, "crefrange*"@, "Crefrange"@, "Crefrange*"@],
        CommandName::LabelNumber => set!["newlabel"@],
        CommandName::OldCommandDefinition => set!["def"@, "let"@],
        CommandName::NewCommandDefinition => set!["newcommand"@, "newcommand*"@, "renewcommand"@, "renewcommand*"@, "DeclareRobustCommand"@, "DeclareRobustCommand*"@],
        CommandName::MathOperator => set!["DeclareMathOperator"@, "DeclareMathOperator*"@],
        CommandName::GlossaryEntryDefinition => set!["newglossaryentry"@],
        CommandName::GlossaryEntryReference => set!["gls"@, "Gls"@, "GLS"@, "glspl"@, "Glspl"@, "GLSpl"@, "glsdisp"@, "glslink"@, "glstext"@, "Glstext"@, "GLStext"@, "glsfirst"@, "Glsfirst"@, "GLSfirst"@, "glsplural"@, "Glsplural"@, "GLSplural"@, "glsfirstplural"@, "Glsfirstplural"@, "GLSfirstplural"@, "glsname"@, "Glsname"@, "GLSname"@, "glssymbol"@, "Glssymbol"@, "glsdesc"@, "Glsdesc"@, "GLSdesc"@, "glsuseri"@, "Glsuseri"@, "GLSuseri"@, "glsuserii"@, "Glsuserii"@, "glsuseriii"@, "glsuseriv"@, "Glsuseriv"@, "GLSuseriv"@, "glsuserv"@, "Glsuserv"@, "GLSuserv"@, "glsuservi"@, "Glsuservi"@, "GLSuservi"@],
        CommandName::AcronymDefinition => set!["newacronym"@, "newacro"@, "acrodef"@, "acro"@, "newacroindefinite"@, "acrodefindefinite"@, "acroindefinite"@, "acroplural"@, "newacroplural"@, "acrodefplural"@],
        CommandName::AcronymDeclaration => set!["DeclareAcronym"@],
        CommandName::AcronymReference => set!["acrshort"@, "Acrshort"@, "ACRshort"@, "acrshortpl"@, "Acrshortpl"@, "ACRshortpl"@, "acrlong"@, "Acrlong"@, "ACRlong"@, "acrlongpl"@, "Acrlongpl"@, "ACRlongpl"@, "acrfull"@, "Acrfull"@, "ACRfull"@, "acrfullpl"@, "Acrfullpl"@, "ACRfullpl"@, "acs"@, "Acs"@, "acsp"@, "Acsp"@, "acl"@, "Acl"@, "aclp"@, "Aclp"@, "acf"@, "Acf"@, "acfi"@, "Acfi"@, "acfp"@, "Acfp"@, "ac"@, "Ac"@, "acp"@, "Acp"@, "acused"@, "acsu"@, "Aclu"@, "iac"@, "Iac"@, "acs*"@, "Acs*"@, "acsp*"@, "Acsp*"@, "acl*"@, "Acl*"@, "aclp*"@, "Aclp*"@, "acf*"@, "Acf*"@, "acfi*"@, "Acfi*"@, "acfp*"@, "Acfp*"@, "ac*"@, "Ac*"@, "acp*"@, "Acp*"@, "acused*"@, "acsu*"@, "Aclu*"@, "iac*"@, "Iac*"@, "glsentrylong"@, "Glsentrylong"@, "glsentrylongpl"@, "Glsentrylongpl"@, "glsentryshort"@, "Glsentryshort"@, "glsentryshortpl"@, "Glsentryshortpl"@, "glsentryfullpl"@, "Glsentryfullpl"@],
        CommandName::TheoremDefinitionAmsThm => set!["newtheorem"@, "newtheorem*"@],
        CommandName::TheoremDefinitionThmTools => set!["declaretheorem"@, "declaretheorem*"@],
        CommandName::ColorReference => set!["color"@, "colorbox"@, "textcolor"@, "pagecolor"@],
        CommandName::ColorDefinition => set!["definecolor"@],
        CommandName::ColorSetDefinition => set!["definecolorset"@],
        CommandName::TikzLibraryImport => set!["usepgflibrary"@, "usetikzlibrary"@],
        CommandName::EnvironmentDefinition => set!["newenvironment"@, "newenvironment*"@, "renewenvironment"@, "renewenvironment*"@],
        CommandName::GraphicsPath => set!["graphicspath"@],
        CommandName::BeginBlockComment => set!["iffalse"@],
        CommandName::EndBlockComment => set!["fi"@],
        CommandName::VerbatimBlock => set!["verb"@],
        CommandName::BibItem => set!["bibitem"@],
        CommandName::TocContentsLine => set!["contentsline"@],
        CommandName::TocNumberLine => set!["numberline"@],
        CommandName::Citation | CommandName::Generic => Set::empty(),
    }
}

/// The length and characters of names of the command table (part 1).
proof fn lemma_names_0()
    ensures
        "begin"@.len() == 5,
        "begin"@[0] == 'b',
        "begin"@[1] == 'e',
        "begin"@[2] == 'g',
        "begin"@[3] == 'i',
        "begin"@[4] == 'n',
        "end"@.len() == 3,
        "end"@[0] == 'e',
        "end"@[1] == 'n',
        "end"@[2] == 'd',
        "["@.len() == 1,
        "["@[0] == '\x5b',
        "]"@.len() == 1,
        "]"@[0] == '\x5d',
        "part"@.len() == 4,
        "part"@[0] == 'p',
        "part"@[1] == 'a',
        "part"@[2] == 'r',
        "part"@[3] == 't',
        "part*"@.len() == 5,
        "part*"@[0] == 'p',
        "part*"@[1] == 'a',
        "part*"@[2] == 'r',
        "part*"@[3] == 't',
        "part*"@[4] == '*',
        "chapter"@.len() == 7,
        "chapter"@[0] == 'c',
        "chapter"@[1] == 'h',
        "chapter"@[2] == 'a',
        "chapter"@[3] == 'p',
        "chapter"@[4] == 't',
        "chapter"@[5] == 'e',
        "chapter"@[6] == 'r',
        "chapter*"@.len() == 8,
        "chapter*"@[0] == 'c',
        "chapter*"@[1] == 'h',
        "chapter*"@[2] == 'a',
        "chapter*"@[3] == 'p',
        "chapter*"@[4] == 't',
        "chapter*"@[5] == 'e',
        "chapter*"@[6] == 'r',
        "chapter*"@[7] == '*',
{
    reveal_strlit("begin");
    reveal_strlit("end");
    reveal_strlit("[");
    reveal_strlit("]");
    reveal_strlit("part");
    reveal_strlit("part*");
    reveal_strlit("chapter");
    reveal_strlit("chapter*");
}

/// The length and characters of names of the command table (part 2).
proof fn lemma_names_1()
    ensures
        "section"@.len() == 7,
        "section"@[0] == 's',
        "section"@[1] == 'e',
        "section"@[2] == 'c',
        "section"@[3] == 't',
        "section"@[4] == 'i',
        "section"@[5] == 'o',
        "section"@[6] == 'n',
        "section*"@.len() == 8,
        "section*"@[0] == 's',
        "section*"@[1] == 'e',
        "section*"@[2] == 'c',
        "section*"@[3] == 't',
        "section*"@[4] == 'i',
        "section*"@[5] == 'o',
        "section*"@[6] == 'n',
        "section*"@[7] == '*',
        "subsection"@.len() == 10,
        "subsection"@[0] == 's',
        "subsection"@[1] == 'u',
        "subsection"@[2] == 'b',
        "subsection"@[3] == 's',
        "subsection"@[4] == 'e',
        "subsection"@[5] == 'c',
        "subsection"@[6] == 't',
        "subsection"@[7] == 'i',
        "subsection"@[8] == 'o',
        "subsection"@[9] == 'n',
        "subsection*"@.len() == 11,
        "subsection*"@[0] == 's',
        "subsection*"@[1] == 'u',
        "subsection*"@[2] == 'b',
        "subsection*"@[3] == 's',
        "subsection*"@[4] == 'e',
        "subsection*"@[5] == 'c',
        "subsection*"@[6] == 't',
        "subsection*"@[7] == 'i',
        "subsection*"@[8] == 'o',
        "subsection*"@[9] == 'n',
        "subsection*"@[10] == '*',
        "subsubsection"@.len() == 13,
        "subsubsection"@[0] == 's',
        "subsubsection"@[1] == 'u',
        "subsubsection"@[2] == 'b',
        "subsubsection"@[3] == 's',
        "subsubsection"@[4] == 'u',
        "subsubsection"@[5] == 'b',
        "subsubsection"@[6] == 's',
        "subsubsection"@[7] == 'e',
        "subsubsection"@[8] == 'c',
        "subsubsection"@[9] == 't',
        "subsubsection"@[10] == 'i',
        "subsubsection"@[11] == 'o',
        "subsubsection"@[12] == 'n',
        "subsubsection*"@.len() == 14,
        "subsubsection*"@[0] == 's',
        "subsubsection*"@[1] == 'u',
        "subsubsection*"@[2] == 'b',
        "subsubsection*"@[3] == 's',
        "subsubsection*"@[4] == 'u',
        "subsubsection*"@[5] == 'b',
        "subsubsection*"@[6] == 's',
        "subsubsection*"@[7] == 'e',
        "subsubsection*"@[8] == 'c',
        "subsubsection*"@[9] == 't',
        "subsubsection*"@[10] == 'i',
        "subsubsection*"@[11] == 'o',
        "subsubsection*"@[12] == 'n',
        "subsubsection*"@[13] == '*',
        "paragraph"@.len() == 9,
        "paragraph"@[0] == 'p',
        "paragraph"@[1] == 'a',
        "paragraph"@[2] == 'r',
        "paragraph"@[3] == 'a',
        "paragraph"@[4] == 'g',
        "paragraph"@[5] == 'r',
        "paragraph"@[6] == 'a',
        "paragraph"@[7] == 'p',
        "paragraph"@[8] == 'h',
        "paragraph*"@.len() == 10,
        "paragraph*"@[0] == 'p',
        "paragraph*"@[1] == 'a',
        "paragraph*"@[2] == 'r',
        "paragraph*"@[3] == 'a',
        "paragraph*"@[4] == 'g',
        "paragraph*"@[5] == 'r',
        "paragraph*"@[6] == 'a',
        "paragraph*"@[7] == 'p',
        "paragraph*"@[8] == 'h',
        "paragraph*"@[9] == '*',
{
    reveal_strlit("section");
    reveal_strlit("section*");
    reveal_strlit("subsection");
    reveal_strlit("subsection*");
    reveal_strlit("subsubsection");
    reveal_strlit("subsubsection*");
    reveal_strlit("paragraph");
    reveal_strlit("paragraph*");
}

/// The length and characters of names of the command table (part 3).
proof fn lemma_names_2()
    ensures
        "subparagraph"@.len() == 12,
        "subparagraph"@[0] == 's',
        "subparagraph"@[1] == 'u',
        "subparagraph"@[2] == 'b',
        "subparagraph"@[3] == 'p',
        "subparagraph"@[4] == 'a',
        "subparagraph"@[5] == 'r',
        "subparagraph"@[6] == 'a',
        "subparagraph"@[7] == 'g',
        "subparagraph"@[8] == 'r',
        "subparagraph"@[9] == 'a',
        "subparagraph"@[10] == 'p',
        "subparagraph"@[11] == 'h',
        "subparagraph*"@.len() == 13,
        "subparagraph*"@[0] == 's',
        "subparagraph*"@[1] == 'u',
        "subparagraph*"@[2] == 'b',
        "subparagraph*"@[3] == 'p',
        "subparagraph*"@[4] == 'a',
        "subparagraph*"@[5] == 'r',
        "subparagraph*"@[6] == 'a',
        "subparagraph*"@[7] == 'g',
        "subparagraph*"@[8] == 'r',
        "subparagraph*"@[9] == 'a',
        "subparagraph*"@[10] == 'p',
        "subparagraph*"@[11] == 'h',
        "subparagraph*"@[12] == '*',
        "item"@.len() == 4,
        "item"@[0] == 'i',
        "item"@[1] == 't',
        "item"@[2] == 'e',
        "item"@[3] == 'm',
        "caption"@.len() == 7,
        "caption"@[0] == 'c',
        "caption"@[1] == 'a',
        "caption"@[2] == 'p',
        "caption"@[3] == 't',
        "caption"@[4] == 'i',
        "caption"@[5] == 'o',
        "caption"@[6] == 'n',
        "usepackage"@.len() == 10,
        "usepackage"@[0] == 'u',
        "usepackage"@[1] == 's',
        "usepackage"@[2] == 'e',
        "usepackage"@[3] == 'p',
        "usepackage"@[4] == 'a',
        "usepackage"@[5] == 'c',
        "usepackage"@[6] == 'k',
        "usepackage"@[7] == 'a',
        "usepackage"@[8] == 'g',
        "usepackage"@[9] == 'e',
        "RequirePackage"@.len() == 14,
        "RequirePackage"@[0] == 'R',
        "RequirePackage"@[1] == 'e',
        "RequirePackage"@[2] == 'q',
        "RequirePackage"@[3] == 'u',
        "RequirePackage"@[4] == 'i',
        "RequirePackage"@[5] == 'r',
        "RequirePackage"@[6] == 'e',
        "RequirePackage"@[7] == 'P',
        "RequirePackage"@[8] == 'a',
        "RequirePackage"@[9] == 'c',
        "RequirePackage"@[10] == 'k',
        "RequirePackage"@[11] == 'a',
        "RequirePackage"@[12] == 'g',
        "RequirePackage"@[13] == 'e',
        "documentclass"@.len() == 13,
        "documentclass"@[0] == 'd',
        "documentclass"@[1] == 'o',
        "documentclass"@[2] == 'c',
        "documentclass"@[3] == 'u',
        "documentclass"@[4] == 'm',
        "documentclass"@[5] == 'e',
        "documentclass"@[6] == 'n',
        "documentclass"@[7] == 't',
        "documentclass"@[8] == 'c',
        "documentclass"@[9] == 'l',
        "documentclass"@[10] == 'a',
        "documentclass"@[11] == 's',
        "documentclass"@[12] == 's',
        "include"@.len() == 7,
        "include"@[0] == 'i',
        "include"@[1] == 'n',
        "include"@[2] == 'c',
        "include"@[3] == 'l',
        "include"@[4] == 'u',
        "include"@[5] == 'd',
        "include"@[6] == 'e',
{
    reveal_strlit("subparagraph");
    reveal_strlit("subparagraph*");
    reveal_strlit("item");
    reveal_strlit("caption");
    reveal_strlit("usepackage");
    reveal_strlit("RequirePackage");
    reveal_strlit("documentclass");
    reveal_strlit("include");
}

/// The length and characters of names of the command table (part 4).
proof fn lemma_names_3()
    ensures
        "subfileinclude"@.len() == 14,
        "subfileinclude"@[0] == 's',
        "subfileinclude"@[1] == 'u',
        "subfileinclude"@[2] == 'b',
        "subfileinclude"@[3] == 'f',
        "subfileinclude"@[4] == 'i',
        "subfileinclude"@[5] == 'l',
        "subfileinclude"@[6] == 'e',
        "subfileinclude"@[7] == 'i',
        "subfileinclude"@[8] == 'n',
        "subfileinclude"@[9] == 'c',
        "subfileinclude"@[10] == 'l',
        "subfileinclude"@[11] == 'u',
        "subfileinclude"@[12] == 'd',
        "subfileinclude"@[13] == 'e',
        "input"@.len() == 5,
        "input"@[0] == 'i',
        "input"@[1] == 'n',
        "input"@[2] == 'p',
        "input"@[3] == 'u',
        "input"@[4] == 't',
        "subfile"@.len() == 7,
        "subfile"@[0] == 's',
        "subfile"@[1] == 'u',
        "subfile"@[2] == 'b',
        "subfile"@[3] == 'f',
        "subfile"@[4] == 'i',
        "subfile"@[5] == 'l',
        "subfile"@[6] == 'e',
        "addbibresource"@.len() == 14,
        "addbibresource"@[0] == 'a',
        "addbibresource"@[1] == 'd',
        "addbibresource"@[2] == 'd',
        "addbibresource"@[3] == 'b',
        "addbibresource"@[4] == 'i',
        "addbibresource"@[5] == 'b',
        "addbibresource"@[6] == 'r',
        "addbibresource"@[7] == 'e',
        "addbibresource"@[8] == 's',
        "addbibresource"@[9] == 'o',
        "addbibresource"@[10] == 'u',
        "addbibresource"@[11] == 'r',
        "addbibresource"@[12] == 'c',
        "addbibresource"@[13] == 'e',
        "bibliography"@.len() == 12,
        "bibliography"@[0] == 'b',
        "bibliography"@[1] == 'i',
        "bibliography"@[2] == 'b',
        "bibliography"@[3] == 'l',
        "bibliography"@[4] == 'i',
        "bibliography"@[5] == 'o',
        "bibliography"@[6] == 'g',
        "bibliography"@[7] == 'r',
        "bibliography"@[8] == 'a',
        "bibliography"@[9] == 'p',
        "bibliography"@[10] == 'h',
        "bibliography"@[11] == 'y',
        "includegraphics"@.len() == 15,
        "includegraphics"@[0] == 'i',
        "includegraphics"@[1] == 'n',
        "includegraphics"@[2] == 'c',
        "includegraphics"@[3] == 'l',
        "includegraphics"@[4] == 'u',
        "includegraphics"@[5] == 'd',
        "includegraphics"@[6] == 'e',
        "includegraphics"@[7] == 'g',
        "includegraphics"@[8] == 'r',
        "includegraphics"@[9] == 'a',
        "includegraphics"@[10] == 'p',
        "includegraphics"@[11] == 'h',
        "includegraphics"@[12] == 'i',
        "includegraphics"@[13] == 'c',
        "includegraphics"@[14] == 's',
        "includesvg"@.len() == 10,
        "includesvg"@[0] == 'i',
        "includesvg"@[1] == 'n',
        "includesvg"@[2] == 'c',
        "includesvg"@[3] == 'l',
        "includesvg"@[4] == 'u',
        "includesvg"@[5] == 'd',
        "includesvg"@[6] == 'e',
        "includesvg"@[7] == 's',
        "includesvg"@[8] == 'v',
        "includesvg"@[9] == 'g',
        "includeinkscape"@.len() == 15,
        "includeinkscape"@[0] == 'i',
        "includeinkscape"@[1] == 'n',
        "includeinkscape"@[2] == 'c',
        "includeinkscape"@[3] == 'l',
        "includeinkscape"@[4] == 'u',
        "includeinkscape"@[5] == 'd',
        "includeinkscape"@[6] == 'e',
        "includeinkscape"@[7] == 'i',
        "includeinkscape"@[8] == 'n',
        "includeinkscape"@[9] == 'k',
        "includeinkscape"@[10] == 's',
        "includeinkscape"@[11] == 'c',
        "includeinkscape"@[12] == 'a',
        "includeinkscape"@[13] == 'p',
        "includeinkscape"@[14] == 'e',
{
    reveal_strlit("subfileinclude");
    reveal_strlit("input");
    reveal_strlit("subfile");
    reveal_strlit("addbibresource");
    reveal_strlit("bibliography");
    reveal_strlit("includegraphics");
    reveal_strlit("includesvg");
    reveal_strlit("includeinkscape");
}

/// The length and characters of names of the command table (part 5).
proof fn lemma_names_4()
    ensures
        "verbatiminput"@.len() == 13,
        "verbatiminput"@[0] == 'v',
        "verbatiminput"@[1] == 'e',
        "verbatiminput"@[2] == 'r',
        "verbatiminput"@[3] == 'b',
        "verbatiminput"@[4] == 'a',
        "verbatiminput"@[5] == 't',
        "verbatiminput"@[6] == 'i',
        "verbatiminput"@[7] == 'm',
        "verbatiminput"@[8] == 'i',
        "verbatiminput"@[9] == 'n',
        "verbatiminput"@[10] == 'p',
        "verbatiminput"@[11] == 'u',
        "verbatiminput"@[12] == 't',
        "VerbatimInput"@.len() == 13,
        "VerbatimInput"@[0] == 'V',
        "VerbatimInput"@[1] == 'e',
        "VerbatimInput"@[2] == 'r',
        "VerbatimInput"@[3] == 'b',
        "VerbatimInput"@[4] == 'a',
        "VerbatimInput"@[5] == 't',
        "VerbatimInput"@[6] == 'i',
        "VerbatimInput"@[7] == 'm',
        "VerbatimInput"@[8] == 'I',
        "VerbatimInput"@[9] == 'n',
        "VerbatimInput"@[10] == 'p',
        "VerbatimInput"@[11] == 'u',
        "VerbatimInput"@[12] == 't',
        "import"@.len() == 6,
        "import"@[0] == 'i',
        "import"@[1] == 'm',
        "import"@[2] == 'p',
        "import"@[3] == 'o',
        "import"@[4] == 'r',
        "import"@[5] == 't',
        "subimport"@.len() == 9,
        "subimport"@[0] == 's',
        "subimport"@[1] == 'u',
        "subimport"@[2] == 'b',
        "subimport"@[3] == 'i',
        "subimport"@[4] == 'm',
        "subimport"@[5] == 'p',
        "subimport"@[6] == 'o',
        "subimport"@[7] == 'r',
        "subimport"@[8] == 't',
        "inputfrom"@.len() == 9,
        "inputfrom"@[0] == 'i',
        "inputfrom"@[1] == 'n',
        "inputfrom"@[2] == 'p',
        "inputfrom"@[3] == 'u',
        "inputfrom"@[4] == 't',
        "inputfrom"@[5] == 'f',
        "inputfrom"@[6] == 'r',
        "inputfrom"@[7] == 'o',
        "inputfrom"@[8] == 'm',
        "subinputfrom"@.len() == 12,
        "subinputfrom"@[0] == 's',
        "subinputfrom"@[1] == 'u',
        "subinputfrom"@[2] == 'b',
        "subinputfrom"@[3] == 'i',
        "subinputfrom"@[4] == 'n',
        "subinputfrom"@[5] == 'p',
        "subinputfrom"@[6] == 'u',
        "subinputfrom"@[7] == 't',
        "subinputfrom"@[8] == 'f',
        "subinputfrom"@[9] == 'r',
        "subinputfrom"@[10] == 'o',
        "subinputfrom"@[11] == 'm',
        "subincludefrom"@.len() == 14,
        "subincludefrom"@[0] == 's',
        "subincludefrom"@[1] == 'u',
        "subincludefrom"@[2] == 'b',
        "subincludefrom"@[3] == 'i',
        "subincludefrom"@[4] == 'n',
        "subincludefrom"@[5] == 'c',
        "subincludefrom"@[6] == 'l',
        "subincludefrom"@[7] == 'u',
        "subincludefrom"@[8] == 'd',
        "subincludefrom"@[9] == 'e',
        "subincludefrom"@[10] == 'f',
        "subincludefrom"@[11] == 'r',
        "subincludefrom"@[12] == 'o',
        "subincludefrom"@[13] == 'm',
        "label"@.len() == 5,
        "label"@[0] == 'l',
        "label"@[1] == 'a',
        "label"@[2] == 'b',
        "label"@[3] == 'e',
        "label"@[4] == 'l',
{
    reveal_strlit("verbatiminput");
    reveal_strlit("VerbatimInput");
    reveal_strlit("import");
    reveal_strlit("subimport");
    reveal_strlit("inputfrom");
    reveal_strlit("subinputfrom");
    reveal_strlit("subincludefrom");
    reveal_strlit("label");
}

/// The length and characters of names of the command table (part 6).
proof fn lemma_names_5()
    ensures
        "ref"@.len() == 3,
        "ref"@[0] == 'r',
        "ref"@[1] == 'e',
        "ref"@[2] == 'f',
        "vref"@.len() == 4,
        "vref"@[0] == 'v',
        "vref"@[1] == 'r',
        "vref"@[2] == 'e',
        "vref"@[3] == 'f',
        "Vref"@.len() == 4,
        "Vref"@[0] == 'V',
        "Vref"@[1] == 'r',
        "Vref"@[2] == 'e',
        "Vref"@[3] == 'f',
        "autoref"@.len() == 7,
        "autoref"@[0] == 'a',
        "autoref"@[1] == 'u',
        "autoref"@[2] == 't',
        "autoref"@[3] == 'o',
        "autoref"@[4] == 'r',
        "autoref"@[5] == 'e',
        "autoref"@[6] == 'f',
        "pageref"@.len() == 7,
        "pageref"@[0] == 'p',
        "pageref"@[1] == 'a',
        "pageref"@[2] == 'g',
        "pageref"@[3] == 'e',
        "pageref"@[4] == 'r',
        "pageref"@[5] == 'e',
        "pageref"@[6] == 'f',
        "cref"@.len() == 4,
        "cref"@[0] == 'c',
        "cref"@[1] == 'r',
        "cref"@[2] == 'e',
        "cref"@[3] == 'f',
        "cref*"@.len() == 5,
        "cref*"@[0] == 'c',
        "cref*"@[1] == 'r',
        "cref*"@[2] == 'e',
        "cref*"@[3] == 'f',
        "cref*"@[4] == '*',
        "Cref"@.len() == 4,
        "Cref"@[0] == 'C',
        "Cref"@[1] == 'r',
        "Cref"@[2] == 'e',
        "Cref"@[3] == 'f',
{
    reveal_strlit("ref");
    reveal_strlit("vref");
    reveal_strlit("Vref");
    reveal_strlit("autoref");
    reveal_strlit("pageref");
    reveal_strlit("cref");
    reveal_strlit("cref*");
    reveal_strlit("Cref");
}

/// The length and characters of names of the command table (part 7).
proof fn lemma_names_6()
    ensures
        "Cref*"@.len() == 5,
        "Cref*"@[0] == 'C',
        "Cref*"@[1] == 'r',
        "Cref*"@[2] == 'e',
        "Cref*"@[3] == 'f',
        "Cref*"@[4] == '*',
        "namecref"@.len() == 8,
        "namecref"@[0] == 'n',
        "namecref"@[1] == 'a',
        "namecref"@[2] == 'm',
        "namecref"@[3] == 'e',
        "namecref"@[4] == 'c',
        "namecref"@[5] == 'r',
        "namecref"@[6] == 'e',
        "namecref"@[7] == 'f',
        "nameCref"@.len() == 8,
        "nameCref"@[0] == 'n',
        "nameCref"@[1] == 'a',
        "nameCref"@[2] == 'm',
        "nameCref"@[3] == 'e',
        "nameCref"@[4] == 'C',
        "nameCref"@[5] == 'r',
        "nameCref"@[6] == 'e',
        "nameCref"@[7] == 'f',
        "lcnamecref"@.len() == 10,
        "lcnamecref"@[0] == 'l',
        "lcnamecref"@[1] == 'c',
        "lcnamecref"@[2] == 'n',
        "lcnamecref"@[3] == 'a',
        "lcnamecref"@[4] == 'm',
        "lcnamecref"@[5] == 'e',
        "lcnamecref"@[6] == 'c',
        "lcnamecref"@[7] == 'r',
        "lcnamecref"@[8] == 'e',
        "lcnamecref"@[9] == 'f',
        "namecrefs"@.len() == 9,
        "namecrefs"@[0] == 'n',
        "namecrefs"@[1] == 'a',
        "namecrefs"@[2] == 'm',
        "namecrefs"@[3] == 'e',
        "namecrefs"@[4] == 'c',
        "namecrefs"@[5] == 'r',
        "namecrefs"@[6] == 'e',
        "namecrefs"@[7] == 'f',
        "namecrefs"@[8] == 's',
        "nameCrefs"@.len() == 9,
        "nameCrefs"@[0] == 'n',
        "nameCrefs"@[1] == 'a',
        "nameCrefs"@[2] == 'm',
        "nameCrefs"@[3] == 'e',
        "nameCrefs"@[4] == 'C',
        "nameCrefs"@[5] == 'r',
        "nameCrefs"@[6] == 'e',
        "nameCrefs"@[7] == 'f',
        "nameCrefs"@[8] == 's',
        "lcnamecrefs"@.len() == 11,
        "lcnamecrefs"@[0] == 'l',
        "lcnamecrefs"@[1] == 'c',
        "lcnamecrefs"@[2] == 'n',
        "lcnamecrefs"@[3] == 'a',
        "lcnamecrefs"@[4] == 'm',
        "lcnamecrefs"@[5] == 'e',
        "lcnamecrefs"@[6] == 'c',
        "lcnamecrefs"@[7] == 'r',
        "lcnamecrefs"@[8] == 'e',
        "lcnamecrefs"@[9] == 'f',
        "lcnamecrefs"@[10] == 's',
        "labelcref"@.len() == 9,
        "labelcref"@[0] == 'l',
        "labelcref"@[1] == 'a',
        "labelcref"@[2] == 'b',
        "labelcref"@[3] == 'e',
        "labelcref"@[4] == 'l',
        "labelcref"@[5] == 'c',
        "labelcref"@[6] == 'r',
        "labelcref"@[7] == 'e',
        "labelcref"@[8] == 'f',
{
    reveal_strlit("Cref*");
    reveal_strlit("namecref");
    reveal_strlit("nameCref");
    reveal_strlit("lcnamecref");
    reveal_strlit("namecrefs");
    reveal_strlit("nameCrefs");
    reveal_strlit("lcnamecrefs");
    reveal_strlit("labelcref");
}

/// The length and characters of names of the command table (part 8).
proof fn lemma_names_7()
    ensures
        "labelcpageref"@.len() == 13,
        "labelcpageref"@[0] == 'l',
        "labelcpageref"@[1] == 'a',
        "labelcpageref"@[2] == 'b',
        "labelcpageref"@[3] == 'e',
        "labelcpageref"@[4] == 'l',
        "labelcpageref"@[5] == 'c',
        "labelcpageref"@[6] == 'p',
        "labelcpageref"@[7] == 'a',
        "labelcpageref"@[8] == 'g',
        "labelcpageref"@[9] == 'e',
        "labelcpageref"@[10] == 'r',
        "labelcpageref"@[11] == 'e',
        "labelcpageref"@[12] == 'f',
        "eqref"@.len() == 5,
        "eqref"@[0] == 'e',
        "eqref"@[1] == 'q',
        "eqref"@[2] == 'r',
        "eqref"@[3] == 'e',
        "eqref"@[4] == 'f',
        "crefrange"@.len() == 9,
        "crefrange"@[0] == 'c',
        "crefrange"@[1] == 'r',
        "crefrange"@[2] == 'e',
        "crefrange"@[3] == 'f',
        "crefrange"@[4] == 'r',
        "crefrange"@[5] == 'a',
        "crefrange"@[6] == 'n',
        "crefrange"@[7] == 'g',
        "crefrange"@[8] == 'e',
        "crefrange*"@.len() == 10,
        "crefrange*"@[0] == 'c',
        "crefrange*"@[1] == 'r',
        "crefrange*"@[2] == 'e',
        "crefrange*"@[3] == 'f',
        "crefrange*"@[4] == 'r',
        "crefrange*"@[5] == 'a',
        "crefrange*"@[6] == 'n',
        "crefrange*"@[7] == 'g',
        "crefrange*"@[8] == 'e',
        "crefrange*"@[9] == '*',
        "Crefrange"@.len() == 9,
        "Crefrange"@[0] == 'C',
        "Crefrange"@[1] == 'r',
        "Crefrange"@[2] == 'e',
        "Crefrange"@[3] == 'f',
        "Crefrange"@[4] == 'r',
        "Crefrange"@[5] == 'a',
        "Crefrange"@[6] == 'n',
        "Crefrange"@[7] == 'g',
        "Crefrange"@[8] == 'e',
        "Crefrange*"@.len() == 10,
        "Crefrange*"@[0] == 'C',
        "Crefrange*"@[1] == 'r',
        "Crefrange*"@[2] == 'e',
        "Crefrange*"@[3] == 'f',
        "Crefrange*"@[4] == 'r',
        "Crefrange*"@[5] == 'a',
        "Crefrange*"@[6] == 'n',
        "Crefrange*"@[7] == 'g',
        "Crefrange*"@[8] == 'e',
        "Crefrange*"@[9] == '*',
        "newlabel"@.len() == 8,
        "newlabel"@[0] == 'n',
        "newlabel"@[1] == 'e',
        "newlabel"@[2] == 'w',
        "newlabel"@[3] == 'l',
        "newlabel"@[4] == 'a',
        "newlabel"@[5] == 'b',
        "newlabel"@[6] == 'e',
        "newlabel"@[7] == 'l',
        "def"@.len() == 3,
        "def"@[0] == 'd',
        "def"@[1] == 'e',
        "def"@[2] == 'f',
{
    reveal_strlit("labelcpageref");
    reveal_strlit("eqref");
    reveal_strlit("crefrange");
    reveal_strlit("crefrange*");
    reveal_strlit("Crefrange");
    reveal_strlit("Crefrange*");
    reveal_strlit("newlabel");
    reveal_strlit("def");
}

/// The length and characters of names of the command table (part 9).
proof fn lemma_names_8()
    ensures
        "let"@.len() == 3,
        "let"@[0] == 'l',
        "let"@[1] == 'e',
        "let"@[2] == 't',
        "newcommand"@.len() == 10,
        "newcommand"@[0] == 'n',
        "newcommand"@[1] == 'e',
        "newcommand"@[2] == 'w',
        "newcommand"@[3] == 'c',
        "newcommand"@[4] == 'o',
        "newcommand"@[5] == 'm',
        "newcommand"@[6] == 'm',
        "newcommand"@[7] == 'a',
        "newcommand"@[8] == 'n',
        "newcommand"@[9] == 'd',
        "newcommand*"@.len() == 11,
        "newcommand*"@[0] == 'n',
        "newcommand*"@[1] == 'e',
        "newcommand*"@[2] == 'w',
        "newcommand*"@[3] == 'c',
        "newcommand*"@[4] == 'o',
        "newcommand*"@[5] == 'm',
        "newcommand*"@[6] == 'm',
        "newcommand*"@[7] == 'a',
        "newcommand*"@[8] == 'n',
        "newcommand*"@[9] == 'd',
        "newcommand*"@[10] == '*',
        "renewcommand"@.len() == 12,
        "renewcommand"@[0] == 'r',
        "renewcommand"@[1] == 'e',
        "renewcommand"@[2] == 'n',
        "renewcommand"@[3] == 'e',
        "renewcommand"@[4] == 'w',
        "renewcommand"@[5] == 'c',
        "renewcommand"@[6] == 'o',
        "renewcommand"@[7] == 'm',
        "renewcommand"@[8] == 'm',
        "renewcommand"@[9] == 'a',
        "renewcommand"@[10] == 'n',
        "renewcommand"@[11] == 'd',
        "renewcommand*"@.len() == 13,
        "renewcommand*"@[0] == 'r',
        "renewcommand*"@[1] == 'e',
        "renewcommand*"@[2] == 'n',
        "renewcommand*"@[3] == 'e',
        "renewcommand*"@[4] == 'w',
        "renewcommand*"@[5] == 'c',
        "renewcommand*"@[6] == 'o',
        "renewcommand*"@[7] == 'm',
        "renewcommand*"@[8] == 'm',
        "renewcommand*"@[9] == 'a',
        "renewcommand*"@[10] == 'n',
        "renewcommand*"@[11] == 'd',
        "renewcommand*"@[12] == '*',
        "DeclareRobustCommand"@.len() == 20,
        "DeclareRobustCommand"@[0] == 'D',
        "DeclareRobustCommand"@[1] == 'e',
        "DeclareRobustCommand"@[2] == 'c',
        "DeclareRobustCommand"@[3] == 'l',
        "DeclareRobustCommand"@[4] == 'a',
        "DeclareRobustCommand"@[5] == 'r',
        "DeclareRobustCommand"@[6] == 'e',
        "DeclareRobustCommand"@[7] == 'R',
        "DeclareRobustCommand"@[8] == 'o',
        "DeclareRobustCommand"@[9] == 'b',
        "DeclareRobustCommand"@[10] == 'u',
        "DeclareRobustCommand"@[11] == 's',
        "DeclareRobustCommand"@[12] == 't',
        "DeclareRobustCommand"@[13] == 'C',
        "DeclareRobustCommand"@[14] == 'o',
        "DeclareRobustCommand"@[15] == 'm',
        "DeclareRobustCommand"@[16] == 'm',
        "DeclareRobustCommand"@[17] == 'a',
        "DeclareRobustCommand"@[18] == 'n',
        "DeclareRobustCommand"@[19] == 'd',
        "DeclareRobustCommand*"@.len() == 21,
        "DeclareRobustCommand*"@[0] == 'D',
        "DeclareRobustCommand*"@[1] == 'e',
        "DeclareRobustCommand*"@[2] == 'c',
        "DeclareRobustCommand*"@[3] == 'l',
        "DeclareRobustCommand*"@[4] == 'a',
        "DeclareRobustCommand*"@[5] == 'r',
        "DeclareRobustCommand*"@[6] == 'e',
        "DeclareRobustCommand*"@[7] == 'R',
        "DeclareRobustCommand*"@[8] == 'o',
        "DeclareRobustCommand*"@[9] == 'b',
        "DeclareRobustCommand*"@[10] == 'u',
        "DeclareRobustCommand*"@[11] == 's',
        "DeclareRobustCommand*"@[12] == 't',
        "DeclareRobustCommand*"@[13] == 'C',
        "DeclareRobustCommand*"@[14] == 'o',
        "DeclareRobustCommand*"@[15] == 'm',
        "DeclareRobustCommand*"@[16] == 'm',
        "DeclareRobustCommand*"@[17] == 'a',
        "DeclareRobustCommand*"@[18] == 'n',
        "DeclareRobustCommand*"@[19] == 'd',
        "DeclareRobustCommand*"@[20] == '*',
        "DeclareMathOperator"@.len() == 19,
        "DeclareMathOperator"@[0] == 'D',
        "DeclareMathOperator"@[1] == 'e',
        "DeclareMathOperator"@[2] == 'c',
        "DeclareMathOperator"@[3] == 'l',
        "DeclareMathOperator"@[4] == 'a',
        "DeclareMathOperator"@[5] == 'r',
        "DeclareMathOperator"@[6] == 'e',
        "DeclareMathOperator"@[7] == 'M',
        "DeclareMathOperator"@[8] == 'a',
        "DeclareMathOperator"@[9] == 't',
        "DeclareMathOperator"@[10] == 'h',
        "DeclareMathOperator"@[11] == 'O',
        "DeclareMathOperator"@[12] == 'p',
        "DeclareMathOperator"@[13] == 'e',
        "DeclareMathOperator"@[14] == 'r',
        "DeclareMathOperator"@[15] == 'a',
        "DeclareMathOperator"@[16] == 't',
        "DeclareMathOperator"@[17] == 'o',
        "DeclareMathOperator"@[18] == 'r',
{
    reveal_strlit("let");
    reveal_strlit("newcommand");
    reveal_strlit("newcommand*");
    reveal_strlit("renewcommand");
    reveal_strlit("renewcommand*");
    reveal_strlit("DeclareRobustCommand");
    reveal_strlit("DeclareRobustCommand*");
    reveal_strlit("DeclareMathOperator");
}

/// The length and characters of names of the command table (part 10).
proof fn lemma_names_9()
    ensures
        "DeclareMathOperator*"@.len() == 20,
        "DeclareMathOperator*"@[0] == 'D',
        "DeclareMathOperator*"@[1] == 'e',
        "DeclareMathOperator*"@[2] == 'c',
        "DeclareMathOperator*"@[3] == 'l',
        "DeclareMathOperator*"@[4] == 'a',
        "DeclareMathOperator*"@[5] == 'r',
        "DeclareMathOperator*"@[6] == 'e',
        "DeclareMathOperator*"@[7] == 'M',
        "DeclareMathOperator*"@[8] == 'a',
        "DeclareMathOperator*"@[9] == 't',
        "DeclareMathOperator*"@[10] == 'h',
        "DeclareMathOperator*"@[11] == 'O',
        "DeclareMathOperator*"@[12] == 'p',
        "DeclareMathOperator*"@[13] == 'e',
        "DeclareMathOperator*"@[14] == 'r',
        "DeclareMathOperator*"@[15] == 'a',
        "DeclareMathOperator*"@[16] == 't',
        "DeclareMathOperator*"@[17] == 'o',
        "DeclareMathOperator*"@[18] == 'r',
        "DeclareMathOperator*"@[19] == '*',
        "newglossaryentry"@.len() == 16,
        "newglossaryentry"@[0] == 'n',
        "newglossaryentry"@[1] == 'e',
        "newglossaryentry"@[2] == 'w',
        "newglossaryentry"@[3] == 'g',
        "newglossaryentry"@[4] == 'l',
        "newglossaryentry"@[5] == 'o',
        "newglossaryentry"@[6] == 's',
        "newglossaryentry"@[7] == 's',
        "newglossaryentry"@[8] == 'a',
        "newglossaryentry"@[9] == 'r',
        "newglossaryentry"@[10] == 'y',
        "newglossaryentry"@[11] == 'e',
        "newglossaryentry"@[12] == 'n',
        "newglossaryentry"@[13] == 't',
        "newglossaryentry"@[14] == 'r',
        "newglossaryentry"@[15] == 'y',
        "gls"@.len() == 3,
        "gls"@[0] == 'g',
        "gls"@[1] == 'l',
        "gls"@[2] == 's',
        "Gls"@.len() == 3,
        "Gls"@[0] == 'G',
        "Gls"@[1] == 'l',
        "Gls"@[2] == 's',
        "GLS"@.len() == 3,
        "GLS"@[0] == 'G',
        "GLS"@[1] == 'L',
        "GLS"@[2] == 'S',
        "glspl"@.len() == 5,
        "glspl"@[0] == 'g',
        "glspl"@[1] == 'l',
        "glspl"@[2] == 's',
        "glspl"@[3] == 'p',
        "glspl"@[4] == 'l',
        "Glspl"@.len() == 5,
        "Glspl"@[0] == 'G',
        "Glspl"@[1] == 'l',
        "Glspl"@[2] == 's',
        "Glspl"@[3] == 'p',
        "Glspl"@[4] == 'l',
        "GLSpl"@.len() == 5,
        "GLSpl"@[0] == 'G',
        "GLSpl"@[1] == 'L',
        "GLSpl"@[2] == 'S',
        "GLSpl"@[3] == 'p',
        "GLSpl"@[4] == 'l',
{
    reveal_strlit("DeclareMathOperator*");
    reveal_strlit("newglossaryentry");
    reveal_strlit("gls");
    reveal_strlit("Gls");
    reveal_strlit("GLS");
    reveal_strlit("glspl");
    reveal_strlit("Glspl");
    reveal_strlit("GLSpl");
}

/// The length and characters of names of the command table (part 11).
proof fn lemma_names_10()
    ensures
        "glsdisp"@.len() == 7,
        "glsdisp"@[0] == 'g',
        "glsdisp"@[1] == 'l',
        "glsdisp"@[2] == 's',
        "glsdisp"@[3] == 'd',
        "glsdisp"@[4] == 'i',
        "glsdisp"@[5] == 's',
        "glsdisp"@[6] == 'p',
        "glslink"@.len() == 7,
        "glslink"@[0] == 'g',
        "glslink"@[1] == 'l',
        "glslink"@[2] == 's',
        "glslink"@[3] == 'l',
        "glslink"@[4] == 'i',
        "glslink"@[5] == 'n',
        "glslink"@[6] == 'k',
        "glstext"@.len() == 7,
        "glstext"@[0] == 'g',
        "glstext"@[1] == 'l',
        "glstext"@[2] == 's',
        "glstext"@[3] == 't',
        "glstext"@[4] == 'e',
        "glstext"@[5] == 'x',
        "glstext"@[6] == 't',
        "Glstext"@.len() == 7,
        "Glstext"@[0] == 'G',
        "Glstext"@[1] == 'l',
        "Glstext"@[2] == 's',
        "Glstext"@[3] == 't',
        "Glstext"@[4] == 'e',
        "Glstext"@[5] == 'x',
        "Glstext"@[6] == 't',
        "GLStext"@.len() == 7,
        "GLStext"@[0] == 'G',
        "GLStext"@[1] == 'L',
        "GLStext"@[2] == 'S',
        "GLStext"@[3] == 't',
        "GLStext"@[4] == 'e',
        "GLStext"@[5] == 'x',
        "GLStext"@[6] == 't',
        "glsfirst"@.len() == 8,
        "glsfirst"@[0] == 'g',
        "glsfirst"@[1] == 'l',
        "glsfirst"@[2] == 's',
        "glsfirst"@[3] == 'f',
        "glsfirst"@[4] == 'i',
        "glsfirst"@[5] == 'r',
        "glsfirst"@[6] == 's',
        "glsfirst"@[7] == 't',
        "Glsfirst"@.len() == 8,
        "Glsfirst"@[0] == 'G',
        "Glsfirst"@[1] == 'l',
        "Glsfirst"@[2] == 's',
        "Glsfirst"@[3] == 'f',
        "Glsfirst"@[4] == 'i',
        "Glsfirst"@[5] == 'r',
        "Glsfirst"@[6] == 's',
        "Glsfirst"@[7] == 't',
        "GLSfirst"@.len() == 8,
        "GLSfirst"@[0] == 'G',
        "GLSfirst"@[1] == 'L',
        "GLSfirst"@[2] == 'S',
        "GLSfirst"@[3] == 'f',
        "GLSfirst"@[4] == 'i',
        "GLSfirst"@[5] == 'r',
        "GLSfirst"@[6] == 's',
        "GLSfirst"@[7] == 't',
{
    reveal_strlit("glsdisp");
    reveal_strlit("glslink");
    reveal_strlit("glstext");
    reveal_strlit("Glstext");
    reveal_strlit("GLStext");
    reveal_strlit("glsfirst");
    reveal_strlit("Glsfirst");
    reveal_strlit("GLSfirst");
}

/// The length and characters of names of the command table (part 12).
proof fn lemma_names_11()
    ensures
        "glsplural"@.len() == 9,
        "glsplural"@[0] == 'g',
        "glsplural"@[1] == 'l',
        "glsplural"@[2] == 's',
        "glsplural"@[3] == 'p',
        "glsplural"@[4] == 'l',
        "glsplural"@[5] == 'u',
        "glsplural"@[6] == 'r',
        "glsplural"@[7] == 'a',
        "glsplural"@[8] == 'l',
        "Glsplural"@.len() == 9,
        "Glsplural"@[0] == 'G',
        "Glsplural"@[1] == 'l',
        "Glsplural"@[2] == 's',
        "Glsplural"@[3] == 'p',
        "Glsplural"@[4] == 'l',
        "Glsplural"@[5] == 'u',
        "Glsplural"@[6] == 'r',
        "Glsplural"@[7] == 'a',
        "Glsplural"@[8] == 'l',
        "GLSplural"@.len() == 9,
        "GLSplural"@[0] == 'G',
        "GLSplural"@[1] == 'L',
        "GLSplural"@[2] == 'S',
        "GLSplural"@[3] == 'p',
        "GLSplural"@[4] == 'l',
        "GLSplural"@[5] == 'u',
        "GLSplural"@[6] == 'r',
        "GLSplural"@[7] == 'a',
        "GLSplural"@[8] == 'l',
        "glsfirstplural"@.len() == 14,
        "glsfirstplural"@[0] == 'g',
        "glsfirstplural"@[1] == 'l',
        "glsfirstplural"@[2] == 's',
        "glsfirstplural"@[3] == 'f',
        "glsfirstplural"@[4] == 'i',
        "glsfirstplural"@[5] == 'r',
        "glsfirstplural"@[6] == 's',
        "glsfirstplural"@[7] == 't',
        "glsfirstplural"@[8] == 'p',
        "glsfirstplural"@[9] == 'l',
        "glsfirstplural"@[10] == 'u',
        "glsfirstplural"@[11] == 'r',
        "glsfirstplural"@[12] == 'a',
        "glsfirstplural"@[13] == 'l',
        "Glsfirstplural"@.len() == 14,
        "Glsfirstplural"@[0] == 'G',
        "Glsfirstplural"@[1] == 'l',
        "Glsfirstplural"@[2] == 's',
        "Glsfirstplural"@[3] == 'f',
        "Glsfirstplural"@[4] == 'i',
        "Glsfirstplural"@[5] == 'r',
        "Glsfirstplural"@[6] == 's',
        "Glsfirstplural"@[7] == 't',
        "Glsfirstplural"@[8] == 'p',
        "Glsfirstplural"@[9] == 'l',
        "Glsfirstplural"@[10] == 'u',
        "Glsfirstplural"@[11] == 'r',
        "Glsfirstplural"@[12] == 'a',
        "Glsfirstplural"@[13] == 'l',
        "GLSfirstplural"@.len() == 14,
        "GLSfirstplural"@[0] == 'G',
        "GLSfirstplural"@[1] == 'L',
        "GLSfirstplural"@[2] == 'S',
        "GLSfirstplural"@[3] == 'f',
        "GLSfirstplural"@[4] == 'i',
        "GLSfirstplural"@[5] == 'r',
        "GLSfirstplural"@[6] == 's',
        "GLSfirstplural"@[7] == 't',
        "GLSfirstplural"@[8] == 'p',
        "GLSfirstplural"@[9] == 'l',
        "GLSfirstplural"@[10] == 'u',
        "GLSfirstplural"@[11] == 'r',
        "GLSfirstplural"@[12] == 'a',
        "GLSfirstplural"@[13] == 'l',
        "glsname"@.len() == 7,
        "glsname"@[0] == 'g',
        "glsname"@[1] == 'l',
        "glsname"@[2] == 's',
        "glsname"@[3] == 'n',
        "glsname"@[4] == 'a',
        "glsname"@[5] == 'm',
        "glsname"@[6] == 'e',
        "Glsname"@.len() == 7,
        "Glsname"@[0] == 'G',
        "Glsname"@[1] == 'l',
        "Glsname"@[2] == 's',
        "Glsname"@[3] == 'n',
        "Glsname"@[4] == 'a',
        "Glsname"@[5] == 'm',
        "Glsname"@[6] == 'e',
{
    reveal_strlit("glsplural");
    reveal_strlit("Glsplural");
    reveal_strlit("GLSplural");
    reveal_strlit("glsfirstplural");
    reveal_strlit("Glsfirstplural");
    reveal_strlit("GLSfirstplural");
    reveal_strlit("glsname");
    reveal_strlit("Glsname");
}

/// The length and characters of names of the command table (part 13).
proof fn lemma_names_12()
    ensures
        "GLSname"@.len() == 7,
        "GLSname"@[0] == 'G',
        "GLSname"@[1] == 'L',
        "GLSname"@[2] == 'S',
        "GLSname"@[3] == 'n',
        "GLSname"@[4] == 'a',
        "GLSname"@[5] == 'm',
        "GLSname"@[6] == 'e',
        "glssymbol"@.len() == 9,
        "glssymbol"@[0] == 'g',
        "glssymbol"@[1] == 'l',
        "glssymbol"@[2] == 's',
        "glssymbol"@[3] == 's',
        "glssymbol"@[4] == 'y',
        "glssymbol"@[5] == 'm',
        "glssymbol"@[6] == 'b',
        "glssymbol"@[7] == 'o',
        "glssymbol"@[8] == 'l',
        "Glssymbol"@.len() == 9,
        "Glssymbol"@[0] == 'G',
        "Glssymbol"@[1] == 'l',
        "Glssymbol"@[2] == 's',
        "Glssymbol"@[3] == 's',
        "Glssymbol"@[4] == 'y',
        "Glssymbol"@[5] == 'm',
        "Glssymbol"@[6] == 'b',
        "Glssymbol"@[7] == 'o',
        "Glssymbol"@[8] == 'l',
        "glsdesc"@.len() == 7,
        "glsdesc"@[0] == 'g',
        "glsdesc"@[1] == 'l',
        "glsdesc"@[2] == 's',
        "glsdesc"@[3] == 'd',
        "glsdesc"@[4] == 'e',
        "glsdesc"@[5] == 's',
        "glsdesc"@[6] == 'c',
        "Glsdesc"@.len() == 7,
        "Glsdesc"@[0] == 'G',
        "Glsdesc"@[1] == 'l',
        "Glsdesc"@[2] == 's',
        "Glsdesc"@[3] == 'd',
        "Glsdesc"@[4] == 'e',
        "Glsdesc"@[5] == 's',
        "Glsdesc"@[6] == 'c',
        "GLSdesc"@.len() == 7,
        "GLSdesc"@[0] == 'G',
        "GLSdesc"@[1] == 'L',
        "GLSdesc"@[2] == 'S',
        "GLSdesc"@[3] == 'd',
        "GLSdesc"@[4] == 'e',
        "GLSdesc"@[5] == 's',
        "GLSdesc"@[6] == 'c',
        "glsuseri"@.len() == 8,
        "glsuseri"@[0] == 'g',
        "glsuseri"@[1] == 'l',
        "glsuseri"@[2] == 's',
        "glsuseri"@[3] == 'u',
        "glsuseri"@[4] == 's',
        "glsuseri"@[5] == 'e',
        "glsuseri"@[6] == 'r',
        "glsuseri"@[7] == 'i',
        "Glsuseri"@.len() == 8,
        "Glsuseri"@[0] == 'G',
        "Glsuseri"@[1] == 'l',
        "Glsuseri"@[2] == 's',
        "Glsuseri"@[3] == 'u',
        "Glsuseri"@[4] == 's',
        "Glsuseri"@[5] == 'e',
        "Glsuseri"@[6] == 'r',
        "Glsuseri"@[7] == 'i',
{
    reveal_strlit("GLSname");
    reveal_strlit("glssymbol");
    reveal_strlit("Glssymbol");
    reveal_strlit("glsdesc");
    reveal_strlit("Glsdesc");
    reveal_strlit("GLSdesc");
    reveal_strlit("glsuseri");
    reveal_strlit("Glsuseri");
}

/// The length and characters of names of the command table (part 14).
proof fn lemma_names_13()
    ensures
        "GLSuseri"@.len() == 8,
        "GLSuseri"@[0] == 'G',
        "GLSuseri"@[1] == 'L',
        "GLSuseri"@[2] == 'S',
        "GLSuseri"@[3] == 'u',
        "GLSuseri"@[4] == 's',
        "GLSuseri"@[5] == 'e',
        "GLSuseri"@[6] == 'r',
        "GLSuseri"@[7] == 'i',
        "glsuserii"@.len() == 9,
        "glsuserii"@[0] == 'g',
        "glsuserii"@[1] == 'l',
        "glsuserii"@[2] == 's',
        "glsuserii"@[3] == 'u',
        "glsuserii"@[4] == 's',
        "glsuserii"@[5] == 'e',
        "glsuserii"@[6] == 'r',
        "glsuserii"@[7] == 'i',
        "glsuserii"@[8] == 'i',
        "Glsuserii"@.len() == 9,
        "Glsuserii"@[0] == 'G',
        "Glsuserii"@[1] == 'l',
        "Glsuserii"@[2] == 's',
        "Glsuserii"@[3] == 'u',
        "Glsuserii"@[4] == 's',
        "Glsuserii"@[5] == 'e',
        "Glsuserii"@[6] == 'r',
        "Glsuserii"@[7] == 'i',
        "Glsuserii"@[8] == 'i',
        "glsuseriii"@.len() == 10,
        "glsuseriii"@[0] == 'g',
        "glsuseriii"@[1] == 'l',
        "glsuseriii"@[2] == 's',
        "glsuseriii"@[3] == 'u',
        "glsuseriii"@[4] == 's',
        "glsuseriii"@[5] == 'e',
        "glsuseriii"@[6] == 'r',
        "glsuseriii"@[7] == 'i',
        "glsuseriii"@[8] == 'i',
        "glsuseriii"@[9] == 'i',
        "glsuseriv"@.len() == 9,
        "glsuseriv"@[0] == 'g',
        "glsuseriv"@[1] == 'l',
        "glsuseriv"@[2] == 's',
        "glsuseriv"@[3] == 'u',
        "glsuseriv"@[4] == 's',
        "glsuseriv"@[5] == 'e',
        "glsuseriv"@[6] == 'r',
        "glsuseriv"@[7] == 'i',
        "glsuseriv"@[8] == 'v',
        "Glsuseriv"@.len() == 9,
        "Glsuseriv"@[0] == 'G',
        "Glsuseriv"@[1] == 'l',
        "Glsuseriv"@[2] == 's',
        "Glsuseriv"@[3] == 'u',
        "Glsuseriv"@[4] == 's',
        "Glsuseriv"@[5] == 'e',
        "Glsuseriv"@[6] == 'r',
        "Glsuseriv"@[7] == 'i',
        "Glsuseriv"@[8] == 'v',
        "GLSuseriv"@.len() == 9,
        "GLSuseriv"@[0] == 'G',
        "GLSuseriv"@[1] == 'L',
        "GLSuseriv"@[2] == 'S',
        "GLSuseriv"@[3] == 'u',
        "GLSuseriv"@[4] == 's',
        "GLSuseriv"@[5] == 'e',
        "GLSuseriv"@[6] == 'r',
        "GLSuseriv"@[7] == 'i',
        "GLSuseriv"@[8] == 'v',
        "glsuserv"@.len() == 8,
        "glsuserv"@[0] == 'g',
        "glsuserv"@[1] == 'l',
        "glsuserv"@[2] == 's',
        "glsuserv"@[3] == 'u',
        "glsuserv"@[4] == 's',
        "glsuserv"@[5] == 'e',
        "glsuserv"@[6] == 'r',
        "glsuserv"@[7] == 'v',
{
    reveal_strlit("GLSuseri");
    reveal_strlit("glsuserii");
    reveal_strlit("Glsuserii");
    reveal_strlit("glsuseriii");
    reveal_strlit("glsuseriv");
    reveal_strlit("Glsuseriv");
    reveal_strlit("GLSuseriv");
    reveal_strlit("glsuserv");
}

/// The length and characters of names of the command table (part 15).
proof fn lemma_names_14()
    ensures
        "Glsuserv"@.len() == 8,
        "Glsuserv"@[0] == 'G',
        "Glsuserv"@[1] == 'l',
        "Glsuserv"@[2] == 's',
        "Glsuserv"@[3] == 'u',
        "Glsuserv"@[4] == 's',
        "Glsuserv"@[5] == 'e',
        "Glsuserv"@[6] == 'r',
        "Glsuserv"@[7] == 'v',
        "GLSuserv"@.len() == 8,
        "GLSuserv"@[0] == 'G',
        "GLSuserv"@[1] == 'L',
        "GLSuserv"@[2] == 'S',
        "GLSuserv"@[3] == 'u',
        "GLSuserv"@[4] == 's',
        "GLSuserv"@[5] == 'e',
        "GLSuserv"@[6] == 'r',
        "GLSuserv"@[7] == 'v',
        "glsuservi"@.len() == 9,
        "glsuservi"@[0] == 'g',
        "glsuservi"@[1] == 'l',
        "glsuservi"@[2] == 's',
        "glsuservi"@[3] == 'u',
        "glsuservi"@[4] == 's',
        "glsuservi"@[5] == 'e',
        "glsuservi"@[6] == 'r',
        "glsuservi"@[7] == 'v',
        "glsuservi"@[8] == 'i',
        "Glsuservi"@.len() == 9,
        "Glsuservi"@[0] == 'G',
        "Glsuservi"@[1] == 'l',
        "Glsuservi"@[2] == 's',
        "Glsuservi"@[3] == 'u',
        "Glsuservi"@[4] == 's',
        "Glsuservi"@[5] == 'e',
        "Glsuservi"@[6] == 'r',
        "Glsuservi"@[7] == 'v',
        "Glsuservi"@[8] == 'i',
        "GLSuservi"@.len() == 9,
        "GLSuservi"@[0] == 'G',
        "GLSuservi"@[1] == 'L',
        "GLSuservi"@[2] == 'S',
        "GLSuservi"@[3] == 'u',
        "GLSuservi"@[4] == 's',
        "GLSuservi"@[5] == 'e',
        "GLSuservi"@[6] == 'r',
        "GLSuservi"@[7] == 'v',
        "GLSuservi"@[8] == 'i',
        "newacronym"@.len() == 10,
        "newacronym"@[0] == 'n',
        "newacronym"@[1] == 'e',
        "newacronym"@[2] == 'w',
        "newacronym"@[3] == 'a',
        "newacronym"@[4] == 'c',
        "newacronym"@[5] == 'r',
        "newacronym"@[6] == 'o',
        "newacronym"@[7] == 'n',
        "newacronym"@[8] == 'y',
        "newacronym"@[9] == 'm',
        "newacro"@.len() == 7,
        "newacro"@[0] == 'n',
        "newacro"@[1] == 'e',
        "newacro"@[2] == 'w',
        "newacro"@[3] == 'a',
        "newacro"@[4] == 'c',
        "newacro"@[5] == 'r',
        "newacro"@[6] == 'o',
        "acrodef"@.len() == 7,
        "acrodef"@[0] == 'a',
        "acrodef"@[1] == 'c',
        "acrodef"@[2] == 'r',
        "acrodef"@[3] == 'o',
        "acrodef"@[4] == 'd',
        "acrodef"@[5] == 'e',
        "acrodef"@[6] == 'f',
{
    reveal_strlit("Glsuserv");
    reveal_strlit("GLSuserv");
    reveal_strlit("glsuservi");
    reveal_strlit("Glsuservi");
    reveal_strlit("GLSuservi");
    reveal_strlit("newacronym");
    reveal_strlit("newacro");
    reveal_strlit("acrodef");
}

/// The length and characters of names of the command table (part 16).
proof fn lemma_names_15()
    ensures
        "acro"@.len() == 4,
        "acro"@[0] == 'a',
        "acro"@[1] == 'c',
        "acro"@[2] == 'r',
        "acro"@[3] == 'o',
        "newacroindefinite"@.len() == 17,
        "newacroindefinite"@[0] == 'n',
        "newacroindefinite"@[1] == 'e',
        "newacroindefinite"@[2] == 'w',
        "newacroindefinite"@[3] == 'a',
        "newacroindefinite"@[4] == 'c',
        "newacroindefinite"@[5] == 'r',
        "newacroindefinite"@[6] == 'o',
        "newacroindefinite"@[7] == 'i',
        "newacroindefinite"@[8] == 'n',
        "newacroindefinite"@[9] == 'd',
        "newacroindefinite"@[10] == 'e',
        "newacroindefinite"@[11] == 'f',
        "newacroindefinite"@[12] == 'i',
        "newacroindefinite"@[13] == 'n',
        "newacroindefinite"@[14] == 'i',
        "newacroindefinite"@[15] == 't',
        "newacroindefinite"@[16] == 'e',
        "acrodefindefinite"@.len() == 17,
        "acrodefindefinite"@[0] == 'a',
        "acrodefindefinite"@[1] == 'c',
        "acrodefindefinite"@[2] == 'r',
        "acrodefindefinite"@[3] == 'o',
        "acrodefindefinite"@[4] == 'd',
        "acrodefindefinite"@[5] == 'e',
        "acrodefindefinite"@[6] == 'f',
        "acrodefindefinite"@[7] == 'i',
        "acrodefindefinite"@[8] == 'n',
        "acrodefindefinite"@[9] == 'd',
        "acrodefindefinite"@[10] == 'e',
        "acrodefindefinite"@[11] == 'f',
        "acrodefindefinite"@[12] == 'i',
        "acrodefindefinite"@[13] == 'n',
        "acrodefindefinite"@[14] == 'i',
        "acrodefindefinite"@[15] == 't',
        "acrodefindefinite"@[16] == 'e',
        "acroindefinite"@.len() == 14,
        "acroindefinite"@[0] == 'a',
        "acroindefinite"@[1] == 'c',
        "acroindefinite"@[2] == 'r',
        "acroindefinite"@[3] == 'o',
        "acroindefinite"@[4] == 'i',
        "acroindefinite"@[5] == 'n',
        "acroindefinite"@[6] == 'd',
        "acroindefinite"@[7] == 'e',
        "acroindefinite"@[8] == 'f',
        "acroindefinite"@[9] == 'i',
        "acroindefinite"@[10] == 'n',
        "acroindefinite"@[11] == 'i',
        "acroindefinite"@[12] == 't',
        "acroindefinite"@[13] == 'e',
        "acroplural"@.len() == 10,
        "acroplural"@[0] == 'a',
        "acroplural"@[1] == 'c',
        "acroplural"@[2] == 'r',
        "acroplural"@[3] == 'o',
        "acroplural"@[4] == 'p',
        "acroplural"@[5] == 'l',
        "acroplural"@[6] == 'u',
        "acroplural"@[7] == 'r',
        "acroplural"@[8] == 'a',
        "acroplural"@[9] == 'l',
        "newacroplural"@.len() == 13,
        "newacroplural"@[0] == 'n',
        "newacroplural"@[1] == 'e',
        "newacroplural"@[2] == 'w',
        "newacroplural"@[3] == 'a',
        "newacroplural"@[4] == 'c',
        "newacroplural"@[5] == 'r',
        "newacroplural"@[6] == 'o',
        "newacroplural"@[7] == 'p',
        "newacroplural"@[8] == 'l',
        "newacroplural"@[9] == 'u',
        "newacroplural"@[10] == 'r',
        "newacroplural"@[11] == 'a',
        "newacroplural"@[12] == 'l',
        "acrodefplural"@.len() == 13,
        "acrodefplural"@[0] == 'a',
        "acrodefplural"@[1] == 'c',
        "acrodefplural"@[2] == 'r',
        "acrodefplural"@[3] == 'o',
        "acrodefplural"@[4] == 'd',
        "acrodefplural"@[5] == 'e',
        "acrodefplural"@[6] == 'f',
        "acrodefplural"@[7] == 'p',
        "acrodefplural"@[8] == 'l',
        "acrodefplural"@[9] == 'u',
        "acrodefplural"@[10] == 'r',
        "acrodefplural"@[11] == 'a',
        "acrodefplural"@[12] == 'l',
        "DeclareAcronym"@.len() == 14,
        "DeclareAcronym"@[0] == 'D',
        "DeclareAcronym"@[1] == 'e',
        "DeclareAcronym"@[2] == 'c',
        "DeclareAcronym"@[3] == 'l',
        "DeclareAcronym"@[4] == 'a',
        "DeclareAcronym"@[5] == 'r',
        "DeclareAcronym"@[6] == 'e',
        "DeclareAcronym"@[7] == 'A',
        "DeclareAcronym"@[8] == 'c',
        "DeclareAcronym"@[9] == 'r',
        "DeclareAcronym"@[10] == 'o',
        "DeclareAcronym"@[11] == 'n',
        "DeclareAcronym"@[12] == 'y',
        "DeclareAcronym"@[13] == 'm',
{
    reveal_strlit("acro");
    reveal_strlit("newacroindefinite");
    reveal_strlit("acrodefindefinite");
    reveal_strlit("acroindefinite");
    reveal_strlit("acroplural");
    reveal_strlit("newacroplural");
    reveal_strlit("acrodefplural");
    reveal_strlit("DeclareAcronym");
}

/// The length and characters of names of the command table (part 17).
proof fn lemma_names_16()
    ensures
        "acrshort"@.len() == 8,
        "acrshort"@[0] == 'a',
        "acrshort"@[1] == 'c',
        "acrshort"@[2] == 'r',
        "acrshort"@[3] == 's',
        "acrshort"@[4] == 'h',
        "acrshort"@[5] == 'o',
        "acrshort"@[6] == 'r',
        "acrshort"@[7] == 't',
        "Acrshort"@.len() == 8,
        "Acrshort"@[0] == 'A',
        "Acrshort"@[1] == 'c',
        "Acrshort"@[2] == 'r',
        "Acrshort"@[3] == 's',
        "Acrshort"@[4] == 'h',
        "Acrshort"@[5] == 'o',
        "Acrshort"@[6] == 'r',
        "Acrshort"@[7] == 't',
        "ACRshort"@.len() == 8,
        "ACRshort"@[0] == 'A',
        "ACRshort"@[1] == 'C',
        "ACRshort"@[2] == 'R',
        "ACRshort"@[3] == 's',
        "ACRshort"@[4] == 'h',
        "ACRshort"@[5] == 'o',
        "ACRshort"@[6] == 'r',
        "ACRshort"@[7] == 't',
        "acrshortpl"@.len() == 10,
        "acrshortpl"@[0] == 'a',
        "acrshortpl"@[1] == 'c',
        "acrshortpl"@[2] == 'r',
        "acrshortpl"@[3] == 's',
        "acrshortpl"@[4] == 'h',
        "acrshortpl"@[5] == 'o',
        "acrshortpl"@[6] == 'r',
        "acrshortpl"@[7] == 't',
        "acrshortpl"@[8] == 'p',
        "acrshortpl"@[9] == 'l',
        "Acrshortpl"@.len() == 10,
        "Acrshortpl"@[0] == 'A',
        "Acrshortpl"@[1] == 'c',
        "Acrshortpl"@[2] == 'r',
        "Acrshortpl"@[3] == 's',
        "Acrshortpl"@[4] == 'h',
        "Acrshortpl"@[5] == 'o',
        "Acrshortpl"@[6] == 'r',
        "Acrshortpl"@[7] == 't',
        "Acrshortpl"@[8] == 'p',
        "Acrshortpl"@[9] == 'l',
        "ACRshortpl"@.len() == 10,
        "ACRshortpl"@[0] == 'A',
        "ACRshortpl"@[1] == 'C',
        "ACRshortpl"@[2] == 'R',
        "ACRshortpl"@[3] == 's',
        "ACRshortpl"@[4] == 'h',
        "ACRshortpl"@[5] == 'o',
        "ACRshortpl"@[6] == 'r',
        "ACRshortpl"@[7] == 't',
        "ACRshortpl"@[8] == 'p',
        "ACRshortpl"@[9] == 'l',
        "acrlong"@.len() == 7,
        "acrlong"@[0] == 'a',
        "acrlong"@[1] == 'c',
        "acrlong"@[2] == 'r',
        "acrlong"@[3] == 'l',
        "acrlong"@[4] == 'o',
        "acrlong"@[5] == 'n',
        "acrlong"@[6] == 'g',
        "Acrlong"@.len() == 7,
        "Acrlong"@[0] == 'A',
        "Acrlong"@[1] == 'c',
        "Acrlong"@[2] == 'r',
        "Acrlong"@[3] == 'l',
        "Acrlong"@[4] == 'o',
        "Acrlong"@[5] == 'n',
        "Acrlong"@[6] == 'g',
{
    reveal_strlit("acrshort");
    reveal_strlit("Acrshort");
    reveal_strlit("ACRshort");
    reveal_strlit("acrshortpl");
    reveal_strlit("Acrshortpl");
    reveal_strlit("ACRshortpl");
    reveal_strlit("acrlong");
    reveal_strlit("Acrlong");
}

/// The length and characters of names of the command table (part 18).
proof fn lemma_names_17()
    ensures
        "ACRlong"@.len() == 7,
        "ACRlong"@[0] == 'A',
        "ACRlong"@[1] == 'C',
        "ACRlong"@[2] == 'R',
        "ACRlong"@[3] == 'l',
        "ACRlong"@[4] == 'o',
        "ACRlong"@[5] == 'n',
        "ACRlong"@[6] == 'g',
        "acrlongpl"@.len() == 9,
        "acrlongpl"@[0] == 'a',
        "acrlongpl"@[1] == 'c',
        "acrlongpl"@[2] == 'r',
        "acrlongpl"@[3] == 'l',
        "acrlongpl"@[4] == 'o',
        "acrlongpl"@[5] == 'n',
        "acrlongpl"@[6] == 'g',
        "acrlongpl"@[7] == 'p',
        "acrlongpl"@[8] == 'l',
        "Acrlongpl"@.len() == 9,
        "Acrlongpl"@[0] == 'A',
        "Acrlongpl"@[1] == 'c',
        "Acrlongpl"@[2] == 'r',
        "Acrlongpl"@[3] == 'l',
        "Acrlongpl"@[4] == 'o',
        "Acrlongpl"@[5] == 'n',
        "Acrlongpl"@[6] == 'g',
        "Acrlongpl"@[7] == 'p',
        "Acrlongpl"@[8] == 'l',
        "ACRlongpl"@.len() == 9,
        "ACRlongpl"@[0] == 'A',
        "ACRlongpl"@[1] == 'C',
        "ACRlongpl"@[2] == 'R',
        "ACRlongpl"@[3] == 'l',
        "ACRlongpl"@[4] == 'o',
        "ACRlongpl"@[5] == 'n',
        "ACRlongpl"@[6] == 'g',
        "ACRlongpl"@[7] == 'p',
        "ACRlongpl"@[8] == 'l',
        "acrfull"@.len() == 7,
        "acrfull"@[0] == 'a',
        "acrfull"@[1] == 'c',
        "acrfull"@[2] == 'r',
        "acrfull"@[3] == 'f',
        "acrfull"@[4] == 'u',
        "acrfull"@[5] == 'l',
        "acrfull"@[6] == 'l',
        "Acrfull"@.len() == 7,
        "Acrfull"@[0] == 'A',
        "Acrfull"@[1] == 'c',
        "Acrfull"@[2] == 'r',
        "Acrfull"@[3] == 'f',
        "Acrfull"@[4] == 'u',
        "Acrfull"@[5] == 'l',
        "Acrfull"@[6] == 'l',
        "ACRfull"@.len() == 7,
        "ACRfull"@[0] == 'A',
        "ACRfull"@[1] == 'C',
        "ACRfull"@[2] == 'R',
        "ACRfull"@[3] == 'f',
        "ACRfull"@[4] == 'u',
        "ACRfull"@[5] == 'l',
        "ACRfull"@[6] == 'l',
        "acrfullpl"@.len() == 9,
        "acrfullpl"@[0] == 'a',
        "acrfullpl"@[1] == 'c',
        "acrfullpl"@[2] == 'r',
        "acrfullpl"@[3] == 'f',
        "acrfullpl"@[4] == 'u',
        "acrfullpl"@[5] == 'l',
        "acrfullpl"@[6] == 'l',
        "acrfullpl"@[7] == 'p',
        "acrfullpl"@[8] == 'l',
{
    reveal_strlit("ACRlong");
    reveal_strlit("acrlongpl");
    reveal_strlit("Acrlongpl");
    reveal_strlit("ACRlongpl");
    reveal_strlit("acrfull");
    reveal_strlit("Acrfull");
    reveal_strlit("ACRfull");
    reveal_strlit("acrfullpl");
}

/// The length and characters of names of the command table (part 19).
proof fn lemma_names_18()
    ensures
        "Acrfullpl"@.len() == 9,
        "Acrfullpl"@[0] == 'A',
        "Acrfullpl"@[1] == 'c',
        "Acrfullpl"@[2] == 'r',
        "Acrfullpl"@[3] == 'f',
        "Acrfullpl"@[4] == 'u',
        "Acrfullpl"@[5] == 'l',
        "Acrfullpl"@[6] == 'l',
        "Acrfullpl"@[7] == 'p',
        "Acrfullpl"@[8] == 'l',
        "ACRfullpl"@.len() == 9,
        "ACRfullpl"@[0] == 'A',
        "ACRfullpl"@[1] == 'C',
        "ACRfullpl"@[2] == 'R',
        "ACRfullpl"@[3] == 'f',
        "ACRfullpl"@[4] == 'u',
        "ACRfullpl"@[5] == 'l',
        "ACRfullpl"@[6] == 'l',
        "ACRfullpl"@[7] == 'p',
        "ACRfullpl"@[8] == 'l',
        "acs"@.len() == 3,
        "acs"@[0] == 'a',
        "acs"@[1] == 'c',
        "acs"@[2] == 's',
        "Acs"@.len() == 3,
        "Acs"@[0] == 'A',
        "Acs"@[1] == 'c',
        "Acs"@[2] == 's',
        "acsp"@.len() == 4,
        "acsp"@[0] == 'a',
        "acsp"@[1] == 'c',
        "acsp"@[2] == 's',
        "acsp"@[3] == 'p',
        "Acsp"@.len() == 4,
        "Acsp"@[0] == 'A',
        "Acsp"@[1] == 'c',
        "Acsp"@[2] == 's',
        "Acsp"@[3] == 'p',
        "acl"@.len() == 3,
        "acl"@[0] == 'a',
        "acl"@[1] == 'c',
        "acl"@[2] == 'l',
        "Acl"@.len() == 3,
        "Acl"@[0] == 'A',
        "Acl"@[1] == 'c',
        "Acl"@[2] == 'l',
{
    reveal_strlit("Acrfullpl");
    reveal_strlit("ACRfullpl");
    reveal_strlit("acs");
    reveal_strlit("Acs");
    reveal_strlit("acsp");
    reveal_strlit("Acsp");
    reveal_strlit("acl");
    reveal_strlit("Acl");
}

/// The length and characters of names of the command table (part 20).
proof fn lemma_names_19()
    ensures
        "aclp"@.len() == 4,
        "aclp"@[0] == 'a',
        "aclp"@[1] == 'c',
        "aclp"@[2] == 'l',
        "aclp"@[3] == 'p',
        "Aclp"@.len() == 4,
        "Aclp"@[0] == 'A',
        "Aclp"@[1] == 'c',
        "Aclp"@[2] == 'l',
        "Aclp"@[3] == 'p',
        "acf"@.len() == 3,
        "acf"@[0] == 'a',
        "acf"@[1] == 'c',
        "acf"@[2] == 'f',
        "Acf"@.len() == 3,
        "Acf"@[0] == 'A',
        "Acf"@[1] == 'c',
        "Acf"@[2] == 'f',
        "acfi"@.len() == 4,
        "acfi"@[0] == 'a',
        "acfi"@[1] == 'c',
        "acfi"@[2] == 'f',
        "acfi"@[3] == 'i',
        "Acfi"@.len() == 4,
        "Acfi"@[0] == 'A',
        "Acfi"@[1] == 'c',
        "Acfi"@[2] == 'f',
        "Acfi"@[3] == 'i',
        "acfp"@.len() == 4,
        "acfp"@[0] == 'a',
        "acfp"@[1] == 'c',
        "acfp"@[2] == 'f',
        "acfp"@[3] == 'p',
        "Acfp"@.len() == 4,
        "Acfp"@[0] == 'A',
        "Acfp"@[1] == 'c',
        "Acfp"@[2] == 'f',
        "Acfp"@[3] == 'p',
{
    reveal_strlit("aclp");
    reveal_strlit("Aclp");
    reveal_strlit("acf");
    reveal_strlit("Acf");
    reveal_strlit("acfi");
    reveal_strlit("Acfi");
    reveal_strlit("acfp");
    reveal_strlit("Acfp");
}

/// The length and characters of names of the command table (part 21).
proof fn lemma_names_20()
    ensures
        "ac"@.len() == 2,
        "ac"@[0] == 'a',
        "ac"@[1] == 'c',
        "Ac"@.len() == 2,
        "Ac"@[0] == 'A',
        "Ac"@[1] == 'c',
        "acp"@.len() == 3,
        "acp"@[0] == 'a',
        "acp"@[1] == 'c',
        "acp"@[2] == 'p',
        "Acp"@.len() == 3,
        "Acp"@[0] == 'A',
        "Acp"@[1] == 'c',
        "Acp"@[2] == 'p',
        "acused"@.len() == 6,
        "acused"@[0] == 'a',
        "acused"@[1] == 'c',
        "acused"@[2] == 'u',
        "acused"@[3] == 's',
        "acused"@[4] == 'e',
        "acused"@[5] == 'd',
        "acsu"@.len() == 4,
        "acsu"@[0] == 'a',
        "acsu"@[1] == 'c',
        "acsu"@[2] == 's',
        "acsu"@[3] == 'u',
        "Aclu"@.len() == 4,
        "Aclu"@[0] == 'A',
        "Aclu"@[1] == 'c',
        "Aclu"@[2] == 'l',
        "Aclu"@[3] == 'u',
        "iac"@.len() == 3,
        "iac"@[0] == 'i',
        "iac"@[1] == 'a',
        "iac"@[2] == 'c',
{
    reveal_strlit("ac");
    reveal_strlit("Ac");
    reveal_strlit("acp");
    reveal_strlit("Acp");
    reveal_strlit("acused");
    reveal_strlit("acsu");
    reveal_strlit("Aclu");
    reveal_strlit("iac");
}

/// The length and characters of names of the command table (part 22).
proof fn lemma_names_21()
    ensures
        "Iac"@.len() == 3,
        "Iac"@[0] == 'I',
        "Iac"@[1] == 'a',
        "Iac"@[2] == 'c',
        "acs*"@.len() == 4,
        "acs*"@[0] == 'a',
        "acs*"@[1] == 'c',
        "acs*"@[2] == 's',
        "acs*"@[3] == '*',
        "Acs*"@.len() == 4,
        "Acs*"@[0] == 'A',
        "Acs*"@[1] == 'c',
        "Acs*"@[2] == 's',
        "Acs*"@[3] == '*',
        "acsp*"@.len() == 5,
        "acsp*"@[0] == 'a',
        "acsp*"@[1] == 'c',
        "acsp*"@[2] == 's',
        "acsp*"@[3] == 'p',
        "acsp*"@[4] == '*',
        "Acsp*"@.len() == 5,
        "Acsp*"@[0] == 'A',
        "Acsp*"@[1] == 'c',
        "Acsp*"@[2] == 's',
        "Acsp*"@[3] == 'p',
        "Acsp*"@[4] == '*',
        "acl*"@.len() == 4,
        "acl*"@[0] == 'a',
        "acl*"@[1] == 'c',
        "acl*"@[2] == 'l',
        "acl*"@[3] == '*',
        "Acl*"@.len() == 4,
        "Acl*"@[0] == 'A',
        "Acl*"@[1] == 'c',
        "Acl*"@[2] == 'l',
        "Acl*"@[3] == '*',
        "aclp*"@.len() == 5,
        "aclp*"@[0] == 'a',
        "aclp*"@[1] == 'c',
        "aclp*"@[2] == 'l',
        "aclp*"@[3] == 'p',
        "aclp*"@[4] == '*',
{
    reveal_strlit("Iac");
    reveal_strlit("acs*");
    reveal_strlit("Acs*");
    reveal_strlit("acsp*");
    reveal_strlit("Acsp*");
    reveal_strlit("acl*");
    reveal_strlit("Acl*");
    reveal_strlit("aclp*");
}

/// The length and characters of names of the command table (part 23).
proof fn lemma_names_22()
    ensures
        "Aclp*"@.len() == 5,
        "Aclp*"@[0] == 'A',
        "Aclp*"@[1] == 'c',
        "Aclp*"@[2] == 'l',
        "Aclp*"@[3] == 'p',
        "Aclp*"@[4] == '*',
        "acf*"@.len() == 4,
        "acf*"@[0] == 'a',
        "acf*"@[1] == 'c',
        "acf*"@[2] == 'f',
        "acf*"@[3] == '*',
        "Acf*"@.len() == 4,
        "Acf*"@[0] == 'A',
        "Acf*"@[1] == 'c',
        "Acf*"@[2] == 'f',
        "Acf*"@[3] == '*',
        "acfi*"@.len() == 5,
        "acfi*"@[0] == 'a',
        "acfi*"@[1] == 'c',
        "acfi*"@[2] == 'f',
        "acfi*"@[3] == 'i',
        "acfi*"@[4] == '*',
        "Acfi*"@.len() == 5,
        "Acfi*"@[0] == 'A',
        "Acfi*"@[1] == 'c',
        "Acfi*"@[2] == 'f',
        "Acfi*"@[3] == 'i',
        "Acfi*"@[4] == '*',
        "acfp*"@.len() == 5,
        "acfp*"@[0] == 'a',
        "acfp*"@[1] == 'c',
        "acfp*"@[2] == 'f',
        "acfp*"@[3] == 'p',
        "acfp*"@[4] == '*',
        "Acfp*"@.len() == 5,
        "Acfp*"@[0] == 'A',
        "Acfp*"@[1] == 'c',
        "Acfp*"@[2] == 'f',
        "Acfp*"@[3] == 'p',
        "Acfp*"@[4] == '*',
        "ac*"@.len() == 3,
        "ac*"@[0] == 'a',
        "ac*"@[1] == 'c',
        "ac*"@[2] == '*',
{
    reveal_strlit("Aclp*");
    reveal_strlit("acf*");
    reveal_strlit("Acf*");
    reveal_strlit("acfi*");
    reveal_strlit("Acfi*");
    reveal_strlit("acfp*");
    reveal_strlit("Acfp*");
    reveal_strlit("ac*");
}

/// The length and characters of names of the command table (part 24).
proof fn lemma_names_23()
    ensures
        "Ac*"@.len() == 3,
        "Ac*"@[0] == 'A',
        "Ac*"@[1] == 'c',
        "Ac*"@[2] == '*',
        "acp*"@.len() == 4,
        "acp*"@[0] == 'a',
        "acp*"@[1] == 'c',
        "acp*"@[2] == 'p',
        "acp*"@[3] == '*',
        "Acp*"@.len() == 4,
        "Acp*"@[0] == 'A',
        "Acp*"@[1] == 'c',
        "Acp*"@[2] == 'p',
        "Acp*"@[3] == '*',
        "acused*"@.len() == 7,
        "acused*"@[0] == 'a',
        "acused*"@[1] == 'c',
        "acused*"@[2] == 'u',
        "acused*"@[3] == 's',
        "acused*"@[4] == 'e',
        "acused*"@[5] == 'd',
        "acused*"@[6] == '*',
        "acsu*"@.len() == 5,
        "acsu*"@[0] == 'a',
        "acsu*"@[1] == 'c',
        "acsu*"@[2] == 's',
        "acsu*"@[3] == 'u',
        "acsu*"@[4] == '*',
        "Aclu*"@.len() == 5,
        "Aclu*"@[0] == 'A',
        "Aclu*"@[1] == 'c',
        "Aclu*"@[2] == 'l',
        "Aclu*"@[3] == 'u',
        "Aclu*"@[4] == '*',
        "iac*"@.len() == 4,
        "iac*"@[0] == 'i',
        "iac*"@[1] == 'a',
        "iac*"@[2] == 'c',
        "iac*"@[3] == '*',
        "Iac*"@.len() == 4,
        "Iac*"@[0] == 'I',
        "Iac*"@[1] == 'a',
        "Iac*"@[2] == 'c',
        "Iac*"@[3] == '*',
{
    reveal_strlit("Ac*");
    reveal_strlit("acp*");
    reveal_strlit("Acp*");
    reveal_strlit("acused*");
    reveal_strlit("acsu*");
    reveal_strlit("Aclu*");
    reveal_strlit("iac*");
    reveal_strlit("Iac*");
}

/// The length and characters of names of the command table (part 25).
proof fn lemma_names_24()
    ensures
        "glsentrylong"@.len() == 12,
        "glsentrylong"@[0] == 'g',
        "glsentrylong"@[1] == 'l',
        "glsentrylong"@[2] == 's',
        "glsentrylong"@[3] == 'e',
        "glsentrylong"@[4] == 'n',
        "glsentrylong"@[5] == 't',
        "glsentrylong"@[6] == 'r',
        "glsentrylong"@[7] == 'y',
        "glsentrylong"@[8] == 'l',
        "glsentrylong"@[9] == 'o',
        "glsentrylong"@[10] == 'n',
        "glsentrylong"@[11] == 'g',
        "Glsentrylong"@.len() == 12,
        "Glsentrylong"@[0] == 'G',
        "Glsentrylong"@[1] == 'l',
        "Glsentrylong"@[2] == 's',
        "Glsentrylong"@[3] == 'e',
        "Glsentrylong"@[4] == 'n',
        "Glsentrylong"@[5] == 't',
        "Glsentrylong"@[6] == 'r',
        "Glsentrylong"@[7] == 'y',
        "Glsentrylong"@[8] == 'l',
        "Glsentrylong"@[9] == 'o',
        "Glsentrylong"@[10] == 'n',
        "Glsentrylong"@[11] == 'g',
        "glsentrylongpl"@.len() == 14,
        "glsentrylongpl"@[0] == 'g',
        "glsentrylongpl"@[1] == 'l',
        "glsentrylongpl"@[2] == 's',
        "glsentrylongpl"@[3] == 'e',
        "glsentrylongpl"@[4] == 'n',
        "glsentrylongpl"@[5] == 't',
        "glsentrylongpl"@[6] == 'r',
        "glsentrylongpl"@[7] == 'y',
        "glsentrylongpl"@[8] == 'l',
        "glsentrylongpl"@[9] == 'o',
        "glsentrylongpl"@[10] == 'n',
        "glsentrylongpl"@[11] == 'g',
        "glsentrylongpl"@[12] == 'p',
        "glsentrylongpl"@[13] == 'l',
        "Glsentrylongpl"@.len() == 14,
        "Glsentrylongpl"@[0] == 'G',
        "Glsentrylongpl"@[1] == 'l',
        "Glsentrylongpl"@[2] == 's',
        "Glsentrylongpl"@[3] == 'e',
        "Glsentrylongpl"@[4] == 'n',
        "Glsentrylongpl"@[5] == 't',
        "Glsentrylongpl"@[6] == 'r',
        "Glsentrylongpl"@[7] == 'y',
        "Glsentrylongpl"@[8] == 'l',
        "Glsentrylongpl"@[9] == 'o',
        "Glsentrylongpl"@[10] == 'n',
        "Glsentrylongpl"@[11] == 'g',
        "Glsentrylongpl"@[12] == 'p',
        "Glsentrylongpl"@[13] == 'l',
        "glsentryshort"@.len() == 13,
        "glsentryshort"@[0] == 'g',
        "glsentryshort"@[1] == 'l',
        "glsentryshort"@[2] == 's',
        "glsentryshort"@[3] == 'e',
        "glsentryshort"@[4] == 'n',
        "glsentryshort"@[5] == 't',
        "glsentryshort"@[6] == 'r',
        "glsentryshort"@[7] == 'y',
        "glsentryshort"@[8] == 's',
        "glsentryshort"@[9] == 'h',
        "glsentryshort"@[10] == 'o',
        "glsentryshort"@[11] == 'r',
        "glsentryshort"@[12] == 't',
        "Glsentryshort"@.len() == 13,
        "Glsentryshort"@[0] == 'G',
        "Glsentryshort"@[1] == 'l',
        "Glsentryshort"@[2] == 's',
        "Glsentryshort"@[3] == 'e',
        "Glsentryshort"@[4] == 'n',
        "Glsentryshort"@[5] == 't',
        "Glsentryshort"@[6] == 'r',
        "Glsentryshort"@[7] == 'y',
        "Glsentryshort"@[8] == 's',
        "Glsentryshort"@[9] == 'h',
        "Glsentryshort"@[10] == 'o',
        "Glsentryshort"@[11] == 'r',
        "Glsentryshort"@[12] == 't',
        "glsentryshortpl"@.len() == 15,
        "glsentryshortpl"@[0] == 'g',
        "glsentryshortpl"@[1] == 'l',
        "glsentryshortpl"@[2] == 's',
        "glsentryshortpl"@[3] == 'e',
        "glsentryshortpl"@[4] == 'n',
        "glsentryshortpl"@[5] == 't',
        "glsentryshortpl"@[6] == 'r',
        "glsentryshortpl"@[7] == 'y',
        "glsentryshortpl"@[8] == 's',
        "glsentryshortpl"@[9] == 'h',
        "glsentryshortpl"@[10] == 'o',
        "glsentryshortpl"@[11] == 'r',
        "glsentryshortpl"@[12] == 't',
        "glsentryshortpl"@[13] == 'p',
        "glsentryshortpl"@[14] == 'l',
        "Glsentryshortpl"@.len() == 15,
        "Glsentryshortpl"@[0] == 'G',
        "Glsentryshortpl"@[1] == 'l',
        "Glsentryshortpl"@[2] == 's',
        "Glsentryshortpl"@[3] == 'e',
        "Glsentryshortpl"@[4] == 'n',
        "Glsentryshortpl"@[5] == 't',
        "Glsentryshortpl"@[6] == 'r',
        "Glsentryshortpl"@[7] == 'y',
        "Glsentryshortpl"@[8] == 's',
        "Glsentryshortpl"@[9] == 'h',
        "Glsentryshortpl"@[10] == 'o',
        "Glsentryshortpl"@[11] == 'r',
        "Glsentryshortpl"@[12] == 't',
        "Glsentryshortpl"@[13] == 'p',
        "Glsentryshortpl"@[14] == 'l',
{
    reveal_strlit("glsentrylong");
    reveal_strlit("Glsentrylong");
    reveal_strlit("glsentrylongpl");
    reveal_strlit("Glsentrylongpl");
    reveal_strlit("glsentryshort");
    reveal_strlit("Glsentryshort");
    reveal_strlit("glsentryshortpl");
    reveal_strlit("Glsentryshortpl");
}

/// The length and characters of names of the command table (part 26).
proof fn lemma_names_25()
    ensures
        "glsentryfullpl"@.len() == 14,
        "glsentryfullpl"@[0] == 'g',
        "glsentryfullpl"@[1] == 'l',
        "glsentryfullpl"@[2] == 's',
        "glsentryfullpl"@[3] == 'e',
        "glsentryfullpl"@[4] == 'n',
        "glsentryfullpl"@[5] == 't',
        "glsentryfullpl"@[6] == 'r',
        "glsentryfullpl"@[7] == 'y',
        "glsentryfullpl"@[8] == 'f',
        "glsentryfullpl"@[9] == 'u',
        "glsentryfullpl"@[10] == 'l',
        "glsentryfullpl"@[11] == 'l',
        "glsentryfullpl"@[12] == 'p',
        "glsentryfullpl"@[13] == 'l',
        "Glsentryfullpl"@.len() == 14,
        "Glsentryfullpl"@[0] == 'G',
        "Glsentryfullpl"@[1] == 'l',
        "Glsentryfullpl"@[2] == 's',
        "Glsentryfullpl"@[3] == 'e',
        "Glsentryfullpl"@[4] == 'n',
        "Glsentryfullpl"@[5] == 't',
        "Glsentryfullpl"@[6] == 'r',
        "Glsentryfullpl"@[7] == 'y',
        "Glsentryfullpl"@[8] == 'f',
        "Glsentryfullpl"@[9] == 'u',
        "Glsentryfullpl"@[10] == 'l',
        "Glsentryfullpl"@[11] == 'l',
        "Glsentryfullpl"@[12] == 'p',
        "Glsentryfullpl"@[13] == 'l',
        "newtheorem"@.len() == 10,
        "newtheorem"@[0] == 'n',
        "newtheorem"@[1] == 'e',
        "newtheorem"@[2] == 'w',
        "newtheorem"@[3] == 't',
        "newtheorem"@[4] == 'h',
        "newtheorem"@[5] == 'e',
        "newtheorem"@[6] == 'o',
        "newtheorem"@[7] == 'r',
        "newtheorem"@[8] == 'e',
        "newtheorem"@[9] == 'm',
        "newtheorem*"@.len() == 11,
        "newtheorem*"@[0] == 'n',
        "newtheorem*"@[1] == 'e',
        "newtheorem*"@[2] == 'w',
        "newtheorem*"@[3] == 't',
        "newtheorem*"@[4] == 'h',
        "newtheorem*"@[5] == 'e',
        "newtheorem*"@[6] == 'o',
        "newtheorem*"@[7] == 'r',
        "newtheorem*"@[8] == 'e',
        "newtheorem*"@[9] == 'm',
        "newtheorem*"@[10] == '*',
        "declaretheorem"@.len() == 14,
        "declaretheorem"@[0] == 'd',
        "declaretheorem"@[1] == 'e',
        "declaretheorem"@[2] == 'c',
        "declaretheorem"@[3] == 'l',
        "declaretheorem"@[4] == 'a',
        "declaretheorem"@[5] == 'r',
        "declaretheorem"@[6] == 'e',
        "declaretheorem"@[7] == 't',
        "declaretheorem"@[8] == 'h',
        "declaretheorem"@[9] == 'e',
        "declaretheorem"@[10] == 'o',
        "declaretheorem"@[11] == 'r',
        "declaretheorem"@[12] == 'e',
        "declaretheorem"@[13] == 'm',
        "declaretheorem*"@.len() == 15,
        "declaretheorem*"@[0] == 'd',
        "declaretheorem*"@[1] == 'e',
        "declaretheorem*"@[2] == 'c',
        "declaretheorem*"@[3] == 'l',
        "declaretheorem*"@[4] == 'a',
        "declaretheorem*"@[5] == 'r',
        "declaretheorem*"@[6] == 'e',
        "declaretheorem*"@[7] == 't',
        "declaretheorem*"@[8] == 'h',
        "declaretheorem*"@[9] == 'e',
        "declaretheorem*"@[10] == 'o',
        "declaretheorem*"@[11] == 'r',
        "declaretheorem*"@[12] == 'e',
        "declaretheorem*"@[13] == 'm',
        "declaretheorem*"@[14] == '*',
        "color"@.len() == 5,
        "color"@[0] == 'c',
        "color"@[1] == 'o',
        "color"@[2] == 'l',
        "color"@[3] == 'o',
        "color"@[4] == 'r',
        "colorbox"@.len() == 8,
        "colorbox"@[0] == 'c',
        "colorbox"@[1] == 'o',
        "colorbox"@[2] == 'l',
        "colorbox"@[3] == 'o',
        "colorbox"@[4] == 'r',
        "colorbox"@[5] == 'b',
        "colorbox"@[6] == 'o',
        "colorbox"@[7] == 'x',
{
    reveal_strlit("glsentryfullpl");
    reveal_strlit("Glsentryfullpl");
    reveal_strlit("newtheorem");
    reveal_strlit("newtheorem*");
    reveal_strlit("declaretheorem");
    reveal_strlit("declaretheorem*");
    reveal_strlit("color");
    reveal_strlit("colorbox");
}

/// The length and characters of names of the command table (part 27).
proof fn lemma_names_26()
    ensures
        "textcolor"@.len() == 9,
        "textcolor"@[0] == 't',
        "textcolor"@[1] == 'e',
        "textcolor"@[2] == 'x',
        "textcolor"@[3] == 't',
        "textcolor"@[4] == 'c',
        "textcolor"@[5] == 'o',
        "textcolor"@[6] == 'l',
        "textcolor"@[7] == 'o',
        "textcolor"@[8] == 'r',
        "pagecolor"@.len() == 9,
        "pagecolor"@[0] == 'p',
        "pagecolor"@[1] == 'a',
        "pagecolor"@[2] == 'g',
        "pagecolor"@[3] == 'e',
        "pagecolor"@[4] == 'c',
        "pagecolor"@[5] == 'o',
        "pagecolor"@[6] == 'l',
        "pagecolor"@[7] == 'o',
        "pagecolor"@[8] == 'r',
        "definecolor"@.len() == 11,
        "definecolor"@[0] == 'd',
        "definecolor"@[1] == 'e',
        "definecolor"@[2] == 'f',
        "definecolor"@[3] == 'i',
        "definecolor"@[4] == 'n',
        "definecolor"@[5] == 'e',
        "definecolor"@[6] == 'c',
        "definecolor"@[7] == 'o',
        "definecolor"@[8] == 'l',
        "definecolor"@[9] == 'o',
        "definecolor"@[10] == 'r',
        "definecolorset"@.len() == 14,
        "definecolorset"@[0] == 'd',
        "definecolorset"@[1] == 'e',
        "definecolorset"@[2] == 'f',
        "definecolorset"@[3] == 'i',
        "definecolorset"@[4] == 'n',
        "definecolorset"@[5] == 'e',
        "definecolorset"@[6] == 'c',
        "definecolorset"@[7] == 'o',
        "definecolorset"@[8] == 'l',
        "definecolorset"@[9] == 'o',
        "definecolorset"@[10] == 'r',
        "definecolorset"@[11] == 's',
        "definecolorset"@[12] == 'e',
        "definecolorset"@[13] == 't',
        "usepgflibrary"@.len() == 13,
        "usepgflibrary"@[0] == 'u',
        "usepgflibrary"@[1] == 's',
        "usepgflibrary"@[2] == 'e',
        "usepgflibrary"@[3] == 'p',
        "usepgflibrary"@[4] == 'g',
        "usepgflibrary"@[5] == 'f',
        "usepgflibrary"@[6] == 'l',
        "usepgflibrary"@[7] == 'i',
        "usepgflibrary"@[8] == 'b',
        "usepgflibrary"@[9] == 'r',
        "usepgflibrary"@[10] == 'a',
        "usepgflibrary"@[11] == 'r',
        "usepgflibrary"@[12] == 'y',
        "usetikzlibrary"@.len() == 14,
        "usetikzlibrary"@[0] == 'u',
        "usetikzlibrary"@[1] == 's',
        "usetikzlibrary"@[2] == 'e',
        "usetikzlibrary"@[3] == 't',
        "usetikzlibrary"@[4] == 'i',
        "usetikzlibrary"@[5] == 'k',
        "usetikzlibrary"@[6] == 'z',
        "usetikzlibrary"@[7] == 'l',
        "usetikzlibrary"@[8] == 'i',
        "usetikzlibrary"@[9] == 'b',
        "usetikzlibrary"@[10] == 'r',
        "usetikzlibrary"@[11] == 'a',
        "usetikzlibrary"@[12] == 'r',
        "usetikzlibrary"@[13] == 'y',
        "newenvironment"@.len() == 14,
        "newenvironment"@[0] == 'n',
        "newenvironment"@[1] == 'e',
        "newenvironment"@[2] == 'w',
        "newenvironment"@[3] == 'e',
        "newenvironment"@[4] == 'n',
        "newenvironment"@[5] == 'v',
        "newenvironment"@[6] == 'i',
        "newenvironment"@[7] == 'r',
        "newenvironment"@[8] == 'o',
        "newenvironment"@[9] == 'n',
        "newenvironment"@[10] == 'm',
        "newenvironment"@[11] == 'e',
        "newenvironment"@[12] == 'n',
        "newenvironment"@[13] == 't',
        "newenvironment*"@.len() == 15,
        "newenvironment*"@[0] == 'n',
        "newenvironment*"@[1] == 'e',
        "newenvironment*"@[2] == 'w',
        "newenvironment*"@[3] == 'e',
        "newenvironment*"@[4] == 'n',
        "newenvironment*"@[5] == 'v',
        "newenvironment*"@[6] == 'i',
        "newenvironment*"@[7] == 'r',
        "newenvironment*"@[8] == 'o',
        "newenvironment*"@[9] == 'n',
        "newenvironment*"@[10] == 'm',
        "newenvironment*"@[11] == 'e',
        "newenvironment*"@[12] == 'n',
        "newenvironment*"@[13] == 't',
        "newenvironment*"@[14] == '*',
{
    reveal_strlit("textcolor");
    reveal_strlit("pagecolor");
    reveal_strlit("definecolor");
    reveal_strlit("definecolorset");
    reveal_strlit("usepgflibrary");
    reveal_strlit("usetikzlibrary");
    reveal_strlit("newenvironment");
    reveal_strlit("newenvironment*");
}

/// The length and characters of names of the command table (part 28).
proof fn lemma_names_27()
    ensures
        "renewenvironment"@.len() == 16,
        "renewenvironment"@[0] == 'r',
        "renewenvironment"@[1] == 'e',
        "renewenvironment"@[2] == 'n',
        "renewenvironment"@[3] == 'e',
        "renewenvironment"@[4] == 'w',
        "renewenvironment"@[5] == 'e',
        "renewenvironment"@[6] == 'n',
        "renewenvironment"@[7] == 'v',
        "renewenvironment"@[8] == 'i',
        "renewenvironment"@[9] == 'r',
        "renewenvironment"@[10] == 'o',
        "renewenvironment"@[11] == 'n',
        "renewenvironment"@[12] == 'm',
        "renewenvironment"@[13] == 'e',
        "renewenvironment"@[14] == 'n',
        "renewenvironment"@[15] == 't',
        "renewenvironment*"@.len() == 17,
        "renewenvironment*"@[0] == 'r',
        "renewenvironment*"@[1] == 'e',
        "renewenvironment*"@[2] == 'n',
        "renewenvironment*"@[3] == 'e',
        "renewenvironment*"@[4] == 'w',
        "renewenvironment*"@[5] == 'e',
        "renewenvironment*"@[6] == 'n',
        "renewenvironment*"@[7] == 'v',
        "renewenvironment*"@[8] == 'i',
        "renewenvironment*"@[9] == 'r',
        "renewenvironment*"@[10] == 'o',
        "renewenvironment*"@[11] == 'n',
        "renewenvironment*"@[12] == 'm',
        "renewenvironment*"@[13] == 'e',
        "renewenvironment*"@[14] == 'n',
        "renewenvironment*"@[15] == 't',
        "renewenvironment*"@[16] == '*',
        "graphicspath"@.len() == 12,
        "graphicspath"@[0] == 'g',
        "graphicspath"@[1] == 'r',
        "graphicspath"@[2] == 'a',
        "graphicspath"@[3] == 'p',
        "graphicspath"@[4] == 'h',
        "graphicspath"@[5] == 'i',
        "graphicspath"@[6] == 'c',
        "graphicspath"@[7] == 's',
        "graphicspath"@[8] == 'p',
        "graphicspath"@[9] == 'a',
        "graphicspath"@[10] == 't',
        "graphicspath"@[11] == 'h',
        "iffalse"@.len() == 7,
        "iffalse"@[0] == 'i',
        "iffalse"@[1] == 'f',
        "iffalse"@[2] == 'f',
        "iffalse"@[3] == 'a',
        "iffalse"@[4] == 'l',
        "iffalse"@[5] == 's',
        "iffalse"@[6] == 'e',
        "fi"@.len() == 2,
        "fi"@[0] == 'f',
        "fi"@[1] == 'i',
        "verb"@.len() == 4,
        "verb"@[0] == 'v',
        "verb"@[1] == 'e',
        "verb"@[2] == 'r',
        "verb"@[3] == 'b',
        "bibitem"@.len() == 7,
        "bibitem"@[0] == 'b',
        "bibitem"@[1] == 'i',
        "bibitem"@[2] == 'b',
        "bibitem"@[3] == 'i',
        "bibitem"@[4] == 't',
        "bibitem"@[5] == 'e',
        "bibitem"@[6] == 'm',
        "contentsline"@.len() == 12,
        "contentsline"@[0] == 'c',
        "contentsline"@[1] == 'o',
        "contentsline"@[2] == 'n',
        "contentsline"@[3] == 't',
        "contentsline"@[4] == 'e',
        "contentsline"@[5] == 'n',
        "contentsline"@[6] == 't',
        "contentsline"@[7] == 's',
        "contentsline"@[8] == 'l',
        "contentsline"@[9] == 'i',
        "contentsline"@[10] == 'n',
        "contentsline"@[11] == 'e',
{
    reveal_strlit("renewenvironment");
    reveal_strlit("renewenvironment*");
    reveal_strlit("graphicspath");
    reveal_strlit("iffalse");
    reveal_strlit("fi");
    reveal_strlit("verb");
    reveal_strlit("bibitem");
    reveal_strlit("contentsline");
}

/// The length and characters of names of the command table (part 29).
proof fn lemma_names_28()
    ensures
        "numberline"@.len() == 10,
        "numberline"@[0] == 'n',
        "numberline"@[1] == 'u',
        "numberline"@[2] == 'm',
        "numberline"@[3] == 'b',
        "numberline"@[4] == 'e',
        "numberline"@[5] == 'r',
        "numberline"@[6] == 'l',
        "numberline"@[7] == 'i',
        "numberline"@[8] == 'n',
        "numberline"@[9] == 'e',
{
    reveal_strlit("numberline");
}

proof fn lemma_class_begin_environment(name: Seq<char>, citations: Set<Seq<char>>)
    requires
        command_names(CommandName::BeginEnvironment).contains(name),
    ensures
        spec_classify(name, citations) == CommandName::BeginEnvironment,
{
    lemma_names_0();
    lemma_names_1();
    lemma_names_2();
    lemma_names_3();
    lemma_names_4();
    lemma_names_5();
    lemma_names_6();
    lemma_names_7();
    lemma_names_8();
    lemma_names_9();
    lemma_names_10();
    lemma_names_11();
    lemma_names_12();
    lemma_names_13();
    lemma_names_14();
    lemma_names_15();
    lemma_names_16();
    lemma_names_17();
    lemma_names_18();
    lemma_names_19();
    lemma_names_20();
    lemma_names_21();
    lemma_names_22();
    lemma_names_23();
    lemma_names_24();
    lemma_names_25();
    lemma_names_26();
    lemma_names_27();
    lemma_names_28();
}

proof fn lemma_class_end_environment(name: Seq<char>, citations: Set<Seq<char>>)
    requires
        command_names(CommandName::EndEnvironment).contains(name),
    ensures
        spec_classify(name, citations) == CommandName::EndEnvironment,
{
    lemma_names_0();
    lemma_names_1();
    lemma_names_2();
    lemma_names_3();
    lemma_names_4();
    lemma_names_5();
    lemma_names_6();
    lemma_names_7();
    lemma_names_8();
    lemma_names_9();
    lemma_names_10();
    lemma_names_11();
    lemma_names_12();
    lemma_names_13();
    lemma_names_14();
    lemma_names_15();
    lemma_names_16();
    lemma_names_17();
    lemma_names_18();
    lemma_names_19();
    lemma_names_20();
    lemma_names_21();
    lemma_names_22();
    lemma_names_23();
    lemma_names_24();
    lemma_names_25();
    lemma_names_26();
    lemma_names_27();
    lemma_names_28();
}

proof fn lemma_class_begin_equation(name: Seq<char>, citations: Set<Seq<char>>)
    requires
        command_names(CommandName::BeginEquation).contains(name),
    ensures
        spec_classify(name, citations) == CommandName::BeginEquation,
{
    lemma_names_0();
    lemma_names_1();
    lemma_names_2();
    lemma_names_3();
    lemma_names_4();
    lemma_names_5();
    lemma_names_6();
    lemma_names_7();
    lemma_names_8();
    lemma_names_9();
    lemma_names_10();
    lemma_names_11();
    lemma_names_12();
    lemma_names_13();
    lemma_names_14();
    lemma_names_15();
    lemma_names_16();
    lemma_names_17();
    lemma_names_18();
    lemma_names_19();
    lemma_names_20();
    lemma_names_21();
    lemma_names_22();
    lemma_names_23();
    lemma_names_24();
    lemma_names_25();
    lemma_names_26();
    lemma_names_27();
    lemma_names_28();
}

proof fn lemma_class_end_equation(name: Seq<char>, citations: Set<Seq<char>>)
    requires
        command_names(CommandName::EndEquation).contains(name),
    ensures
        spec_classify(name, citations) == CommandName::EndEquation,
{
    lemma_names_0();
    lemma_names_1();
    lemma_names_2();
    lemma_names_3();
    lemma_names_4();
    lemma_names_5();
    lemma_names_6();
    lemma_names_7();
    lemma_names_8();
    lemma_names_9();
    lemma_names_10();
    lemma_names_11();
    lemma_names_12();
    lemma_names_13();
    lemma_names_14();
    lemma_names_15();
    lemma_names_16();
    lemma_names_17();
    lemma_names_18();
    lemma_names_19();
    lemma_names_20();
    lemma_names_21();
    lemma_names_22();
    lemma_names_23();
    lemma_names_24();
    lemma_names_25();
    lemma_names_26();
    lemma_names_27();
    lemma_names_28();
}

proof fn lemma_class_section_part(name: Seq<char>, citations: Set<Seq<char>>)
    requires
        command_names(CommandName::Section(SectionLevel::Part)).contains(name),
    ensures
        spec_classify(name, citations) == CommandName::Section(SectionLevel::Part),
{
    lemma_names_0();
    lemma_names_1();
    lemma_names_2();
    lemma_names_3();
    lemma_names_4();
    lemma_names_5();
    lemma_names_6();
    lemma_names_7();
    lemma_names_8();
    lemma_names_9();
    lemma_names_10();
    lemma_names_11();
    lemma_names_12();
    lemma_names_13();
    lemma_names_14();
    lemma_names_15();
    lemma_names_16();
    lemma_names_17();
    lemma_names_18();
    lemma_names_19();
    lemma_names_20();
    lemma_names_21();
    lemma_names_22();
    lemma_names_23();
    lemma_names_24();
    lemma_names_25();
    lemma_names_26();
    lemma_names_27();
    lemma_names_28();
}

proof fn lemma_class_section_chapter(name: Seq<char>, citations: Set<Seq<char>>)
    requires
        command_names(CommandName::Section(SectionLevel::Chapter)).contains(name),
    ensures
        spec_classify(name, citations) == CommandName::Section(SectionLevel::Chapter),
{
    lemma_names_0();
    lemma_names_1();
    lemma_names_2();
    lemma_names_3();
    lemma_names_4();
    lemma_names_5();
    lemma_names_6();
    lemma_names_7();
    lemma_names_8();
    lemma_names_9();
    lemma_names_10();
    lemma_names_11();
    lemma_names_12();
    lemma_names_13();
    lemma_names_14();
    lemma_names_15();
    lemma_names_16();
    lemma_names_17();
    lemma_names_18();
    lemma_names_19();
    lemma_names_20();
    lemma_names_21();
    lemma_names_22();
    lemma_names_23();
    lemma_names_24();
    lemma_names_25();
    lemma_names_26();
    lemma_names_27();
    lemma_names_28();
}

proof fn lemma_class_section_section(name: Seq<char>, citations: Set<Seq<char>>)
    requires
        command_names(CommandName::Section(SectionLevel::Section)).contains(name),
    ensures
        spec_classify(name, citations) == CommandName::Section(SectionLevel::Section),
{
    lemma_names_0();
    lemma_names_1();
    lemma_names_2();
    lemma_names_3();
    lemma_names_4();
    lemma_names_5();
    lemma_names_6();
    lemma_names_7();
    lemma_names_8();
    lemma_names_9();
    lemma_names_10();
    lemma_names_11();
    lemma_names_12();
    lemma_names_13();
    lemma_names_14();
    lemma_names_15();
    lemma_names_16();
    lemma_names_17();
    lemma_names_18();
    lemma_names_19();
    lemma_names_20();
    lemma_names_21();
    lemma_names_22();
    lemma_names_23();
    lemma_names_24();
    lemma_names_25();
    lemma_names_26();
    lemma_names_27();
    lemma_names_28();
}

proof fn lemma_class_section_subsection(name: Seq<char>, citations: Set<Seq<char>>)
    requires
        command_names(CommandName::Section(SectionLevel::Subsection)).contains(name),
    ensures
        spec_classify(name, citations) == CommandName::Section(SectionLevel::Subsection),
{
    lemma_names_0();
    lemma_names_1();
    lemma_names_2();
    lemma_names_3();
    lemma_names_4();
    lemma_names_5();
    lemma_names_6();
    lemma_names_7();
    lemma_names_8();
    lemma_names_9();
    lemma_names_10();
    lemma_names_11();
    lemma_names_12();
    lemma_names_13();
    lemma_names_14();
    lemma_names_15();
    lemma_names_16();
    lemma_names_17();
    lemma_names_18();
    lemma_names_19();
    lemma_names_20();
    lemma_names_21();
    lemma_names_22();
    lemma_names_23();
    lemma_names_24();
    lemma_names_25();
    lemma_names_26();
    lemma_names_27();
    lemma_names_28();
}

proof fn lemma_class_section_subsubsection(name: Seq<char>, citations: Set<Seq<char>>)
    requires
        command_names(CommandName::Section(SectionLevel::Subsubsection)).contains(name),
    ensures
        spec_classify(name, citations) == CommandName::Section(SectionLevel::Subsubsection),
{
    lemma_names_0();
    lemma_names_1();
    lemma_names_2();
    lemma_names_3();
    lemma_names_4();
    lemma_names_5();
    lemma_names_6();
    lemma_names_7();
    lemma_names_8();
    lemma_names_9();
    lemma_names_10();
    lemma_names_11();
    lemma_names_12();
    lemma_names_13();
    lemma_names_14();
    lemma_names_15();
    lemma_names_16();
    lemma_names_17();
    lemma_names_18();
    lemma_names_19();
    lemma_names_20();
    lemma_names_21();
    lemma_names_22();
    lemma_names_23();
    lemma_names_24();
    lemma_names_25();
    lemma_names_26();
    lemma_names_27();
    lemma_names_28();
}

proof fn lemma_class_paragraph_paragraph(name: Seq<char>, citations: Set<Seq<char>>)
    requires
        command_names(CommandName::Paragraph(ParagraphLevel::Paragraph)).contains(name),
    ensures
        spec_classify(name, citations) == CommandName::Paragraph(ParagraphLevel::Paragraph),
{
    lemma_names_0();
    lemma_names_1();
    lemma_names_2();
    lemma_names_3();
    lemma_names_4();
    lemma_names_5();
    lemma_names_6();
    lemma_names_7();
    lemma_names_8();
    lemma_names_9();
    lemma_names_10();
    lemma_names_11();
    lemma_names_12();
    lemma_names_13();
    lemma_names_14();
    lemma_names_15();
    lemma_names_16();
    lemma_names_17();
    lemma_names_18();
    lemma_names_19();
    lemma_names_20();
    lemma_names_21();
    lemma_names_22();
    lemma_names_23();
    lemma_names_24();
    lemma_names_25();
    lemma_names_26();
    lemma_names_27();
    lemma_names_28();
}

proof fn lemma_class_paragraph_subparagraph(name: Seq<char>, citations: Set<Seq<char>>)
    requires
        command_names(CommandName::Paragraph(ParagraphLevel::Subparagraph)).contains(name),
    ensures
        spec_classify(name, citations) == CommandName::Paragraph(ParagraphLevel::Subparagraph),
{
    lemma_names_0();
    lemma_names_1();
    lemma_names_2();
    lemma_names_3();
    lemma_names_4();
    lemma_names_5();
    lemma_names_6();
    lemma_names_7();
    lemma_names_8();
    lemma_names_9();
    lemma_names_10();
    lemma_names_11();
    lemma_names_12();
    lemma_names_13();
    lemma_names_14();
    lemma_names_15();
    lemma_names_16();
    lemma_names_17();
    lemma_names_18();
    lemma_names_19();
    lemma_names_20();
    lemma_names_21();
    lemma_names_22();
    lemma_names_23();
    lemma_names_24();
    lemma_names_25();
    lemma_names_26();
    lemma_names_27();
    lemma_names_28();
}

proof fn lemma_class_enum_item(name: Seq<char>, citations: Set<Seq<char>>)
    requires
        command_names(CommandName::EnumItem).contains(name),
    ensures
        spec_classify(name, citations) == CommandName::EnumItem,
{
    lemma_names_0();
    lemma_names_1();
    lemma_names_2();
    lemma_names_3();
    lemma_names_4();
    lemma_names_5();
    lemma_names_6();
    lemma_names_7();
    lemma_names_8();
    lemma_names_9();
    lemma_names_10();
    lemma_names_11();
    lemma_names_12();
    lemma_names_13();
    lemma_names_14();
    lemma_names_15();
    lemma_names_16();
    lemma_names_17();
    lemma_names_18();
    lemma_names_19();
    lemma_names_20();
    lemma_names_21();
    lemma_names_22();
    lemma_names_23();
    lemma_names_24();
    lemma_names_25();
    lemma_names_26();
    lemma_names_27();
    lemma_names_28();
}

proof fn lemma_class_caption(name: Seq<char>, citations: Set<Seq<char>>)
    requires
        command_names(CommandName::Caption).contains(name),
    ensures
        spec_classify(name, citations) == CommandName::Caption,
{
    lemma_names_0();
    lemma_names_1();
    lemma_names_2();
    lemma_names_3();
    lemma_names_4();
    lemma_names_5();
    lemma_names_6();
    lemma_names_7();
    lemma_names_8();
    lemma_names_9();
    lemma_names_10();
    lemma_names_11();
    lemma_names_12();
    lemma_names_13();
    lemma_names_14();
    lemma_names_15();
    lemma_names_16();
    lemma_names_17();
    lemma_names_18();
    lemma_names_19();
    lemma_names_20();
    lemma_names_21();
    lemma_names_22();
    lemma_names_23();
    lemma_names_24();
    lemma_names_25();
    lemma_names_26();
    lemma_names_27();
    lemma_names_28();
}

proof fn lemma_class_package_incl(name: Seq<char>, citations: Set<Seq<char>>)
    requires
        command_names(CommandName::PackageInclude).contains(name),
    ensures
        spec_classify(name, citations) == CommandName::PackageInclude,
{
    lemma_names_0();
    lemma_names_1();
    lemma_names_2();
    lemma_names_3();
    lemma_names_4();
    lemma_names_5();
    lemma_names_6();
    lemma_names_7();
    lemma_names_8();
    lemma_names_9();
    lemma_names_10();
    lemma_names_11();
    lemma_names_12();
    lemma_names_13();
    lemma_names_14();
    lemma_names_15();
    lemma_names_16();
    lemma_names_17();
    lemma_names_18();
    lemma_names_19();
    lemma_names_20();
    lemma_names_21();
    lemma_names_22();
    lemma_names_23();
    lemma_names_24();
    lemma_names_25();
    lemma_names_26();
    lemma_names_27();
    lemma_names_28();
}

proof fn lemma_class_class_incl(name: Seq<char>, citations: Set<Seq<char>>)
    requires
        command_names(CommandName::ClassInclude).contains(name),
    ensures
        spec_classify(name, citations) == CommandName::ClassInclude,
{
    lemma_names_0();
    lemma_names_1();
    lemma_names_2();
    lemma_names_3();
    lemma_names_4();
    lemma_names_5();
    lemma_names_6();
    lemma_names_7();
    lemma_names_8();
    lemma_names_9();
    lemma_names_10();
    lemma_names_11();
    lemma_names_12();
    lemma_names_13();
    lemma_names_14();
    lemma_names_15();
    lemma_names_16();
    lemma_names_17();
    lemma_names_18();
    lemma_names_19();
    lemma_names_20();
    lemma_names_21();
    lemma_names_22();
    lemma_names_23();
    lemma_names_24();
    lemma_names_25();
    lemma_names_26();
    lemma_names_27();
    lemma_names_28();
}

proof fn lemma_class_latex_incl(name: Seq<char>, citations: Set<Seq<char>>)
    requires
        command_names(CommandName::LatexInclude).contains(name),
    ensures
        spec_classify(name, citations) == CommandName::LatexInclude,
{
    lemma_names_0();
    lemma_names_1();
    lemma_names_2();
    lemma_names_3();
    lemma_names_4();
    lemma_names_5();
    lemma_names_6();
    lemma_names_7();
    lemma_names_8();
    lemma_names_9();
    lemma_names_10();
    lemma_names_11();
    lemma_names_12();
    lemma_names_13();
    lemma_names_14();
    lemma_names_15();
    lemma_names_16();
    lemma_names_17();
    lemma_names_18();
    lemma_names_19();
    lemma_names_20();
    lemma_names_21();
    lemma_names_22();
    lemma_names_23();
    lemma_names_24();
    lemma_names_25();
    lemma_names_26();
    lemma_names_27();
    lemma_names_28();
}

proof fn lemma_class_biblatex_incl(name: Seq<char>, citations: Set<Seq<char>>)
    requires
        command_names(CommandName::BiblatexInclude).contains(name),
    ensures
        spec_classify(name, citations) == CommandName::BiblatexInclude,
{
    lemma_names_0();
    lemma_names_1();
    lemma_names_2();
    lemma_names_3();
    lemma_names_4();
    lemma_names_5();
    lemma_names_6();
    lemma_names_7();
    lemma_names_8();
    lemma_names_9();
    lemma_names_10();
    lemma_names_11();
    lemma_names_12();
    lemma_names_13();
    lemma_names_14();
    lemma_names_15();
    lemma_names_16();
    lemma_names_17();
    lemma_names_18();
    lemma_names_19();
    lemma_names_20();
    lemma_names_21();
    lemma_names_22();
    lemma_names_23();
    lemma_names_24();
    lemma_names_25();
    lemma_names_26();
    lemma_names_27();
    lemma_names_28();
}

proof fn lemma_class_bibtex_incl(name: Seq<char>, citations: Set<Seq<char>>)
    requires
        command_names(CommandName::BibtexInclude).contains(name),
    ensures
        spec_classify(name, citations) == CommandName::BibtexInclude,
{
    lemma_names_0();
    lemma_names_1();
    lemma_names_2();
    lemma_names_3();
    lemma_names_4();
    lemma_names_5();
    lemma_names_6();
    lemma_names_7();
    lemma_names_8();
    lemma_names_9();
    lemma_names_10();
    lemma_names_11();
    lemma_names_12();
    lemma_names_13();
    lemma_names_14();
    lemma_names_15();
    lemma_names_16();
    lemma_names_17();
    lemma_names_18();
    lemma_names_19();
    lemma_names_20();
    lemma_names_21();
    lemma_names_22();
    lemma_names_23();
    lemma_names_24();
    lemma_names_25();
    lemma_names_26();
    lemma_names_27();
    lemma_names_28();
}

proof fn lemma_class_graphics_incl(name: Seq<char>, citations: Set<Seq<char>>)
    requires
        command_names(CommandName::GraphicsInclude).contains(name),
    ensures
        spec_classify(name, citations) == CommandName::GraphicsInclude,
{
    lemma_names_0();
    lemma_names_1();
    lemma_names_2();
    lemma_names_3();
    lemma_names_4();
    lemma_names_5();
    lemma_names_6();
    lemma_names_7();
    lemma_names_8();
    lemma_names_9();
    lemma_names_10();
    lemma_names_11();
    lemma_names_12();
    lemma_names_13();
    lemma_names_14();
    lemma_names_15();
    lemma_names_16();
    lemma_names_17();
    lemma_names_18();
    lemma_names_19();
    lemma_names_20();
    lemma_names_21();
    lemma_names_22();
    lemma_names_23();
    lemma_names_24();
    lemma_names_25();
    lemma_names_26();
    lemma_names_27();
    lemma_names_28();
}

proof fn lemma_class_svg_incl(name: Seq<char>, citations: Set<Seq<char>>)
    requires
        command_names(CommandName::SvgInclude).contains(name),
    ensures
        spec_classify(name, citations) == CommandName::SvgInclude,
{
    lemma_names_0();
    lemma_names_1();
    lemma_names_2();
    lemma_names_3();
    lemma_names_4();
    lemma_names_5();
    lemma_names_6();
    lemma_names_7();
    lemma_names_8();
    lemma_names_9();
    lemma_names_10();
    lemma_names_11();
    lemma_names_12();
    lemma_names_13();
    lemma_names_14();
    lemma_names_15();
    lemma_names_16();
    lemma_names_17();
    lemma_names_18();
    lemma_names_19();
    lemma_names_20();
    lemma_names_21();
    lemma_names_22();
    lemma_names_23();
    lemma_names_24();
    lemma_names_25();
    lemma_names_26();
    lemma_names_27();
    lemma_names_28();
}

proof fn lemma_class_inkscape_incl(name: Seq<char>, citations: Set<Seq<char>>)
    requires
        command_names(CommandName::InkscapeInclude).contains(name),
    ensures
        spec_classify(name, citations) == CommandName::InkscapeInclude,
{
    lemma_names_0();
    lemma_names_1();
    lemma_names_2();
    lemma_names_3();
    lemma_names_4();
    lemma_names_5();
    lemma_names_6();
    lemma_names_7();
    lemma_names_8();
    lemma_names_9();
    lemma_names_10();
    lemma_names_11();
    lemma_names_12();
    lemma_names_13();
    lemma_names_14();
    lemma_names_15();
    lemma_names_16();
    lemma_names_17();
    lemma_names_18();
    lemma_names_19();
    lemma_names_20();
    lemma_names_21();
    lemma_names_22();
    lemma_names_23();
    lemma_names_24();
    lemma_names_25();
    lemma_names_26();
    lemma_names_27();
    lemma_names_28();
}

proof fn lemma_class_verbatim_incl(name: Seq<char>, citations: Set<Seq<char>>)
    requires
        command_names(CommandName::VerbatimInclude).contains(name),
    ensures
        spec_classify(name, citations) == CommandName::VerbatimInclude,
{
    lemma_names_0();
    lemma_names_1();
    lemma_names_2();
    lemma_names_3();
    lemma_names_4();
    lemma_names_5();
    lemma_names_6();
    lemma_names_7();
    lemma_names_8();
    lemma_names_9();
    lemma_names_10();
    lemma_names_11();
    lemma_names_12();
    lemma_names_13();
    lemma_names_14();
    lemma_names_15();
    lemma_names_16();
    lemma_names_17();
    lemma_names_18();
    lemma_names_19();
    lemma_names_20();
    lemma_names_21();
    lemma_names_22();
    lemma_names_23();
    lemma_names_24();
    lemma_names_25();
    lemma_names_26();
    lemma_names_27();
    lemma_names_28();
}

proof fn lemma_class_import(name: Seq<char>, citations: Set<Seq<char>>)
    requires
        command_names(CommandName::Import).contains(name),
    ensures
        spec_classify(name, citations) == CommandName::Import,
{
    lemma_names_0();
    lemma_names_1();
    lemma_names_2();
    lemma_names_3();
    lemma_names_4();
    lemma_names_5();
    lemma_names_6();
    lemma_names_7();
    lemma_names_8();
    lemma_names_9();
    lemma_names_10();
    lemma_names_11();
    lemma_names_12();
    lemma_names_13();
    lemma_names_14();
    lemma_names_15();
    lemma_names_16();
    lemma_names_17();
    lemma_names_18();
    lemma_names_19();
    lemma_names_20();
    lemma_names_21();
    lemma_names_22();
    lemma_names_23();
    lemma_names_24();
    lemma_names_25();
    lemma_names_26();
    lemma_names_27();
    lemma_names_28();
}

proof fn lemma_class_label_definition(name: Seq<char>, citations: Set<Seq<char>>)
    requires
        command_names(CommandName::LabelDefinition).contains(name),
    ensures
        spec_classify(name, citations) == CommandName::LabelDefinition,
{
    lemma_names_0();
    lemma_names_1();
    lemma_names_2();
    lemma_names_3();
    lemma_names_4();
    lemma_names_5();
    lemma_names_6();
    lemma_names_7();
    lemma_names_8();
    lemma_names_9();
    lemma_names_10();
    lemma_names_11();
    lemma_names_12();
    lemma_names_13();
    lemma_names_14();
    lemma_names_15();
    lemma_names_16();
    lemma_names_17();
    lemma_names_18();
    lemma_names_19();
    lemma_names_20();
    lemma_names_21();
    lemma_names_22();
    lemma_names_23();
    lemma_names_24();
    lemma_names_25();
    lemma_names_26();
    lemma_names_27();
    lemma_names_28();
}

proof fn lemma_class_label_reference(name: Seq<char>, citations: Set<Seq<char>>)
    requires
        command_names(CommandName::LabelReference).contains(name),
    ensures
        spec_classify(name, citations) == CommandName::LabelReference,
{
    lemma_names_0();
    lemma_names_1();
    lemma_names_2();
    lemma_names_3();
    lemma_names_4();
    lemma_names_5();
    lemma_names_6();
    lemma_names_7();
    lemma_names_8();
    lemma_names_9();
    lemma_names_10();
    lemma_names_11();
    lemma_names_12();
    lemma_names_13();
    lemma_names_14();
    lemma_names_15();
    lemma_names_16();
    lemma_names_17();
    lemma_names_18();
    lemma_names_19();
    lemma_names_20();
    lemma_names_21();
    lemma_names_22();
    lemma_names_23();
    lemma_names_24();
    lemma_names_25();
    lemma_names_26();
    lemma_names_27();
    lemma_names_28();
}

proof fn lemma_class_label_reference_range(name: Seq<char>, citations: Set<Seq<char>>)
    requires
        command_names(CommandName::LabelReferenceRange).contains(name),
    ensures
        spec_classify(name, citations) == CommandName::LabelReferenceRange,
{
    lemma_names_0();
    lemma_names_1();
    lemma_names_2();
    lemma_names_3();
    lemma_names_4();
    lemma_names_5();
    lemma_names_6();
    lemma_names_7();
    lemma_names_8();
    lemma_names_9();
    lemma_names_10();
    lemma_names_11();
    lemma_names_12();
    lemma_names_13();
    lemma_names_14();
    lemma_names_15();
    lemma_names_16();
    lemma_names_17();
    lemma_names_18();
    lemma_names_19();
    lemma_names_20();
    lemma_names_21();
    lemma_names_22();
    lemma_names_23();
    lemma_names_24();
    lemma_names_25();
    lemma_names_26();
    lemma_names_27();
    lemma_names_28();
}

proof fn lemma_class_label_number(name: Seq<char>, citations: Set<Seq<char>>)
    requires
        command_names(CommandName::LabelNumber).contains(name),
    ensures
        spec_classify(name, citations) == CommandName::LabelNumber,
{
    lemma_names_0();
    lemma_names_1();
    lemma_names_2();
    lemma_names_3();
    lemma_names_4();
    lemma_names_5();
    lemma_names_6();
    lemma_names_7();
    lemma_names_8();
    lemma_names_9();
    lemma_names_10();
    lemma_names_11();
    lemma_names_12();
    lemma_names_13();
    lemma_names_14();
    lemma_names_15();
    lemma_names_16();
    lemma_names_17();
    lemma_names_18();
    lemma_names_19();
    lemma_names_20();
    lemma_names_21();
    lemma_names_22();
    lemma_names_23();
    lemma_names_24();
    lemma_names_25();
    lemma_names_26();
    lemma_names_27();
    lemma_names_28();
}

proof fn lemma_class_old_command_definition(name: Seq<char>, citations: Set<Seq<char>>)
    requires
        command_names(CommandName::OldCommandDefinition).contains(name),
    ensures
        spec_classify(name, citations) == CommandName::OldCommandDefinition,
{
    lemma_names_0();
    lemma_names_1();
    lemma_names_2();
    lemma_names_3();
    lemma_names_4();
    lemma_names_5();
    lemma_names_6();
    lemma_names_7();
    lemma_names_8();
    lemma_names_9();
    lemma_names_10();
    lemma_names_11();
    lemma_names_12();
    lemma_names_13();
    lemma_names_14();
    lemma_names_15();
    lemma_names_16();
    lemma_names_17();
    lemma_names_18();
    lemma_names_19();
    lemma_names_20();
    lemma_names_21();
    lemma_names_22();
    lemma_names_23();
    lemma_names_24();
    lemma_names_25();
    lemma_names_26();
    lemma_names_27();
    lemma_names_28();
}

proof fn lemma_class_new_command_definition(name: Seq<char>, citations: Set<Seq<char>>)
    requires
        command_names(CommandName::NewCommandDefinition).contains(name),
    ensures
        spec_classify(name, citations) == CommandName::NewCommandDefinition,
{
    lemma_names_0();
    lemma_names_1();
    lemma_names_2();
    lemma_names_3();
    lemma_names_4();
    lemma_names_5();
    lemma_names_6();
    lemma_names_7();
    lemma_names_8();
    lemma_names_9();
    lemma_names_10();
    lemma_names_11();
    lemma_names_12();
    lemma_names_13();
    lemma_names_14();
    lemma_names_15();
    lemma_names_16();
    lemma_names_17();
    lemma_names_18();
    lemma_names_19();
    lemma_names_20();
    lemma_names_21();
    lemma_names_22();
    lemma_names_23();
    lemma_names_24();
    lemma_names_25();
    lemma_names_26();
    lemma_names_27();
    lemma_names_28();
}

proof fn lemma_class_math_operator(name: Seq<char>, citations: Set<Seq<char>>)
    requires
        command_names(CommandName::MathOperator).contains(name),
    ensures
        spec_classify(name, citations) == CommandName::MathOperator,
{
    lemma_names_0();
    lemma_names_1();
    lemma_names_2();
    lemma_names_3();
    lemma_names_4();
    lemma_names_5();
    lemma_names_6();
    lemma_names_7();
    lemma_names_8();
    lemma_names_9();
    lemma_names_10();
    lemma_names_11();
    lemma_names_12();
    lemma_names_13();
    lemma_names_14();
    lemma_names_15();
    lemma_names_16();
    lemma_names_17();
    lemma_names_18();
    lemma_names_19();
    lemma_names_20();
    lemma_names_21();
    lemma_names_22();
    lemma_names_23();
    lemma_names_24();
    lemma_names_25();
    lemma_names_26();
    lemma_names_27();
    lemma_names_28();
}

proof fn lemma_class_glossary_entry_definition(name: Seq<char>, citations: Set<Seq<char>>)
    requires
        command_names(CommandName::GlossaryEntryDefinition).contains(name),
    ensures
        spec_classify(name, citations) == CommandName::GlossaryEntryDefinition,
{
    lemma_names_0();
    lemma_names_1();
    lemma_names_2();
    lemma_names_3();
    lemma_names_4();
    lemma_names_5();
    lemma_names_6();
    lemma_names_7();
    lemma_names_8();
    lemma_names_9();
    lemma_names_10();
    lemma_names_11();
    lemma_names_12();
    lemma_names_13();
    lemma_names_14();
    lemma_names_15();
    lemma_names_16();
    lemma_names_17();
    lemma_names_18();
    lemma_names_19();
    lemma_names_20();
    lemma_names_21();
    lemma_names_22();
    lemma_names_23();
    lemma_names_24();
    lemma_names_25();
    lemma_names_26();
    lemma_names_27();
    lemma_names_28();
}

proof fn lemma_class_glossary_entry_reference(name: Seq<char>, citations: Set<Seq<char>>)
    requires
        command_names(CommandName::GlossaryEntryReference).contains(name),
    ensures
        spec_classify(name, citations) == CommandName::GlossaryEntryReference,
{
    lemma_names_0();
    lemma_names_1();
    lemma_names_2();
    lemma_names_3();
    lemma_names_4();
    lemma_names_5();
    lemma_names_6();
    lemma_names_7();
    lemma_names_8();
    lemma_names_9();
    lemma_names_10();
    lemma_names_11();
    lemma_names_12();
    lemma_names_13();
    lemma_names_14();
    lemma_names_15();
    lemma_names_16();
    lemma_names_17();
    lemma_names_18();
    lemma_names_19();
    lemma_names_20();
    lemma_names_21();
    lemma_names_22();
    lemma_names_23();
    lemma_names_24();
    lemma_names_25();
    lemma_names_26();
    lemma_names_27();
    lemma_names_28();
}

proof fn lemma_class_acronym_definition(name: Seq<char>, citations: Set<Seq<char>>)
    requires
        command_names(CommandName::AcronymDefinition).contains(name),
    ensures
        spec_classify(name, citations) == CommandName::AcronymDefinition,
{
    lemma_names_0();
    lemma_names_1();
    lemma_names_2();
    lemma_names_3();
    lemma_names_4();
    lemma_names_5();
    lemma_names_6();
    lemma_names_7();
    lemma_names_8();
    lemma_names_9();
    lemma_names_10();
    lemma_names_11();
    lemma_names_12();
    lemma_names_13();
    lemma_names_14();
    lemma_names_15();
    lemma_names_16();
    lemma_names_17();
    lemma_names_18();
    lemma_names_19();
    lemma_names_20();
    lemma_names_21();
    lemma_names_22();
    lemma_names_23();
    lemma_names_24();
    lemma_names_25();
    lemma_names_26();
    lemma_names_27();
    lemma_names_28();
}

proof fn lemma_class_acronym_declaration(name: Seq<char>, citations: Set<Seq<char>>)
    requires
        command_names(CommandName::AcronymDeclaration).contains(name),
    ensures
        spec_classify(name, citations) == CommandName::AcronymDeclaration,
{
    lemma_names_0();
    lemma_names_1();
    lemma_names_2();
    lemma_names_3();
    lemma_names_4();
    lemma_names_5();
    lemma_names_6();
    lemma_names_7();
    lemma_names_8();
    lemma_names_9();
    lemma_names_10();
    lemma_names_11();
    lemma_names_12();
    lemma_names_13();
    lemma_names_14();
    lemma_names_15();
    lemma_names_16();
    lemma_names_17();
    lemma_names_18();
    lemma_names_19();
    lemma_names_20();
    lemma_names_21();
    lemma_names_22();
    lemma_names_23();
    lemma_names_24();
    lemma_names_25();
    lemma_names_26();
    lemma_names_27();
    lemma_names_28();
}

proof fn lemma_class_acronym_reference(name: Seq<char>, citations: Set<Seq<char>>)
    requires
        command_names(CommandName::AcronymReference).contains(name),
    ensures
        spec_classify(name, citations) == CommandName::AcronymReference,
{
    lemma_names_0();
    lemma_names_1();
    lemma_names_2();
    lemma_names_3();
    lemma_names_4();
    lemma_names_5();
    lemma_names_6();
    lemma_names_7();
    lemma_names_8();
    lemma_names_9();
    lemma_names_10();
    lemma_names_11();
    lemma_names_12();
    lemma_names_13();
    lemma_names_14();
    lemma_names_15();
    lemma_names_16();
    lemma_names_17();
    lemma_names_18();
    lemma_names_19();
    lemma_names_20();
    lemma_names_21();
    lemma_names_22();
    lemma_names_23();
    lemma_names_24();
    lemma_names_25();
    lemma_names_26();
    lemma_names_27();
    lemma_names_28();
}

proof fn lemma_class_theorem_definition_ams_thm(name: Seq<char>, citations: Set<Seq<char>>)
    requires
        command_names(CommandName::TheoremDefinitionAmsThm).contains(name),
    ensures
        spec_classify(name, citations) == CommandName::TheoremDefinitionAmsThm,
{
    lemma_names_0();
    lemma_names_1();
    lemma_names_2();
    lemma_names_3();
    lemma_names_4();
    lemma_names_5();
    lemma_names_6();
    lemma_names_7();
    lemma_names_8();
    lemma_names_9();
    lemma_names_10();
    lemma_names_11();
    lemma_names_12();
    lemma_names_13();
    lemma_names_14();
    lemma_names_15();
    lemma_names_16();
    lemma_names_17();
    lemma_names_18();
    lemma_names_19();
    lemma_names_20();
    lemma_names_21();
    lemma_names_22();
    lemma_names_23();
    lemma_names_24();
    lemma_names_25();
    lemma_names_26();
    lemma_names_27();
    lemma_names_28();
}

proof fn lemma_class_theorem_definition_thm_tools(name: Seq<char>, citations: Set<Seq<char>>)
    requires
        command_names(CommandName::TheoremDefinitionThmTools).contains(name),
    ensures
        spec_classify(name, citations) == CommandName::TheoremDefinitionThmTools,
{
    lemma_names_0();
    lemma_names_1();
    lemma_names_2();
    lemma_names_3();
    lemma_names_4();
    lemma_names_5();
    lemma_names_6();
    lemma_names_7();
    lemma_names_8();
    lemma_names_9();
    lemma_names_10();
    lemma_names_11();
    lemma_names_12();
    lemma_names_13();
    lemma_names_14();
    lemma_names_15();
    lemma_names_16();
    lemma_names_17();
    lemma_names_18();
    lemma_names_19();
    lemma_names_20();
    lemma_names_21();
    lemma_names_22();
    lemma_names_23();
    lemma_names_24();
    lemma_names_25();
    lemma_names_26();
    lemma_names_27();
    lemma_names_28();
}

proof fn lemma_class_color_reference(name: Seq<char>, citations: Set<Seq<char>>)
    requires
        command_names(CommandName::ColorReference).contains(name),
    ensures
        spec_classify(name, citations) == CommandName::ColorReference,
{
    lemma_names_0();
    lemma_names_1();
    lemma_names_2();
    lemma_names_3();
    lemma_names_4();
    lemma_names_5();
    lemma_names_6();
    lemma_names_7();
    lemma_names_8();
    lemma_names_9();
    lemma_names_10();
    lemma_names_11();
    lemma_names_12();
    lemma_names_13();
    lemma_names_14();
    lemma_names_15();
    lemma_names_16();
    lemma_names_17();
    lemma_names_18();
    lemma_names_19();
    lemma_names_20();
    lemma_names_21();
    lemma_names_22();
    lemma_names_23();
    lemma_names_24();
    lemma_names_25();
    lemma_names_26();
    lemma_names_27();
    lemma_names_28();
}

proof fn lemma_class_color_definition(name: Seq<char>, citations: Set<Seq<char>>)
    requires
        command_names(CommandName::ColorDefinition).contains(name),
    ensures
        spec_classify(name, citations) == CommandName::ColorDefinition,
{
    lemma_names_0();
    lemma_names_1();
    lemma_names_2();
    lemma_names_3();
    lemma_names_4();
    lemma_names_5();
    lemma_names_6();
    lemma_names_7();
    lemma_names_8();
    lemma_names_9();
    lemma_names_10();
    lemma_names_11();
    lemma_names_12();
    lemma_names_13();
    lemma_names_14();
    lemma_names_15();
    lemma_names_16();
    lemma_names_17();
    lemma_names_18();
    lemma_names_19();
    lemma_names_20();
    lemma_names_21();
    lemma_names_22();
    lemma_names_23();
    lemma_names_24();
    lemma_names_25();
    lemma_names_26();
    lemma_names_27();
    lemma_names_28();
}

proof fn lemma_class_color_set_definition(name: Seq<char>, citations: Set<Seq<char>>)
    requires
        command_names(CommandName::ColorSetDefinition).contains(name),
    ensures
        spec_classify(name, citations) == CommandName::ColorSetDefinition,
{
    lemma_names_0();
    lemma_names_1();
    lemma_names_2();
    lemma_names_3();
    lemma_names_4();
    lemma_names_5();
    lemma_names_6();
    lemma_names_7();
    lemma_names_8();
    lemma_names_9();
    lemma_names_10();
    lemma_names_11();
    lemma_names_12();
    lemma_names_13();
    lemma_names_14();
    lemma_names_15();
    lemma_names_16();
    lemma_names_17();
    lemma_names_18();
    lemma_names_19();
    lemma_names_20();
    lemma_names_21();
    lemma_names_22();
    lemma_names_23();
    lemma_names_24();
    lemma_names_25();
    lemma_names_26();
    lemma_names_27();
    lemma_names_28();
}

proof fn lemma_class_tikz_library_import(name: Seq<char>, citations: Set<Seq<char>>)
    requires
        command_names(CommandName::TikzLibraryImport).contains(name),
    ensures
        spec_classify(name, citations) == CommandName::TikzLibraryImport,
{
    lemma_names_0();
    lemma_names_1();
    lemma_names_2();
    lemma_names_3();
    lemma_names_4();
    lemma_names_5();
    lemma_names_6();
    lemma_names_7();
    lemma_names_8();
    lemma_names_9();
    lemma_names_10();
    lemma_names_11();
    lemma_names_12();
    lemma_names_13();
    lemma_names_14();
    lemma_names_15();
    lemma_names_16();
    lemma_names_17();
    lemma_names_18();
    lemma_names_19();
    lemma_names_20();
    lemma_names_21();
    lemma_names_22();
    lemma_names_23();
    lemma_names_24();
    lemma_names_25();
    lemma_names_26();
    lemma_names_27();
    lemma_names_28();
}

proof fn lemma_class_environment_definition(name: Seq<char>, citations: Set<Seq<char>>)
    requires
        command_names(CommandName::EnvironmentDefinition).contains(name),
    ensures
        spec_classify(name, citations) == CommandName::EnvironmentDefinition,
{
    lemma_names_0();
    lemma_names_1();
    lemma_names_2();
    lemma_names_3();
    lemma_names_4();
    lemma_names_5();
    lemma_names_6();
    lemma_names_7();
    lemma_names_8();
    lemma_names_9();
    lemma_names_10();
    lemma_names_11();
    lemma_names_12();
    lemma_names_13();
    lemma_names_14();
    lemma_names_15();
    lemma_names_16();
    lemma_names_17();
    lemma_names_18();
    lemma_names_19();
    lemma_names_20();
    lemma_names_21();
    lemma_names_22();
    lemma_names_23();
    lemma_names_24();
    lemma_names_25();
    lemma_names_26();
    lemma_names_27();
    lemma_names_28();
}

proof fn lemma_class_graphics_path(name: Seq<char>, citations: Set<Seq<char>>)
    requires
        command_names(CommandName::GraphicsPath).contains(name),
    ensures
        spec_classify(name, citations) == CommandName::GraphicsPath,
{
    lemma_names_0();
    lemma_names_1();
    lemma_names_2();
    lemma_names_3();
    lemma_names_4();
    lemma_names_5();
    lemma_names_6();
    lemma_names_7();
    lemma_names_8();
    lemma_names_9();
    lemma_names_10();
    lemma_names_11();
    lemma_names_12();
    lemma_names_13();
    lemma_names_14();
    lemma_names_15();
    lemma_names_16();
    lemma_names_17();
    lemma_names_18();
    lemma_names_19();
    lemma_names_20();
    lemma_names_21();
    lemma_names_22();
    lemma_names_23();
    lemma_names_24();
    lemma_names_25();
    lemma_names_26();
    lemma_names_27();
    lemma_names_28();
}

proof fn lemma_class_begin_block_comment(name: Seq<char>, citations: Set<Seq<char>>)
    requires
        command_names(CommandName::BeginBlockComment).contains(name),
    ensures
        spec_classify(name, citations) == CommandName::BeginBlockComment,
{
    lemma_names_0();
    lemma_names_1();
    lemma_names_2();
    lemma_names_3();
    lemma_names_4();
    lemma_names_5();
    lemma_names_6();
    lemma_names_7();
    lemma_names_8();
    lemma_names_9();
    lemma_names_10();
    lemma_names_11();
    lemma_names_12();
    lemma_names_13();
    lemma_names_14();
    lemma_names_15();
    lemma_names_16();
    lemma_names_17();
    lemma_names_18();
    lemma_names_19();
    lemma_names_20();
    lemma_names_21();
    lemma_names_22();
    lemma_names_23();
    lemma_names_24();
    lemma_names_25();
    lemma_names_26();
    lemma_names_27();
    lemma_names_28();
}

proof fn lemma_class_end_block_comment(name: Seq<char>, citations: Set<Seq<char>>)
    requires
        command_names(CommandName::EndBlockComment).contains(name),
    ensures
        spec_classify(name, citations) == CommandName::EndBlockComment,
{
    lemma_names_0();
    lemma_names_1();
    lemma_names_2();
    lemma_names_3();
    lemma_names_4();
    lemma_names_5();
    lemma_names_6();
    lemma_names_7();
    lemma_names_8();
    lemma_names_9();
    lemma_names_10();
    lemma_names_11();
    lemma_names_12();
    lemma_names_13();
    lemma_names_14();
    lemma_names_15();
    lemma_names_16();
    lemma_names_17();
    lemma_names_18();
    lemma_names_19();
    lemma_names_20();
    lemma_names_21();
    lemma_names_22();
    lemma_names_23();
    lemma_names_24();
    lemma_names_25();
    lemma_names_26();
    lemma_names_27();
    lemma_names_28();
}

proof fn lemma_class_verbatim_block(name: Seq<char>, citations: Set<Seq<char>>)
    requires
        command_names(CommandName::VerbatimBlock).contains(name),
    ensures
        spec_classify(name, citations) == CommandName::VerbatimBlock,
{
    lemma_names_0();
    lemma_names_1();
    lemma_names_2();
    lemma_names_3();
    lemma_names_4();
    lemma_names_5();
    lemma_names_6();
    lemma_names_7();
    lemma_names_8();
    lemma_names_9();
    lemma_names_10();
    lemma_names_11();
    lemma_names_12();
    lemma_names_13();
    lemma_names_14();
    lemma_names_15();
    lemma_names_16();
    lemma_names_17();
    lemma_names_18();
    lemma_names_19();
    lemma_names_20();
    lemma_names_21();
    lemma_names_22();
    lemma_names_23();
    lemma_names_24();
    lemma_names_25();
    lemma_names_26();
    lemma_names_27();
    lemma_names_28();
}

proof fn lemma_class_bib_item(name: Seq<char>, citations: Set<Seq<char>>)
    requires
        command_names(CommandName::BibItem).contains(name),
    ensures
        spec_classify(name, citations) == CommandName::BibItem,
{
    lemma_names_0();
    lemma_names_1();
    lemma_names_2();
    lemma_names_3();
    lemma_names_4();
    lemma_names_5();
    lemma_names_6();
    lemma_names_7();
    lemma_names_8();
    lemma_names_9();
    lemma_names_10();
    lemma_names_11();
    lemma_names_12();
    lemma_names_13();
    lemma_names_14();
    lemma_names_15();
    lemma_names_16();
    lemma_names_17();
    lemma_names_18();
    lemma_names_19();
    lemma_names_20();
    lemma_names_21();
    lemma_names_22();
    lemma_names_23();
    lemma_names_24();
    lemma_names_25();
    lemma_names_26();
    lemma_names_27();
    lemma_names_28();
}

proof fn lemma_class_toc_contents_line(name: Seq<char>, citations: Set<Seq<char>>)
    requires
        command_names(CommandName::TocContentsLine).contains(name),
    ensures
        spec_classify(name, citations) == CommandName::TocContentsLine,
{
    lemma_names_0();
    lemma_names_1();
    lemma_names_2();
    lemma_names_3();
    lemma_names_4();
    lemma_names_5();
    lemma_names_6();
    lemma_names_7();
    lemma_names_8();
    lemma_names_9();
    lemma_names_10();
    lemma_names_11();
    lemma_names_12();
    lemma_names_13();
    lemma_names_14();
    lemma_names_15();
    lemma_names_16();
    lemma_names_17();
    lemma_names_18();
    lemma_names_19();
    lemma_names_20();
    lemma_names_21();
    lemma_names_22();
    lemma_names_23();
    lemma_names_24();
    lemma_names_25();
    lemma_names_26();
    lemma_names_27();
    lemma_names_28();
}

proof fn lemma_class_toc_number_line(name: Seq<char>, citations: Set<Seq<char>>)
    requires
        command_names(CommandName::TocNumberLine).contains(name),
    ensures
        spec_classify(name, citations) == CommandName::TocNumberLine,
{
    lemma_names_0();
    lemma_names_1();
    lemma_names_2();
    lemma_names_3();
    lemma_names_4();
    lemma_names_5();
    lemma_names_6();
    lemma_names_7();
    lemma_names_8();
    lemma_names_9();
    lemma_names_10();
    lemma_names_11();
    lemma_names_12();
    lemma_names_13();
    lemma_names_14();
    lemma_names_15();
    lemma_names_16();
    lemma_names_17();
    lemma_names_18();
    lemma_names_19();
    lemma_names_20();
    lemma_names_21();
    lemma_names_22();
    lemma_names_23();
    lemma_names_24();
    lemma_names_25();
    lemma_names_26();
    lemma_names_27();
    lemma_names_28();
}

/// The table decides the class of every command it lists: a command whose
/// name is listed under class `c` has class `c`, whatever the configured
/// citation commands are.
pub proof fn law_classify_listed(name: Seq<char>, citations: Set<Seq<char>>, c: CommandName)
    requires
        command_names(c).contains(name),
    ensures
        spec_classify(name, citations) == c,
{
    match c {
        CommandName::BeginEnvironment => lemma_class_begin_environment(name, citations),
        CommandName::EndEnvironment => lemma_class_end_environment(name, citations),
        CommandName::BeginEquation => lemma_class_begin_equation(name, citations),
        CommandName::EndEquation => lemma_class_end_equation(name, citations),
        CommandName::Section(SectionLevel::Part) => lemma_class_section_part(name, citations),
        CommandName::Section(SectionLevel::Chapter) => lemma_class_section_chapter(name, citations),
        CommandName::Section(SectionLevel::Section) => lemma_class_section_section(name, citations),
        CommandName::Section(SectionLevel::Subsection) => lemma_class_section_subsection(name, citations),
        CommandName::Section(SectionLevel::Subsubsection) => lemma_class_section_subsubsection(name, citations),
        CommandName::Paragraph(ParagraphLevel::Paragraph) => lemma_class_paragraph_paragraph(name, citations),
        CommandName::Paragraph(ParagraphLevel::Subparagraph) => lemma_class_paragraph_subparagraph(name, citations),
        CommandName::EnumItem => lemma_class_enum_item(name, citations),
        CommandName::Caption => lemma_class_caption(name, citations),
        CommandName::PackageInclude => lemma_class_package_incl(name, citations),
        CommandName::ClassInclude => lemma_class_class_incl(name, citations),
        CommandName::LatexInclude => lemma_class_latex_incl(name, citations),
        CommandName::BiblatexInclude => lemma_class_biblatex_incl(name, citations),
        CommandName::BibtexInclude => lemma_class_bibtex_incl(name, citations),
        CommandName::GraphicsInclude => lemma_class_graphics_incl(name, citations),
        CommandName::SvgInclude => lemma_class_svg_incl(name, citations),
        CommandName::InkscapeInclude => lemma_class_inkscape_incl(name, citations),
        CommandName::VerbatimInclude => lemma_class_verbatim_incl(name, citations),
        CommandName::Import => lemma_class_import(name, citations),
        CommandName::LabelDefinition => lemma_class_label_definition(name, citations),
        CommandName::LabelReference => lemma_class_label_reference(name, citations),
        CommandName::LabelReferenceRange => lemma_class_label_reference_range(name, citations),
        CommandName::LabelNumber => lemma_class_label_number(name, citations),
        CommandName::OldCommandDefinition => lemma_class_old_command_definition(name, citations),
        CommandName::NewCommandDefinition => lemma_class_new_command_definition(name, citations),
        CommandName::MathOperator => lemma_class_math_operator(name, citations),
        CommandName::GlossaryEntryDefinition => lemma_class_glossary_entry_definition(name, citations),
        CommandName::GlossaryEntryReference => lemma_class_glossary_entry_reference(name, citations),
        CommandName::AcronymDefinition => lemma_class_acronym_definition(name, citations),
        CommandName::AcronymDeclaration => lemma_class_acronym_declaration(name, citations),
        CommandName::AcronymReference => lemma_class_acronym_reference(name, citations),
        CommandName::TheoremDefinitionAmsThm => lemma_class_theorem_definition_ams_thm(name, citations),
        CommandName::TheoremDefinitionThmTools => lemma_class_theorem_definition_thm_tools(name, citations),
        CommandName::ColorReference => lemma_class_color_reference(name, citations),
        CommandName::ColorDefinition => lemma_class_color_definition(name, citations),
        CommandName::ColorSetDefinition => lemma_class_color_set_definition(name, citations),
        CommandName::TikzLibraryImport => lemma_class_tikz_library_import(name, citations),
        CommandName::EnvironmentDefinition => lemma_class_environment_definition(name, citations),
        CommandName::GraphicsPath => lemma_class_graphics_path(name, citations),
        CommandName::BeginBlockComment => lemma_class_begin_block_comment(name, citations),
        CommandName::EndBlockComment => lemma_class_end_block_comment(name, citations),
        CommandName::VerbatimBlock => lemma_class_verbatim_block(name, citations),
        CommandName::BibItem => lemma_class_bib_item(name, citations),
        CommandName::TocContentsLine => lemma_class_toc_contents_line(name, citations),
        CommandName::TocNumberLine => lemma_class_toc_number_line(name, citations),
        CommandName::Citation | CommandName::Generic => {},
    }
}

/// A command that the table does not list is a citation when the
/// configuration names it as a citation command, and generic otherwise.
pub proof fn law_classify_unlisted(name: Seq<char>, citations: Set<Seq<char>>)
    requires
        forall|c: CommandName| !(#[trigger] command_names(c).contains(name)),
    ensures
        spec_classify(name, citations) == if citations.contains(name) {
            CommandName::Citation
        } else {
            CommandName::Generic
        },
{
    assert(!command_names(CommandName::BeginEnvironment).contains(name));
    assert(!command_names(CommandName::EndEnvironment).contains(name));
    assert(!command_names(CommandName::BeginEquation).contains(name));
    assert(!command_names(CommandName::EndEquation).contains(name));
    assert(!command_names(CommandName::Section(SectionLevel::Part)).contains(name));
    assert(!command_names(CommandName::Section(SectionLevel::Chapter)).contains(name));
    assert(!command_names(CommandName::Section(SectionLevel::Section)).contains(name));
    assert(!command_names(CommandName::Section(SectionLevel::Subsection)).contains(name));
    assert(!command_names(CommandName::Section(SectionLevel::Subsubsection)).contains(name));
    assert(!command_names(CommandName::Paragraph(ParagraphLevel::Paragraph)).contains(name));
    assert(!command_names(CommandName::Paragraph(ParagraphLevel::Subparagraph)).contains(name));
    assert(!command_names(CommandName::EnumItem).contains(name));
    assert(!command_names(CommandName::Caption).contains(name));
    assert(!command_names(CommandName::PackageInclude).contains(name));
    assert(!command_names(CommandName::ClassInclude).contains(name));
    assert(!command_names(CommandName::LatexInclude).contains(name));
    assert(!command_names(CommandName::BiblatexInclude).contains(name));
    assert(!command_names(CommandName::BibtexInclude).contains(name));
    assert(!command_names(CommandName::GraphicsInclude).contains(name));
    assert(!command_names(CommandName::SvgInclude).contains(name));
    assert(!command_names(CommandName::InkscapeInclude).contains(name));
    assert(!command_names(CommandName::VerbatimInclude).contains(name));
    assert(!command_names(CommandName::Import).contains(name));
    assert(!command_names(CommandName::LabelDefinition).contains(name));
    assert(!command_names(CommandName::LabelReference).contains(name));
    assert(!command_names(CommandName::LabelReferenceRange).contains(name));
    assert(!command_names(CommandName::LabelNumber).contains(name));
    assert(!command_names(CommandName::OldCommandDefinition).contains(name));
    assert(!command_names(CommandName::NewCommandDefinition).contains(name));
    assert(!command_names(CommandName::MathOperator).contains(name));
    assert(!command_names(CommandName::GlossaryEntryDefinition).contains(name));
    assert(!command_names(CommandName::GlossaryEntryReference).contains(name));
    assert(!command_names(CommandName::AcronymDefinition).contains(name));
    assert(!command_names(CommandName::AcronymDeclaration).contains(name));
    assert(!command_names(CommandName::AcronymReference).contains(name));
    assert(!command_names(CommandName::TheoremDefinitionAmsThm).contains(name));
    assert(!command_names(CommandName::TheoremDefinitionThmTools).contains(name));
    assert(!command_names(CommandName::ColorReference).contains(name));
    assert(!command_names(CommandName::ColorDefinition).contains(name));
    assert(!command_names(CommandName::ColorSetDefinition).contains(name));
    assert(!command_names(CommandName::TikzLibraryImport).contains(name));
    assert(!command_names(CommandName::EnvironmentDefinition).contains(name));
    assert(!command_names(CommandName::GraphicsPath).contains(name));
    assert(!command_names(CommandName::BeginBlockComment).contains(name));
    assert(!command_names(CommandName::EndBlockComment).contains(name));
    assert(!command_names(CommandName::VerbatimBlock).contains(name));
    assert(!command_names(CommandName::BibItem).contains(name));
    assert(!command_names(CommandName::TocContentsLine).contains(name));
    assert(!command_names(CommandName::TocNumberLine).contains(name));
}

} // verus!
