use std::time::Duration;

use vstd::prelude::*;

use crate::scan::{find_from, first_match};
use crate::text::chars_of;

pub mod miktex;
pub mod tectonic;
pub mod texlive;

verus! {

/// Declares `std::io::Error`, the error of an input or output operation.
#[verifier::external_type_specification]
#[verifier::external_body]
pub struct ExIoError(std::io::Error);

/// The TeX engine that compiles a document.
#[derive(Debug, PartialEq, Eq, Clone, Copy, Structural)]
pub enum Format {
    Latex,
    Pdflatex,
    Xelatex,
    Lualatex,
}

/// The name of the program of each format.
pub open spec fn format_executable(format: Format) -> Seq<char> {
    match format {
        Format::Latex => "latex"@,
        Format::Pdflatex => "pdflatex"@,
        Format::Xelatex => "xelatex"@,
        Format::Lualatex => "lualatex"@,
    }
}

impl Format {
    /// The name of the program that runs this format.
    pub fn executable(self) -> (r: &'static str)
        ensures
            r@ == format_executable(self),
    {
        match self {
            Format::Latex => "latex",
            Format::Pdflatex => "pdflatex",
            Format::Xelatex => "xelatex",
            Format::Lualatex => "lualatex",
        }
    }
}

/// The kind of document that a compilation writes.
#[derive(Debug, PartialEq, Eq, Clone, Copy, Structural)]
pub enum OutputKind {
    Dvi,
    Pdf,
}

/// Why a compilation failed.
#[derive(Debug)]
pub enum CompileError {
    IO(std::io::Error),
    NotInstalled,
    Timeout,
}

impl From<std::io::Error> for CompileError {
    fn from(error: std::io::Error) -> (r: Self) {
        CompileError::IO(error)
    }
}

impl vstd::std_specs::convert::FromSpecImpl<std::io::Error> for CompileError {
    open spec fn obeys_from_spec() -> bool {
        true
    }

    open spec fn from_spec(error: std::io::Error) -> Self {
        CompileError::IO(error)
    }
}

/// What a compilation is asked to do: write `code` to `file_name`, run the
/// program of `format` on it, and give up after `timeout`.
#[derive(Debug, PartialEq, Eq, Clone, Copy)]
pub struct CompileParams<'a> {
    pub file_name: &'a str,
    pub code: &'a str,
    pub format: Format,
    pub timeout: Duration,
}

/// The TeX distributions that are told apart.
#[derive(Debug, PartialEq, Eq, Clone, Copy, Structural)]
pub enum DistributionKind {
    Texlive,
    Miktex,
    Tectonic,
    Unknown,
}

/// The distribution that a probe found: Tectonic when its program ran, else
/// TeX Live or MiKTeX when the version text of `latex` names it, else none
/// known.
pub open spec fn probed_kind(tectonic_runs: bool, latex_version: Option<Seq<char>>) -> DistributionKind {
    if tectonic_runs {
        DistributionKind::Tectonic
    } else {
        match latex_version {
            Some(v) => if first_match(v, "TeX Live"@) >= 0 {
                DistributionKind::Texlive
            } else if first_match(v, "MiKTeX"@) >= 0 {
                DistributionKind::Miktex
            } else {
                DistributionKind::Unknown
            },
            None => DistributionKind::Unknown,
        }
    }
}

/// Whether `needle` occurs in `text`.
pub fn str_contains(text: &str, needle: &str) -> (b: bool)
    ensures
        b == (first_match(text@, needle@) >= 0),
{
    let s = chars_of(text);
    let n = chars_of(needle);
    assert(s@.skip(0) =~= s@);
    find_from(&s, 0, &n).is_some()
}

impl DistributionKind {
    /// The distribution that a probe found: whether `tectonic --version`
    /// ran, and what `latex --version` wrote, if it ran.
    pub fn from_probe(tectonic_runs: bool, latex_version: Option<&str>) -> (k: Self)
        ensures
            k == probed_kind(
                tectonic_runs,
                match latex_version {
                    Some(v) => Some(v@),
                    None => None,
                },
            ),
    {
        if tectonic_runs {
            return DistributionKind::Tectonic;
        }
        match latex_version {
            Some(v) => if str_contains(v, "TeX Live") {
                DistributionKind::Texlive
            } else if str_contains(v, "MiKTeX") {
                DistributionKind::Miktex
            } else {
                DistributionKind::Unknown
            },
            None => DistributionKind::Unknown,
        }
    }
}

/// The kind of document that a format writes: DVI for `latex`, PDF for
/// the others.
pub open spec fn format_output_kind(format: Format) -> OutputKind {
    match format {
        Format::Latex => OutputKind::Dvi,
        _ => OutputKind::Pdf,
    }
}

/// A TeX distribution.
pub trait Distribution {
    /// Which distribution this is.
    fn kind(&self) -> DistributionKind;

    /// Whether the distribution can compile documents in `format`.
    fn supports_format(&self, format: Format) -> bool;

    /// The kind of document that compiling in `format` writes.
    fn output_kind(&self, format: Format) -> (k: OutputKind)
        default_ensures
            k == format_output_kind(format),
    {
        match format {
            Format::Latex => OutputKind::Dvi,
            Format::Pdflatex | Format::Xelatex | Format::Lualatex => OutputKind::Pdf,
        }
    }
}

/// A distribution that was not recognized: it compiles nothing.
#[derive(Debug, Default)]
pub struct Unknown;

impl Distribution for Unknown {
    fn kind(&self) -> (k: DistributionKind)
        ensures
            k == DistributionKind::Unknown,
    {
        DistributionKind::Unknown
    }

    fn supports_format(&self, _format: Format) -> (b: bool)
        ensures
            !b,
    {
        false
    }
}

/// The program and the arguments that compile a document with a
/// distribution of kind `kind`: `tectonic` on the file for Tectonic, the
/// format's program in batch mode with shell escape for the others, and
/// none for an unknown distribution, which is not installed.
pub open spec fn compile_invocation_of(
    kind: DistributionKind,
    format: Format,
    file_name: Seq<char>,
) -> Option<(Seq<char>, Seq<Seq<char>>)> {
    match kind {
        DistributionKind::Unknown => None,
        DistributionKind::Tectonic => Some(("tectonic"@, seq![file_name])),
        _ => Some(
            (
                format_executable(format),
                seq!["--interaction=batchmode"@, "-shell-escape"@, file_name],
            ),
        ),
    }
}

/// The program and the arguments that compile `params` with a distribution
/// of kind `kind`; none when no distribution is known.
pub fn compile_invocation<'a>(kind: DistributionKind, params: &CompileParams<'a>) -> (r: Option<
    (&'static str, Vec<&'a str>),
>)
    ensures
        match r {
            Some((program, args)) => compile_invocation_of(kind, params.format, params.file_name@)
                == Some((program@, Seq::new(args@.len(), |i: int| args@[i]@))),
            None => compile_invocation_of(kind, params.format, params.file_name@) is None,
        },
{
    match kind {
        DistributionKind::Unknown => None,
        DistributionKind::Tectonic => {
            let mut args: Vec<&'a str> = Vec::new();
            args.push(params.file_name);
            assert(Seq::new(args@.len(), |i: int| args@[i]@) =~= seq![params.file_name@]);
            Some(("tectonic", args))
        },
        _ => {
            let mut args: Vec<&'a str> = Vec::new();
            args.push("--interaction=batchmode");
            args.push("-shell-escape");
            args.push(params.file_name);
            assert(Seq::new(args@.len(), |i: int| args@[i]@) =~= seq![
                "--interaction=batchmode"@,
                "-shell-escape"@,
                params.file_name@,
            ]);
            Some((params.format.executable(), args))
        },
    }
}


/// Each format runs the program of its own name, and no two formats run the
/// same program.
pub proof fn law_format_executables(format: Format, other: Format)
    ensures
        format == Format::Latex ==> format_executable(format) == "latex"@,
        format == Format::Pdflatex ==> format_executable(format) == "pdflatex"@,
        format == Format::Xelatex ==> format_executable(format) == "xelatex"@,
        format == Format::Lualatex ==> format_executable(format) == "lualatex"@,
        format != other ==> format_executable(format) != format_executable(other),
{
    reveal_strlit("latex");
    reveal_strlit("pdflatex");
    reveal_strlit("xelatex");
    reveal_strlit("lualatex");
    if format != other && format_executable(format) == format_executable(other) {
        let a = format_executable(format);
        let b = format_executable(other);
        assert(a.len() == b.len());
        assert(a[0] == b[0]);
    }
}

/// Every distribution but an unknown one compiles a document: TeX Live and
/// MiKTeX run the format's program in batch mode with shell escape on the
/// file, and Tectonic runs `tectonic` on the file alone. An unknown
/// distribution compiles nothing.
pub proof fn law_compile_invocation(kind: DistributionKind, format: Format, file_name: Seq<char>)
    ensures
        compile_invocation_of(kind, format, file_name) is None <==> kind == DistributionKind::Unknown,
        kind == DistributionKind::Texlive || kind == DistributionKind::Miktex
            ==> compile_invocation_of(kind, format, file_name) == Some(
            (format_executable(format), seq!["--interaction=batchmode"@, "-shell-escape"@, file_name]),
        ),
        kind == DistributionKind::Tectonic ==> compile_invocation_of(kind, format, file_name) == Some(
            ("tectonic"@, seq![file_name]),
        ),
{
}


/// Whether `needle` occurs somewhere in `text`.
pub open spec fn mentions(text: Seq<char>, needle: Seq<char>) -> bool {
    exists|i: int| crate::scan::occurs_at(text, needle, i)
}

/// A probe finds Tectonic whenever its program runs; otherwise TeX Live when
/// the version text of `latex` mentions "TeX Live", MiKTeX when it mentions
/// "MiKTeX" and not "TeX Live", and no known distribution when it mentions
/// neither or `latex` did not run.
pub proof fn law_probed_kind(tectonic_runs: bool, latex_version: Option<Seq<char>>)
    ensures
        tectonic_runs ==> probed_kind(tectonic_runs, latex_version) == DistributionKind::Tectonic,
        !tectonic_runs && latex_version is None ==> probed_kind(tectonic_runs, latex_version)
            == DistributionKind::Unknown,
        !tectonic_runs && latex_version is Some ==> probed_kind(tectonic_runs, latex_version) == (
        if mentions(latex_version->0, "TeX Live"@) {
            DistributionKind::Texlive
        } else if mentions(latex_version->0, "MiKTeX"@) {
            DistributionKind::Miktex
        } else {
            DistributionKind::Unknown
        }),
{
    if let Some(v) = latex_version {
        crate::scan::lemma_first_match_least(v, "TeX Live"@);
        crate::scan::lemma_first_match_least(v, "MiKTeX"@);
        if first_match(v, "TeX Live"@) >= 0 {
            assert(crate::scan::occurs_at(v, "TeX Live"@, first_match(v, "TeX Live"@)));
        }
        if first_match(v, "MiKTeX"@) >= 0 {
            assert(crate::scan::occurs_at(v, "MiKTeX"@, first_match(v, "MiKTeX"@)));
        }
    }
}

} // verus!
