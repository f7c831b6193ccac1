use vstd::prelude::*;

use super::{Distribution, DistributionKind, Format, OutputKind};

verus! {

/// The Tectonic engine, which writes PDF in every format but LuaLaTeX's.
#[derive(Debug, Default)]
pub struct Tectonic;

impl Tectonic {
    /// The Tectonic distribution.
    pub fn new() -> (t: Self)
        ensures
            t == Tectonic,
    {
        Tectonic
    }
}

impl Distribution for Tectonic {
    fn kind(&self) -> (k: DistributionKind)
        ensures
            k == DistributionKind::Tectonic,
    {
        DistributionKind::Tectonic
    }

    fn supports_format(&self, format: Format) -> (b: bool)
        ensures
            b == (format != Format::Lualatex),
    {
        match format {
            Format::Latex | Format::Pdflatex | Format::Xelatex => true,
            Format::Lualatex => false,
        }
    }

    fn output_kind(&self, _format: Format) -> (k: OutputKind)
        ensures
            k == OutputKind::Pdf,
    {
        OutputKind::Pdf
    }
}

} // verus!
