use vstd::prelude::*;

use super::{Distribution, DistributionKind, Format};

verus! {

/// The MiKTeX distribution.
#[derive(Debug, Default)]
pub struct Miktex;

impl Distribution for Miktex {
    fn kind(&self) -> (k: DistributionKind)
        ensures
            k == DistributionKind::Miktex,
    {
        DistributionKind::Miktex
    }

    fn supports_format(&self, format: Format) -> (b: bool)
        ensures
            b,
    {
        match format {
            Format::Latex | Format::Pdflatex => true,
            Format::Xelatex | Format::Lualatex => true,
        }
    }
}

} // verus!
