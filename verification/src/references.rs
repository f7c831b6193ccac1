use vstd::prelude::*;

verus! {

/// Whether an occurrence of a name defines it or refers to it.
#[derive(Debug, PartialEq, Eq, PartialOrd, Ord, Clone, Copy, Hash, Structural)]
pub enum ReferenceKind {
    Definition,
    Reference,
}

} // verus!
