use vstd::prelude::*;

verus! {

/// Why a slot's value could not be read.
#[derive(Debug, Clone, Copy, Hash, PartialEq, Eq, Structural)]
pub enum InheritableAccessError {
    /// A table is active, but this slot has no value in it.
    NotInTable,
    /// A table is active, but no scope has bound anything in its lineage.
    TableEmpty,
    /// A table is active, but it has no cell for this slot's identifier.
    InvalidKey,
    /// No table is active: the unit of work runs outside the scoping machinery.
    NotInTokio,
}

} // verus!
