//! Inheritable task-local slots.
//!
//! A slot is a typed handle whose value is visible only inside a dynamic
//! scope. The values of all slots visible to one unit of work are kept in a
//! context table: a copy-on-write sequence of optional shared cells indexed by
//! slot identifier. Entering a scope derives a new table from the active one;
//! capturing hands a unit of work the table that was active when it was
//! captured, so that it sees the bindings of the unit that spawned it.
//!
//! The association between a running unit of work and its active table is
//! kept by the executor. Every operation here takes the active table
//! explicitly (`None` where the unit runs outside any scoping machinery), so
//! that each can state exactly what it reads and what it builds.

mod error;
mod key;
pub mod laws;
mod registry;
mod table;

pub use error::InheritableAccessError;
pub use key::InheritableLocalKey;
pub use registry::SlotRegistry;
pub use table::{
    access, active_view, captured, maybe_init_task_locals, new_task_local_table, scoped, widened,
    TaskLocalInheritableTable,
};
