//! A checker of the discipline of aliasing and mutation, one assignment at a time.
//!
//! The analysis keeps, for each memory location, the history of how it has
//! been referenced: its record of statuses. `check_assign` is the transfer
//! function for one assignment. It finds writes through a dereference that are
//! not provably exclusive and reads of a local binding that was written
//! through an alias, and it records the references and writes that the
//! assignment makes. Findings are collected, never raised: the environment is
//! updated as if every assignment were legal.
//!
//! Locations that name the same memory are brought to one canonical form by
//! the environment, which knows what each reference leads to.

pub mod checker;
pub mod diagnostic;
pub mod environment;
pub mod laws;
pub mod location;
pub mod location_map;
pub mod statement;
pub mod status;

pub use checker::{check_assign, check_destination, check_source, Checker};
pub use diagnostic::{Diagnostic, Violation};
pub use environment::{Environment, Snapshot};
pub use location::{Location, Selector};
pub use location_map::LocationMap;
pub use statement::{Operand, Rvalue, TypeKind};
pub use status::Status;
