//! Export metadata encoding for a register-based guest virtual machine.
//!
//! The crate turns a `(module name, function name)` pair into a stable
//! linker symbol, encodes per-function export descriptors into byte-exact
//! metadata records, and aggregates the records into an export table whose
//! entries keep the declaration order. The actual placement of the produced
//! globals and directives into an object file is left to an unverified
//! code-generation front end.

pub mod descriptor;
pub mod driver;
pub mod errors;
pub mod mangle;
pub mod numerals;
pub mod records;
pub mod table;
