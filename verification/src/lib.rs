//! Selects directories for backup by scanning a tree for a marker extended
//! attribute, and assembles the argument vector for the external backup
//! engine (duplicity or restic) that will take the process over.
//!
//! The scan's selection policy, the argument layouts, and the command-line
//! validation are verified; the walk itself and the attribute reads enter
//! through the trusted wrappers in `walk`.

pub mod duplicity;
pub mod plan;
pub mod restic;
pub mod run;
pub mod scan;
pub mod views;
pub mod walk;
