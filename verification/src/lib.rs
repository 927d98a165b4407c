//! Decision logic of a self-update: which step runs next, what a failed step
//! means, where a snapshot lives on disk, and which filesystem steps take a
//! snapshot or restore one.  Apart from reading the clock for a snapshot's
//! name the library performs no I/O; a caller performs the steps it is
//! handed and reports back what happened.

mod clock;
pub mod command;
pub mod error;
pub mod layout;
pub mod orchestrator;
pub mod plan;
pub mod release;
pub mod restore;
pub mod staging;
