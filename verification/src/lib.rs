//! Decision logic of a launcher that makes sure the `micromamba` binary and a
//! default environment are present before handing the command line over to it.
//!
//! The library starts no process and reads or writes no file. It is driven by
//! a caller that performs each [`bootstrap::Action`] and reports what happened
//! as a [`bootstrap::Event`].

pub mod arch;
pub mod archive;
pub mod error;
pub mod locate;
pub mod paths;
pub mod bootstrap;
pub mod laws;
