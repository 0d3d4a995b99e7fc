//! Resolution and placement of globally installed command-line packages.
//!
//! The crate decides where the state of a global installation lives below a
//! home directory, says what has to be fetched, turns a package specification
//! into a request for the conda solver, finds the record of an installed
//! package again, and chooses and orders the packages of a listing.
//! Everything that touches the file system, the network or the environment
//! stays with the caller, who hands in what was observed.

pub mod error;
pub mod fetch;
pub mod layout;
pub mod list;
pub mod locate;
pub mod order;
pub mod outside;
pub mod package_name;
pub mod resolve;
pub mod text;
