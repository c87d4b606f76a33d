//! An operational network shell: a tree of branches to navigate, actions to
//! run, and a registry that classifies each input line.
pub mod cli;
pub mod laws;
pub mod route;
