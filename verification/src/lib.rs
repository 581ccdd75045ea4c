//! Rows of a repository status screen.
//!
//! Given a snapshot of what a repository reports (branch tracking, an
//! operation in progress, file lists, flattened diffs and log), this crate
//! composes the ordered sequence of rows that a list pane shows. Every
//! function is verified against a mathematical description of the rows it
//! returns.

pub mod git;
pub mod guarantees;
pub mod items;
pub mod status;
pub mod text;
