//! A Model Context Protocol server that offers file, git, shell and Obsidian
//! tools. This library holds what the server decides: which requests get an
//! answer, which tool a call names, what each tool runs with the arguments it
//! was given, and the answer it gives once the system has done the work.
use vstd::prelude::*;

pub mod text;
pub mod args;
pub mod tools;
pub mod protocol;
pub mod catalog;

verus! {
} // verus!
