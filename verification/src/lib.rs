//! Markdown-to-HTML conversion with a watch loop, as a verified library.
//!
//! The library holds the decisions of the tool: how a document is rendered,
//! what a render cycle does with the result of each read and write, which
//! notifications of the file watcher start a new cycle, and what is printed.
//! Reading, writing, watching and printing are left to the caller, which
//! performs each action that the loop asks for and hands back what happened.

pub mod console;
pub mod laws;
pub mod outcome;
pub mod render;
pub mod request;
pub mod watch;
