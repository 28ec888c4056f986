//! Core of a small interactive command shell: tokenizing an input line,
//! dispatching the built-in commands, resolving `cd` targets, case-insensitive
//! file search, and path display. All input and output stays with the caller.
pub mod listing;
pub mod search;
pub mod shell;
pub mod text;
