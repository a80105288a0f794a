//! A to-do list kept in a plain text file, one task per line, each line
//! starting with a marker for the task's state: `[ ]` to do, `[+]` doing,
//! `[X]` done, `[-]` rejected.

pub mod console;
pub mod laws;
pub mod lines;
pub mod list;
pub mod session;
pub mod state;
