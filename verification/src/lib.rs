//! Resolver for editor-style path arguments.
//!
//! A command-line argument such as `src/main.rs:10:5` may name a file
//! together with a cursor position, or it may be the literal name of a
//! file that happens to contain colons. This crate decomposes such an
//! argument, probes the filesystem for each plausible reading, and
//! returns either a typed reference to an existing file or directory or
//! a structured error naming the fragment that could not be understood.

pub mod laws;
pub mod num;
pub mod parser;
pub mod probe;
pub mod resolve;
pub mod text;
