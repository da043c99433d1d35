//! A numbered notebook of markdown notes kept in a version-controlled folder.
//!
//! The library holds the decisions of a note-taking run: which command the
//! arguments ask for, what the next note is called, what its header and its
//! content are, and which version-control commands publish it. It performs no
//! input or output itself. A driver performs the actions the library asks for
//! and hands the outcomes back.

pub mod cli;
pub mod config;
pub mod error;
pub mod header;
pub mod note;
pub mod pipeline;
pub mod publisher;
pub mod sequencer;
pub mod text;
