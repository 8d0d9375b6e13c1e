//! Extraction and classification of package containers with the help of an
//! outside tool.
//!
//! The library decides and the caller acts: nothing here runs a program or
//! touches the disk. A function takes what the caller has read (the names in
//! a directory, what the tool printed) and gives back what is to be done or
//! what was found, and its contract says so exactly.
//!
//! - [`cache`]: where the executables of the tools are kept, and when one is
//!   written.
//! - [`hac::rom`]: containers, the recovery of their title key, and the
//!   content objects inside them with their types.
//! - [`hac::ticket`]: the title key.
//! - [`error`]: the kinds of file and the ways to fail.
//! - [`path`] and [`text`]: the grammar of paths and the scanning of text that
//!   the rest is built on.
pub mod cache;
pub mod error;
pub mod hac;
pub mod path;
pub mod text;
