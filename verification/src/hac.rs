//! The files of the platform: containers, content objects and tickets.
pub mod rom;
pub mod ticket;
