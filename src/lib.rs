//! Discovery and removal of the entries that make an operating system start
//! a program at boot or login.
//!
//! The readers here turn what was read from each backing store (directory
//! listings, command output, registry values) into uniform records, and the
//! deletion dispatcher turns a record into the exact operations that remove
//! it. Reading the stores and performing the operations is left to the caller.
pub mod platform;
pub mod text;
