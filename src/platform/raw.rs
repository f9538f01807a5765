//! What the caller read from the backing stores, as plain values.
use vstd::prelude::*;

verus! {

/// One entry of a directory listing.
#[derive(Debug)]
pub struct DirEntry {
    /// The entry's file name, `None` where it is not valid Unicode.
    pub file_name: Option<String>,
    /// The entry's full path, as displayed.
    pub path: String,
    /// Whether the entry is a regular file (following links).
    pub is_file: bool,
}

/// What an external command produced.
#[derive(Debug)]
pub struct CommandOutput {
    /// Whether it exited with status zero.
    pub success: bool,
    pub stdout: Vec<u8>,
    pub stderr: Vec<u8>,
}

/// One value of a registry key.
#[derive(Debug)]
pub struct RegistryValue {
    pub name: String,
    /// The value's data, `None` where it is not a string or failed to decode.
    pub data: Option<String>,
}

} // verus!
