//! Directory-listing core built around the kernel's batch directory-read
//! mechanism.
//!
//! The library holds the logic of the listing: sizing the read buffer from
//! the directory's storage size, decoding the kernel's variable-length
//! binary records, filtering out synthetic entries, and joining the root
//! path with each entry's name. The system calls themselves (opening the
//! directory, querying its size, refilling the buffer, closing the handle)
//! are performed by the embedding program, which drives the state machine
//! in [`reader::ReadDir`] and reports each call's outcome back to it.

use vstd::prelude::*;

pub mod capacity;
pub mod entry;
pub mod laws;
pub mod reader;
pub mod record;

verus! {

/// Compile-time witness that a type can be sent to and shared between
/// threads.
pub fn check_traits<T: Sync + Send>() {
}

} // verus!

