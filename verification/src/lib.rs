//! Atomic, all-or-nothing replacement of a regular file's contents.
//!
//! A caller opens a handle on an existing file, reads and overwrites a
//! working image of its contents, and either commits the result — publishing
//! it under the original path as a single atomic transition — or abandons
//! the handle, leaving the original file untouched.

pub mod errors;
pub mod handle;
pub mod model;
pub mod paths;
mod sys;

pub use errors::AtomicError;
pub use handle::{append_chunk, atomic_swap, clone, get_tempfile, AtomicFile, SeekFrom};
pub use paths::get_tempfile_name;

use vstd::prelude::*;

verus! {

/// Masks a raw `st_mode` word down to its twelve permission bits (the
/// bits that are copied from the original file to the working file).
pub fn mask_mode(raw: u32) -> (r: u32)
    ensures
        r == raw & 0o7777u32,
        r <= 0o7777u32,
{
    assert(raw & 0o7777u32 <= 0o7777u32) by (bit_vector);
    raw & 0o7777u32
}

} // verus!
