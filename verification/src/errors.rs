//! Error taxonomy of the library, and the normalization of raw OS error
//! numbers into it at the syscall boundary.

use vstd::prelude::*;

verus! {

/// Linux value of `ENOENT` (no such file or directory).
pub const ENOENT_CODE: i32 = 2;

/// Linux value of `EIO` (input/output error).
pub const EIO_CODE: i32 = 5;

/// Linux value of `EISDIR` (is a directory).
pub const EISDIR_CODE: i32 = 21;

/// Linux value of `EINVAL` (invalid argument).
pub const EINVAL_CODE: i32 = 22;

/// Linux value of `EFBIG` (file too large).
pub const EFBIG_CODE: i32 = 27;

/// Linux value of `EOVERFLOW` (value too large for the data type).
pub const EOVERFLOW_CODE: i32 = 75;

/// Linux value of `EOPNOTSUPP` (operation not supported).
pub const EOPNOTSUPP_CODE: i32 = 95;

/// Everything that can go wrong while provisioning, using or committing
/// an atomic file handle.
#[derive(Clone, Copy, Debug, PartialEq, Eq, Structural)]
pub enum AtomicError {
    /// An underlying OS primitive failed; carries the raw `errno` value
    /// unmodified, for caller diagnostics.
    Io(i32),
    /// The host OS or filesystem lacks a required primitive.
    Platform,
    /// The target path has no containing directory.
    NoParentDirectory,
    /// The original file does not exist.
    NotFound,
    /// The original path's file name is empty or cannot be represented
    /// in the platform's native path encoding.
    InvalidName,
}

/// How an `errno` from fetching the original file's metadata is classified:
/// a missing original is `NotFound`, anything else is `Io`.
pub open spec fn stat_error_spec(errno: i32) -> AtomicError {
    if errno == ENOENT_CODE {
        AtomicError::NotFound
    } else {
        AtomicError::Io(errno)
    }
}

/// Normalizes an `errno` from fetching the original file's metadata.
pub fn stat_error(errno: i32) -> (r: AtomicError)
    ensures
        r == stat_error_spec(errno),
{
    if errno == ENOENT_CODE {
        AtomicError::NotFound
    } else {
        AtomicError::Io(errno)
    }
}

/// How an `errno` from creating the anonymous working file is classified:
/// the two codes Linux uses when `O_TMPFILE` is unsupported (by the kernel
/// or by the filesystem) are `Platform`, anything else is `Io`.
pub open spec fn tmpfile_error_spec(errno: i32) -> AtomicError {
    if errno == EISDIR_CODE || errno == EOPNOTSUPP_CODE {
        AtomicError::Platform
    } else {
        AtomicError::Io(errno)
    }
}

/// Normalizes an `errno` from creating the anonymous working file.
pub fn tmpfile_error(errno: i32) -> (r: AtomicError)
    ensures
        r == tmpfile_error_spec(errno),
{
    if errno == EISDIR_CODE || errno == EOPNOTSUPP_CODE {
        AtomicError::Platform
    } else {
        AtomicError::Io(errno)
    }
}

} // verus!
