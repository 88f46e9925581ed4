//! Trusted boundary to the POSIX filesystem, through the `nix` crate.
//!
//! Every function here wraps exactly one OS call. Errors are handed back as
//! the raw `errno` value, to be normalized by verified code; nothing is
//! promised about the filesystem itself, whose state other processes may
//! change at any time. `nix` reports a path with an interior NUL as
//! `EINVAL` instead of panicking, so these wrappers are total.

use vstd::prelude::*;

verus! {

/// Relies on nix::sys::stat::stat: fetches the file's metadata and hands
/// back its raw `st_mode` word.
#[verifier::external_body]
pub(crate) fn sys_stat_mode(path: &str) -> (r: Result<u32, i32>) {
    match nix::sys::stat::stat(path) {
        Ok(st) => Ok(st.st_mode as u32),
        Err(e) => Err(e as i32),
    }
}

/// Relies on nix::fcntl::open with `O_TMPFILE | O_RDWR`: creates an
/// anonymous, unlinked file in `dir` with the given permission bits and
/// returns its descriptor, which open(2) documents to be non-negative.
#[verifier::external_body]
pub(crate) fn sys_open_tmpfile(dir: &str, mode: u32) -> (r: Result<i32, i32>)
    ensures
        r is Ok ==> r->Ok_0 >= 0,
{
    let mode = nix::sys::stat::Mode::from_bits_truncate(mode);
    let flags = nix::fcntl::OFlag::O_TMPFILE | nix::fcntl::OFlag::O_RDWR;
    match nix::fcntl::open(dir, flags, mode) {
        Ok(fd) => Ok(fd),
        Err(e) => Err(e as i32),
    }
}

/// Relies on nix::sys::stat::fchmod: sets the open file's permission bits
/// exactly, unaffected by the process's umask — which open(2) does apply
/// to the mode of a newly created file.
#[verifier::external_body]
pub(crate) fn sys_fchmod(fd: i32, mode: u32) -> (r: Result<(), i32>) {
    let mode = nix::sys::stat::Mode::from_bits_truncate(mode);
    match nix::sys::stat::fchmod(fd, mode) {
        Ok(()) => Ok(()),
        Err(e) => Err(e as i32),
    }
}

/// Relies on nix::fcntl::open with `O_RDONLY`: opens the file for reading
/// and returns its descriptor, which open(2) documents to be non-negative.
#[verifier::external_body]
pub(crate) fn sys_open_rdonly(path: &str) -> (r: Result<i32, i32>)
    ensures
        r is Ok ==> r->Ok_0 >= 0,
{
    let mode = nix::sys::stat::Mode::empty();
    match nix::fcntl::open(path, nix::fcntl::OFlag::O_RDONLY, mode) {
        Ok(fd) => Ok(fd),
        Err(e) => Err(e as i32),
    }
}

/// Relies on nix::unistd::read: reads from the descriptor's current offset
/// into the start of `buf`, returning how many bytes were read. read(2)
/// documents the count to be at most `buf`'s length, and `0` at end of
/// file; the bytes themselves depend on the state of the filesystem.
#[verifier::external_body]
pub(crate) fn sys_read_chunk(fd: i32, buf: &mut Vec<u8>) -> (r: Result<usize, i32>)
    ensures
        final(buf)@.len() == old(buf)@.len(),
        r is Ok ==> r->Ok_0 <= old(buf)@.len(),
{
    match nix::unistd::read(fd, buf.as_mut_slice()) {
        Ok(n) => Ok(n),
        Err(e) => Err(e as i32),
    }
}

/// Relies on nix::sys::uio::pwrite: writes `buf[start..start + count]` at
/// absolute offset `off` of the descriptor, returning how many bytes were
/// written, which pwrite(2) documents to be at most the count requested.
#[verifier::external_body]
pub(crate) fn sys_pwrite_from(fd: i32, buf: &[u8], start: usize, count: usize, off: u64) -> (r:
    Result<usize, i32>)
    requires
        start + count <= buf@.len(),
        off + count <= 0x7fff_ffff_ffff_ffffu64,
    ensures
        r is Ok ==> r->Ok_0 <= count,
{
    match nix::sys::uio::pwrite(fd, &buf[start..start + count], off as i64) {
        Ok(n) => Ok(n),
        Err(e) => Err(e as i32),
    }
}

/// Relies on nix::unistd::ftruncate: sets the descriptor's length.
#[verifier::external_body]
pub(crate) fn sys_ftruncate(fd: i32, len: u64) -> (r: Result<(), i32>)
    requires
        len <= 0x7fff_ffff_ffff_ffffu64,
{
    match nix::unistd::ftruncate(fd, len as i64) {
        Ok(()) => Ok(()),
        Err(e) => Err(e as i32),
    }
}

/// Relies on nix::unistd::linkat, following symlinks in `old` — the
/// mechanism linkat(2) documents for giving an `O_TMPFILE` descriptor a
/// name through its `/proc/self/fd` entry: creates a directory entry at
/// `new` for the file `old` refers to.
#[verifier::external_body]
pub(crate) fn sys_linkat(old: &str, new: &str) -> (r: Result<(), i32>) {
    let flag = nix::unistd::LinkatFlags::SymlinkFollow;
    match nix::unistd::linkat(None, old, None, new, flag) {
        Ok(()) => Ok(()),
        Err(e) => Err(e as i32),
    }
}

/// Relies on nix::fcntl::renameat: atomically renames `old` onto `new`,
/// replacing `new` as one indivisible step, as rename(2) documents.
#[verifier::external_body]
pub(crate) fn sys_rename(old: &str, new: &str) -> (r: Result<(), i32>) {
    match nix::fcntl::renameat(None, old, None, new) {
        Ok(()) => Ok(()),
        Err(e) => Err(e as i32),
    }
}

/// Relies on nix::unistd::unlink: removes the directory entry at `path`.
#[verifier::external_body]
pub(crate) fn sys_unlink(path: &str) -> (r: Result<(), i32>) {
    match nix::unistd::unlink(path) {
        Ok(()) => Ok(()),
        Err(e) => Err(e as i32),
    }
}

/// Relies on nix::unistd::close: releases the descriptor; an unlinked
/// working file's storage is reclaimed by the kernel once closed.
#[verifier::external_body]
pub(crate) fn sys_close(fd: i32) -> (r: Result<(), i32>) {
    match nix::unistd::close(fd) {
        Ok(()) => Ok(()),
        Err(e) => Err(e as i32),
    }
}

} // verus!
