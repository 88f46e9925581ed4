//! The caller-facing atomic file handle and the commit protocol around it.
//!
//! `AtomicFile::open` provisions an anonymous, unlinked working file in the
//! target's own directory (same filesystem, as the atomic link and rename
//! require), clones the original's bytes into it, and keeps the working
//! image in the handle. Reads, writes and seeks act on that image and never
//! touch any filesystem path. `commit` flushes the image to the working
//! descriptor and publishes it under the original path by the
//! link-then-rename sequence, whose properties are proved in the model
//! module; abandoning the handle instead leaves the original untouched —
//! the working file has no name for the kernel to keep.

use vstd::prelude::*;
use crate::errors::{
    AtomicError, stat_error, tmpfile_error, EIO_CODE, EINVAL_CODE, EFBIG_CODE, EOVERFLOW_CODE,
};
use crate::paths::{
    contains_nul, has_file_name, lacks_parent, swap_path_of, check_no_nul, has_valid_name, dir_of,
    get_tempfile_name, proc_fd_path,
};
use crate::model::{
    HandleView, write_effect, read_count, read_result, read_to_end_result, read_to_end_pos, zeros,
};
use crate::sys::{
    sys_stat_mode, sys_open_tmpfile, sys_fchmod, sys_open_rdonly, sys_read_chunk, sys_pwrite_from,
    sys_ftruncate, sys_linkat, sys_rename, sys_unlink, sys_close,
};
use crate::mask_mode;

verus! {

/// Largest working-image length the handle accepts: `i64::MAX`, the bound
/// the OS file-size interfaces impose.
pub const MAX_IMAGE_LEN: u64 = 0x7fff_ffff_ffff_ffff;

/// Where a seek is measured from.
#[derive(Clone, Copy, Debug)]
pub enum SeekFrom {
    /// An absolute offset.
    Start(u64),
    /// An offset relative to the image's end.
    End(i64),
    /// An offset relative to the current position.
    Current(i64),
}

/// The mathematical offset a seek aims at; negative or over-large targets
/// are rejected by `seek`.
pub open spec fn seek_target(v: HandleView, from: SeekFrom) -> int {
    match from {
        SeekFrom::Start(n) => n as int,
        SeekFrom::End(o) => v.image.len() + o,
        SeekFrom::Current(o) => v.pos + o,
    }
}

/// A writable, seekable copy of an underlying file. All mutation happens
/// on the handle's working image; `commit` publishes the image under the
/// original path as one atomic transition, and dropping the handle by
/// `abandon` instead leaves the original file exactly as it was.
#[derive(Debug)]
pub struct AtomicFile {
    orig: String,
    fd: i32,
    image: Vec<u8>,
    pos: u64,
    mode: u32,
}

impl View for AtomicFile {
    type V = HandleView;

    closed spec fn view(&self) -> HandleView {
        HandleView {
            path: self.orig@,
            image: self.image@,
            pos: self.pos as nat,
            mode: self.mode,
        }
    }
}

impl AtomicFile {
    /// Well-formedness: the working descriptor is real, the target path has
    /// a usable file name, and the image and the position respect the OS
    /// file-size bound.
    pub closed spec fn wf(&self) -> bool {
        &&& self.fd >= 0
        &&& !contains_nul(self.orig@)
        &&& !lacks_parent(self.orig@)
        &&& has_file_name(self.orig@)
        &&& self.mode <= 0o7777
        &&& self.image@.len() <= MAX_IMAGE_LEN
        &&& self.pos <= MAX_IMAGE_LEN
    }

    /// Opens an atomic handle on the file at `path`: provisions the
    /// anonymous working file beside it with its permission bits and clones
    /// its content into the working image, positioned at the start.
    /// Syntactic rejections are exact, both ways: an interior NUL is
    /// `InvalidName`, the root or an empty path is `NoParentDirectory`, a
    /// path without a usable file name (nothing left once trailing
    /// separators and `.` components are stripped, or a final `..`) is
    /// `InvalidName`, and those two errors arise on no other input;
    /// everything else depends on the filesystem, whose errors are handed
    /// through as `NotFound`, `Io` or `Platform`.
    pub fn open(path: &str) -> (r: Result<AtomicFile, AtomicError>)
        ensures
            contains_nul(path@) ==> r is Err && r->Err_0 == AtomicError::InvalidName,
            !contains_nul(path@) && lacks_parent(path@) ==> r is Err && r->Err_0
                == AtomicError::NoParentDirectory,
            !contains_nul(path@) && !lacks_parent(path@) && !has_file_name(path@) ==> r is Err
                && r->Err_0 == AtomicError::InvalidName,
            r is Err && r->Err_0 == AtomicError::NoParentDirectory ==> !contains_nul(path@)
                && lacks_parent(path@),
            r is Err && r->Err_0 == AtomicError::InvalidName ==> contains_nul(path@) || (
            !lacks_parent(path@) && !has_file_name(path@)),
            r is Ok ==> ({
                let h = r->Ok_0;
                &&& h.wf()
                &&& h@.path == path@
                &&& h@.pos == 0
                &&& h@.mode <= 0o7777
            }),
    {
        if !check_no_nul(path) {
            return Err(AtomicError::InvalidName);
        }
        let len = path.unicode_len();
        if len == 0 || (len == 1 && path.get_char(0) == '/') {
            return Err(AtomicError::NoParentDirectory);
        }
        if !has_valid_name(path) {
            return Err(AtomicError::InvalidName);
        }

        let raw_mode = match sys_stat_mode(path) {
            Ok(m) => m,
            Err(e) => {
                return Err(stat_error(e));
            },
        };
        let mode = mask_mode(raw_mode);
        let dir = dir_of(path);
        let tfd = match get_tempfile(dir.as_str(), mode) {
            Ok(fd) => fd,
            Err(e) => {
                return Err(e);
            },
        };
        let sfd = match sys_open_rdonly(path) {
            Ok(fd) => fd,
            Err(e) => {
                let _ = sys_close(tfd);
                return Err(AtomicError::Io(e));
            },
        };
        let image = match clone(sfd, tfd) {
            Ok(img) => img,
            Err(e) => {
                let _ = sys_close(sfd);
                let _ = sys_close(tfd);
                return Err(e);
            },
        };
        let _ = sys_close(sfd);
        Ok(AtomicFile { orig: String::from_str(path), fd: tfd, image, pos: 0, mode })
    }

    /// Commits the working image: flushes it to the working descriptor,
    /// then publishes the descriptor under the original path by the
    /// link-then-rename sequence. The handle is consumed either way; on
    /// failure the original path is untouched and any transient link has
    /// been removed, so only an `Io` error can come back.
    pub fn commit(self) -> (r: Result<(), AtomicError>)
        requires
            self.wf(),
        ensures
            r is Err ==> r->Err_0 is Io,
    {
        let AtomicFile { orig, fd, image, pos: _, mode: _ } = self;
        match sys_ftruncate(fd, image.len() as u64) {
            Ok(()) => {},
            Err(e) => {
                let _ = sys_close(fd);
                return Err(AtomicError::Io(e));
            },
        }
        match pwrite_all(fd, &image, image.len(), 0) {
            Ok(()) => {},
            Err(e) => {
                let _ = sys_close(fd);
                return Err(AtomicError::Io(e));
            },
        }
        match atomic_swap(orig.as_str(), fd) {
            Ok(_residual) => {
                let _ = sys_close(fd);
                Ok(())
            },
            Err(e) => {
                let _ = sys_close(fd);
                Err(e)
            },
        }
    }

    /// Abandons the handle without committing: the working descriptor is
    /// closed and its anonymous storage reclaimed by the kernel. No
    /// filesystem path is touched, and nothing can fail loudly here — a
    /// close error is ignored, as the original file is unaffected either
    /// way.
    pub fn abandon(self) {
        let _ = sys_close(self.fd);
    }

    /// Writes `buf` at the current position of the working image,
    /// overwriting what is there, zero-filling any gap a seek left beyond
    /// the end, and extending the image as needed; the position advances by
    /// the length written. Rejects only what no image can hold.
    pub fn write(&mut self, buf: &[u8]) -> (r: Result<usize, AtomicError>)
        requires
            old(self).wf(),
        ensures
            final(self).wf(),
            buf@.len() == 0 ==> r is Ok && r->Ok_0 == 0 && final(self)@ == old(self)@,
            buf@.len() > 0 && (old(self)@.pos + buf@.len() > MAX_IMAGE_LEN || old(self)@.pos
                + buf@.len() > usize::MAX) ==> r is Err && r->Err_0 == AtomicError::Io(EFBIG_CODE)
                && final(self)@ == old(self)@,
            buf@.len() > 0 && old(self)@.pos + buf@.len() <= MAX_IMAGE_LEN && old(self)@.pos
                + buf@.len() <= usize::MAX ==> r is Ok && r->Ok_0 == buf@.len() && final(self)@
                == write_effect(old(self)@, buf@),
    {
        let n = buf.len();
        if n == 0 {
            return Ok(0);
        }
        if n as u64 > MAX_IMAGE_LEN || self.pos > MAX_IMAGE_LEN - n as u64 || self.pos > usize::MAX
            as u64 - n as u64 {
            return Err(AtomicError::Io(EFBIG_CODE));
        }

        let p = self.pos as usize;
        let ghost v0 = self@;
        if p > self.image.len() {
            while self.image.len() < p
                invariant
                    v0.image.len() <= self.image@.len() <= p,
                    self.image@ == v0.image + zeros((self.image@.len() - v0.image.len()) as nat),
                    self.orig@ == old(self).orig@,
                    self.fd == old(self).fd,
                    self.pos == old(self).pos,
                    self.mode == old(self).mode,
                decreases p - self.image.len(),
            {
                self.image.push(0u8);
                proof {
                    assert(self.image@ =~= v0.image + zeros(
                        (self.image@.len() - v0.image.len()) as nat,
                    ));
                }
            }
        }
        let ghost base = self.image@;
        proof {
            if v0.pos > v0.image.len() {
                assert(base == v0.image + zeros((v0.pos - v0.image.len()) as nat));
            } else {
                assert(base == v0.image);
            }
        }
        let mut i: usize = 0;
        while i < n
            invariant
                i <= n,
                n == buf@.len(),
                0 < n,
                p == v0.pos,
                p + n <= usize::MAX,
                p + n <= MAX_IMAGE_LEN,
                p <= base.len() <= MAX_IMAGE_LEN,
                self.image@.len() == if p + i <= base.len() {
                    base.len() as int
                } else {
                    p + i
                },
                self.image@.subrange(0, p as int) == base.subrange(0, p as int),
                forall|j: int| 0 <= j < i ==> self.image@[p + j] == buf@[j],
                forall|j: int| p + i <= j < base.len() ==> self.image@[j] == base[j],
                self.orig@ == old(self).orig@,
                self.fd == old(self).fd,
                self.pos == old(self).pos,
                self.mode == old(self).mode,
            decreases n - i,
        {
            let idx = p + i;
            if idx < self.image.len() {
                self.image.set(idx, buf[i]);
            } else {
                self.image.push(buf[i]);
            }
            i = i + 1;
        }
        self.pos = self.pos + n as u64;
        proof {
            let target = write_effect(v0, buf@);
            assert(self.image@ =~= target.image);
        }
        Ok(n)
    }

    /// Reads from the current position into the start of `buf`, filling at
    /// most `buf`'s current length; returns how many bytes were read, which
    /// is fewer only when the image's end intervenes, and zero at or beyond
    /// the end. The position advances by the count read.
    pub fn read(&mut self, buf: &mut Vec<u8>) -> (r: usize)
        requires
            old(self).wf(),
        ensures
            final(self).wf(),
            r == read_count(old(self)@, old(buf)@.len()),
            final(buf)@ == read_result(old(self)@, old(buf)@.len()) + old(buf)@.skip(r as int),
            final(buf)@.len() == old(buf)@.len(),
            final(self)@.path == old(self)@.path,
            final(self)@.image == old(self)@.image,
            final(self)@.mode == old(self)@.mode,
            final(self)@.pos == old(self)@.pos + r,
    {
        let k = buf.len();
        let ilen = self.image.len();
        let mut n: usize = 0;
        if self.pos < ilen as u64 {
            let p = self.pos as usize;
            let avail = ilen - p;
            n = if k < avail {
                k
            } else {
                avail
            };
            let mut i: usize = 0;
            while i < n
                invariant
                    i <= n,
                    n <= k,
                    k == old(buf)@.len(),
                    buf@.len() == k,
                    p + n <= ilen,
                    ilen == self.image@.len(),
                    forall|j: int| 0 <= j < i ==> buf@[j] == self.image@[p + j],
                    forall|j: int| i <= j < k ==> buf@[j] == old(buf)@[j],
                    self == old(self),
                decreases n - i,
            {
                let b = self.image[p + i];
                buf.set(i, b);
                i = i + 1;
            }
            self.pos = self.pos + n as u64;
            proof {
                assert(n == read_count(old(self)@, old(buf)@.len()));
                let expect = read_result(old(self)@, old(buf)@.len()) + old(buf)@.skip(n as int);
                assert forall|t: int| 0 <= t < buf@.len() implies buf@[t] == expect[t] by {
                    if t < n {
                        assert(buf@[t] == self.image@[p + t]);
                    }
                }
                assert(buf@ =~= expect);
            }
        } else {
            proof {
                assert(read_count(old(self)@, old(buf)@.len()) == 0);
                assert(buf@ =~= read_result(old(self)@, old(buf)@.len()) + old(buf)@.skip(0));
            }
        }
        n
    }

    /// Appends everything from the current position to the image's end
    /// onto `buf` and returns the count appended; the position moves to the
    /// image's end.
    pub fn read_to_end(&mut self, buf: &mut Vec<u8>) -> (r: usize)
        requires
            old(self).wf(),
            old(buf)@.len() + old(self)@.image.len() <= usize::MAX,
        ensures
            final(self).wf(),
            r == read_to_end_result(old(self)@).len(),
            final(buf)@ == old(buf)@ + read_to_end_result(old(self)@),
            final(self)@.path == old(self)@.path,
            final(self)@.image == old(self)@.image,
            final(self)@.mode == old(self)@.mode,
            final(self)@.pos == read_to_end_pos(old(self)@),
    {
        let ilen = self.image.len();
        let mut n: usize = 0;
        if self.pos < ilen as u64 {
            let p = self.pos as usize;
            let mut i: usize = p;
            while i < ilen
                invariant
                    p <= i <= ilen,
                    ilen == self.image@.len(),
                    buf@ == old(buf)@ + self.image@.subrange(p as int, i as int),
                    old(buf)@.len() + ilen <= usize::MAX,
                    self == old(self),
                decreases ilen - i,
            {
                let b = self.image[i];
                buf.push(b);
                proof {
                    assert(buf@ =~= old(buf)@ + self.image@.subrange(p as int, i + 1));
                }
                i = i + 1;
            }
            n = ilen - p;
            self.pos = ilen as u64;
        }
        proof {
            assert(buf@ =~= old(buf)@ + read_to_end_result(old(self)@));
        }
        n
    }

    /// Flushing is a no-op for the in-memory working image: the image is
    /// written out by `commit` itself.
    pub fn flush(&mut self)
        requires
            old(self).wf(),
        ensures
            final(self).wf(),
            final(self)@ == old(self)@,
    {
    }

    /// Moves the read/write position. A target before the start of the
    /// image is rejected as an invalid argument; one beyond the OS offset
    /// bound (`i64::MAX`, which lseek(2) cannot represent) is rejected as
    /// an overflow. The position may validly point past the image's end —
    /// a later write zero-fills the gap.
    pub fn seek(&mut self, from: SeekFrom) -> (r: Result<u64, AtomicError>)
        requires
            old(self).wf(),
        ensures
            final(self).wf(),
            final(self)@.path == old(self)@.path,
            final(self)@.image == old(self)@.image,
            final(self)@.mode == old(self)@.mode,
            seek_target(old(self)@, from) < 0 ==> r is Err && r->Err_0 == AtomicError::Io(
                EINVAL_CODE,
            ) && final(self)@.pos == old(self)@.pos,
            seek_target(old(self)@, from) > MAX_IMAGE_LEN ==> r is Err && r->Err_0
                == AtomicError::Io(EOVERFLOW_CODE) && final(self)@.pos == old(self)@.pos,
            0 <= seek_target(old(self)@, from) <= MAX_IMAGE_LEN ==> r is Ok && r->Ok_0
                == seek_target(old(self)@, from) && final(self)@.pos == seek_target(
                old(self)@,
                from,
            ),
    {
        match from {
            SeekFrom::Start(off) => {
                if off > MAX_IMAGE_LEN {
                    Err(AtomicError::Io(EOVERFLOW_CODE))
                } else {
                    self.pos = off;
                    Ok(off)
                }
            },
            SeekFrom::End(off) => {
                let len = self.image.len() as u64;
                if off >= 0 {
                    let t = len + off as u64;
                    if t > MAX_IMAGE_LEN {
                        Err(AtomicError::Io(EOVERFLOW_CODE))
                    } else {
                        self.pos = t;
                        Ok(t)
                    }
                } else {
                    let m = neg_magnitude(off);
                    if m > len {
                        Err(AtomicError::Io(EINVAL_CODE))
                    } else {
                        self.pos = len - m;
                        Ok(len - m)
                    }
                }
            },
            SeekFrom::Current(off) => {
                if off >= 0 {
                    let t = self.pos + off as u64;
                    if t > MAX_IMAGE_LEN {
                        Err(AtomicError::Io(EOVERFLOW_CODE))
                    } else {
                        self.pos = t;
                        Ok(t)
                    }
                } else {
                    let m = neg_magnitude(off);
                    if m > self.pos {
                        Err(AtomicError::Io(EINVAL_CODE))
                    } else {
                        let t = self.pos - m;
                        self.pos = t;
                        Ok(t)
                    }
                }
            },
        }
    }
}

/// The magnitude of a negative offset, safe for the smallest value too.
fn neg_magnitude(off: i64) -> (r: u64)
    requires
        off < 0,
    ensures
        r == -(off as int),
{
    if off == i64::MIN {
        0x8000_0000_0000_0000u64
    } else {
        (-off) as u64
    }
}

/// Provisions an anonymous working file in `dir`, created with the given
/// raw mode masked down to its permission bits, and returns its descriptor.
/// The bits are set again explicitly on the open descriptor, since file
/// creation filters them through the process's umask. A filesystem or
/// kernel without the anonymous-file primitive yields `Platform`; any
/// other failure is `Io`.
pub fn get_tempfile(dir: &str, raw_mode: u32) -> (r: Result<i32, AtomicError>)
    ensures
        r is Ok ==> r->Ok_0 >= 0,
        r is Err ==> (r->Err_0 is Io || r->Err_0 == AtomicError::Platform),
{
    let mode = mask_mode(raw_mode);
    let fd = match sys_open_tmpfile(dir, mode) {
        Ok(fd) => fd,
        Err(e) => {
            return Err(tmpfile_error(e));
        },
    };
    match sys_fchmod(fd, mode) {
        Ok(()) => Ok(fd),
        Err(e) => {
            let _ = sys_close(fd);
            Err(AtomicError::Io(e))
        },
    }
}

/// The accumulation step of the provisioning copy: appends the first `n`
/// bytes of `chunk` — the bytes one read handed back — onto the working
/// image, exactly and completely. This is the contract that fixes the
/// image relative to what the reads returned: `clone` builds its result
/// by this step alone, so no byte is dropped, reordered or invented.
pub fn append_chunk(image: &mut Vec<u8>, chunk: &Vec<u8>, n: usize)
    requires
        n <= chunk@.len(),
        old(image)@.len() + n <= MAX_IMAGE_LEN,
    ensures
        final(image)@ == old(image)@ + chunk@.subrange(0, n as int),
{
    let mut j: usize = 0;
    while j < n
        invariant
            j <= n,
            n <= chunk@.len(),
            image@ == old(image)@ + chunk@.subrange(0, j as int),
            old(image)@.len() + n <= MAX_IMAGE_LEN,
        decreases n - j,
    {
        image.push(chunk[j]);
        proof {
            assert(image@ =~= old(image)@ + chunk@.subrange(0, j + 1));
        }
        j = j + 1;
    }
    proof {
        assert(image@ =~= old(image)@ + chunk@.subrange(0, n as int));
    }
}

/// Copies the entire content of the descriptor `src_fd` into `dest_fd` by
/// a read/write loop, and hands back the bytes copied as the working
/// image. Each round reads one chunk, writes exactly that chunk prefix to
/// the destination, and appends exactly it to the image by `append_chunk`,
/// whose contract pins the accumulation; a partial copy never escapes —
/// any failure fails the whole operation. The image respects the OS
/// file-size bound.
pub fn clone(src_fd: i32, dest_fd: i32) -> (r: Result<Vec<u8>, AtomicError>)
    requires
        src_fd >= 0,
        dest_fd >= 0,
    ensures
        r is Ok ==> r->Ok_0@.len() <= MAX_IMAGE_LEN,
        r is Err ==> r->Err_0 is Io,
{
    let mut image: Vec<u8> = Vec::new();
    let mut chunk: Vec<u8> = Vec::new();
    chunk.resize(8192, 0u8);
    loop
        invariant
            src_fd >= 0,
            dest_fd >= 0,
            chunk@.len() == 8192,
            image@.len() <= MAX_IMAGE_LEN,
        decreases MAX_IMAGE_LEN - image@.len(),
    {
        let n = match sys_read_chunk(src_fd, &mut chunk) {
            Ok(n) => n,
            Err(e) => {
                return Err(AtomicError::Io(e));
            },
        };
        if n == 0 {
            return Ok(image);
        }
        if image.len() as u64 > MAX_IMAGE_LEN - n as u64 {
            return Err(AtomicError::Io(EFBIG_CODE));
        }
        match pwrite_all(dest_fd, &chunk, n, image.len() as u64) {
            Ok(()) => {},
            Err(e) => {
                return Err(AtomicError::Io(e));
            },
        }
        append_chunk(&mut image, &chunk, n);
    }
}

/// Writes `buf[0..count]` to the descriptor at absolute offset `off`,
/// looping until every byte is written; a device that accepts nothing is
/// reported as an I/O error rather than retried forever.
fn pwrite_all(fd: i32, buf: &Vec<u8>, count: usize, off: u64) -> (r: Result<(), i32>)
    requires
        count <= buf@.len(),
        off + count <= MAX_IMAGE_LEN,
{
    let mut written: usize = 0;
    while written < count
        invariant
            written <= count,
            count <= buf@.len(),
            off + count <= MAX_IMAGE_LEN,
        decreases count - written,
    {
        match sys_pwrite_from(fd, buf.as_slice(), written, count - written, off + written as u64) {
            Ok(m) => {
                if m == 0 {
                    return Err(EIO_CODE);
                }
                written = written + m;
            },
            Err(e) => {
                return Err(e);
            },
        }
    }
    Ok(())
}

/// Publishes the open working descriptor's content under `original` as one
/// atomic transition: the descriptor is linked under the transient swap
/// name derived from the original's file name, then the swap name is
/// renamed onto the original — the rename being the single, indivisible
/// commit point. On success the consumed transient name is handed back; on
/// a rename failure the transient link is removed again, so the directory
/// is left as it was.
pub fn atomic_swap(original: &str, fd: i32) -> (r: Result<Option<String>, AtomicError>)
    requires
        fd >= 0,
    ensures
        r is Ok ==> has_file_name(original@) && r->Ok_0 is Some && r->Ok_0->Some_0@
            == swap_path_of(original@),
        (r is Err && r->Err_0 == AtomicError::InvalidName) <==> !has_file_name(original@),
        r is Err ==> r->Err_0 == AtomicError::InvalidName || r->Err_0 is Io,
{
    let tmpname = match get_tempfile_name(original) {
        Ok(s) => s,
        Err(e) => {
            return Err(e);
        },
    };
    let input = proc_fd_path(fd);
    match sys_linkat(input.as_str(), tmpname.as_str()) {
        Ok(()) => {},
        Err(e) => {
            return Err(AtomicError::Io(e));
        },
    }
    match sys_rename(tmpname.as_str(), original) {
        Ok(()) => Ok(Some(tmpname)),
        Err(e) => {
            let _ = sys_unlink(tmpname.as_str());
            Err(AtomicError::Io(e))
        },
    }
}

} // verus!
