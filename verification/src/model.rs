//! Mathematical model of the commit protocol.
//!
//! A handle is modelled by [`HandleView`]: the target path, the working
//! image, the read/write position and the permission bits. The directory
//! that holds the target is modelled by [`DirState`], a map from file names
//! to file data, and every filesystem operation the protocol performs is an
//! [`FsOp`] whose effect on the directory is `apply_op` — the semantics
//! that linkat(2), rename(2) and unlink(2) document. The proof
//! functions at the end state the library's guarantees over this model:
//! abandonment leaves the original untouched, a commit publishes the whole
//! working image in one atomic step, and permission bits survive the swap.

use vstd::prelude::*;
use crate::paths::{has_file_name, swap_path_of, lemma_swap_path_distinct};

verus! {

/// The state of a live handle, as the contracts of `AtomicFile` see it.
pub struct HandleView {
    /// The path under which a commit will publish the working image.
    pub path: Seq<char>,
    /// The working image: the bytes a commit would publish.
    pub image: Seq<u8>,
    /// The current read/write position; may lie beyond the image's end.
    pub pos: nat,
    /// The permission bits the published file will carry.
    pub mode: u32,
}

/// One directory entry: a file's content and its permission bits.
pub struct FileData {
    pub content: Seq<u8>,
    pub mode: u32,
}

/// One directory, as a map from file names to their data.
pub struct DirState {
    pub entries: Map<Seq<char>, FileData>,
}

/// A filesystem operation the commit or cleanup sequence may perform.
pub enum FsOp {
    /// Give the (anonymous) working file a directory entry; fails — and
    /// changes nothing — when the name is already taken, as linkat(2) says.
    Link { name: Seq<char>, data: FileData },
    /// Atomically rename `from` onto `to`, replacing `to` in one
    /// indivisible step; changes nothing when `from` does not exist.
    Rename { from: Seq<char>, to: Seq<char> },
    /// Remove a directory entry.
    Unlink { name: Seq<char> },
}

/// Effect of one operation on a directory, as the POSIX pages document it.
pub open spec fn apply_op(d: DirState, op: FsOp) -> DirState {
    match op {
        FsOp::Link { name, data } => if d.entries.contains_key(name) {
            d
        } else {
            DirState { entries: d.entries.insert(name, data) }
        },
        FsOp::Rename { from, to } => if d.entries.contains_key(from) {
            DirState { entries: d.entries.remove(from).insert(to, d.entries[from]) }
        } else {
            d
        },
        FsOp::Unlink { name } => DirState { entries: d.entries.remove(name) },
    }
}

/// Effect of a sequence of operations, applied left to right.
pub open spec fn apply_ops(d: DirState, ops: Seq<FsOp>) -> DirState
    decreases ops.len(),
{
    if ops.len() == 0 {
        d
    } else {
        apply_ops(apply_op(d, ops[0]), ops.skip(1))
    }
}

/// The view of a freshly opened handle on a file with the given data:
/// the working image is the original content, the position is zero, and
/// the mode is the original's permission bits.
pub open spec fn open_view(path: Seq<char>, data: FileData) -> HandleView {
    HandleView { path, image: data.content, pos: 0, mode: data.mode & 0o7777 }
}

/// A sequence of `n` zero bytes, as a write past the image's end implies.
pub open spec fn zeros(n: nat) -> Seq<u8> {
    Seq::new(n, |i| 0u8)
}

/// Effect of writing `data` at the current position: the image up to the
/// position (zero-filled if the position lies beyond its end), then `data`,
/// then whatever of the image lies beyond the written range; the position
/// advances by the length written. Writing nothing changes nothing.
pub open spec fn write_effect(v: HandleView, data: Seq<u8>) -> HandleView {
    if data.len() == 0 {
        v
    } else {
        let base = if v.pos > v.image.len() {
            v.image + zeros((v.pos - v.image.len()) as nat)
        } else {
            v.image
        };
        let end = v.pos + data.len();
        let tail = if end < base.len() {
            base.subrange(end as int, base.len() as int)
        } else {
            Seq::empty()
        };
        HandleView {
            image: base.subrange(0, v.pos as int) + data + tail,
            pos: v.pos + data.len(),
            ..v
        }
    }
}

/// How many bytes a read into a buffer of length `k` yields.
pub open spec fn read_count(v: HandleView, k: nat) -> nat {
    if v.pos >= v.image.len() {
        0
    } else if k < v.image.len() - v.pos {
        k
    } else {
        (v.image.len() - v.pos) as nat
    }
}

/// The bytes a read into a buffer of length `k` yields.
pub open spec fn read_result(v: HandleView, k: nat) -> Seq<u8> {
    if v.pos >= v.image.len() {
        Seq::empty()
    } else {
        v.image.subrange(v.pos as int, v.pos + read_count(v, k) as int)
    }
}

/// The bytes a read to the end yields: everything from the current
/// position on, and nothing when the position lies beyond the end.
pub open spec fn read_to_end_result(v: HandleView) -> Seq<u8> {
    if v.pos < v.image.len() {
        v.image.skip(v.pos as int)
    } else {
        Seq::empty()
    }
}

/// The position after a read to the end: the image's end, unless the
/// position already lay beyond it.
pub open spec fn read_to_end_pos(v: HandleView) -> nat {
    if v.pos < v.image.len() {
        v.image.len()
    } else {
        v.pos
    }
}

/// The filesystem operations a successful commit performs: link the
/// anonymous working file under the transient swap name, then rename the
/// swap name onto the original path.
pub open spec fn commit_ops(path: Seq<char>, img: Seq<u8>, mode: u32) -> Seq<FsOp> {
    seq![
        FsOp::Link { name: swap_path_of(path), data: FileData { content: img, mode } },
        FsOp::Rename { from: swap_path_of(path), to: path },
    ]
}

/// The filesystem operations of reading, writing or seeking a handle:
/// none — they act on the working image alone, never on any path.
pub open spec fn session_ops() -> Seq<FsOp> {
    Seq::empty()
}

/// The filesystem operations of abandoning an uncommitted handle: none —
/// the working file is anonymous, and the kernel reclaims its storage when
/// the descriptor closes.
pub open spec fn abandon_ops() -> Seq<FsOp> {
    Seq::empty()
}

/// The filesystem operations of tearing down an already-committed handle:
/// none — commit consumes the handle and transfers ownership of the
/// published entry to the path.
pub open spec fn committed_cleanup_ops() -> Seq<FsOp> {
    Seq::empty()
}

/// Applying a two-operation sequence is applying its operations in order.
pub proof fn lemma_apply_pair(d: DirState, a: FsOp, b: FsOp)
    ensures
        apply_ops(d, seq![a, b]) == apply_op(apply_op(d, a), b),
{
    let s = seq![a, b];
    let s1 = s.skip(1);
    assert(s1.len() == 1 && s1[0] == b);
    let d1 = apply_op(d, s[0]);
    assert(apply_ops(d, s) == apply_ops(d1, s1));
    let s2 = s1.skip(1);
    assert(s2.len() == 0);
    assert(apply_ops(d1, s1) == apply_ops(apply_op(d1, s1[0]), s2));
    assert(apply_ops(apply_op(d1, b), s2) == apply_op(d1, b));
    assert(s[0] == a);
}

/// No-commit invariant: however much is written to a handle, a session
/// that ends in abandonment instead of commit performs no filesystem
/// operation at all, so every entry of the directory — the original file
/// in particular — keeps exactly the content and mode it had.
pub proof fn lemma_abandon_preserves_original(d: DirState, v: HandleView, data: Seq<u8>)
    ensures
        write_effect(v, data).path == v.path,
        apply_ops(d, session_ops() + abandon_ops()) == d,
{
    assert(session_ops() + abandon_ops() =~= Seq::<FsOp>::empty());
}

/// Idempotent abandonment: tearing down a handle that has already been
/// committed performs no further filesystem operation.
pub proof fn lemma_committed_cleanup_noop(d: DirState)
    ensures
        apply_ops(d, committed_cleanup_ops()) == d,
{
}

/// Commit invariant: opening a file holding `orig`, overwriting it from
/// position zero with at least as many bytes `c`, and committing leaves
/// the path holding exactly `c`. (A shorter overwrite leaves the original
/// content's tail in place, as positional writes do.)
pub proof fn lemma_write_then_commit(d: DirState, path: Seq<char>, c: Seq<u8>)
    requires
        d.entries.contains_key(path),
        has_file_name(path),
        !d.entries.contains_key(swap_path_of(path)),
        c.len() >= d.entries[path].content.len(),
    ensures
        ({
            let v = write_effect(open_view(path, d.entries[path]), c);
            let d2 = apply_ops(d, commit_ops(path, v.image, v.mode));
            &&& d2.entries.contains_key(path)
            &&& d2.entries[path].content == c
        }),
{
    lemma_swap_path_distinct(path);
    let v0 = open_view(path, d.entries[path]);
    let v = write_effect(v0, c);
    assert(v.image =~= c);
    let link = FsOp::Link { name: swap_path_of(path), data: FileData { content: v.image, mode: v.mode } };
    let ren = FsOp::Rename { from: swap_path_of(path), to: path };
    assert(commit_ops(path, v.image, v.mode) =~= seq![link, ren]);
    lemma_apply_pair(d, link, ren);
}

/// Permission preservation: the committed entry carries exactly the
/// original entry's permission bits — the working file is provisioned with
/// the original's masked bits, and link and rename carry them through.
pub proof fn lemma_commit_preserves_mode(d: DirState, path: Seq<char>, c: Seq<u8>)
    requires
        d.entries.contains_key(path),
        has_file_name(path),
        !d.entries.contains_key(swap_path_of(path)),
    ensures
        ({
            let v = write_effect(open_view(path, d.entries[path]), c);
            let d2 = apply_ops(d, commit_ops(path, v.image, v.mode));
            &&& d2.entries.contains_key(path)
            &&& d2.entries[path].mode == d.entries[path].mode & 0o7777
        }),
{
    lemma_swap_path_distinct(path);
    let v = write_effect(open_view(path, d.entries[path]), c);
    let link = FsOp::Link { name: swap_path_of(path), data: FileData { content: v.image, mode: v.mode } };
    let ren = FsOp::Rename { from: swap_path_of(path), to: path };
    assert(commit_ops(path, v.image, v.mode) =~= seq![link, ren]);
    lemma_apply_pair(d, link, ren);
}

/// Atomicity: after any prefix of the commit sequence, the original path
/// holds either its original data in full or the new data in full — never
/// a mixture — and it changes only at the final, atomic rename.
pub proof fn lemma_commit_atomic(d: DirState, path: Seq<char>, img: Seq<u8>, mode: u32, i: int)
    requires
        d.entries.contains_key(path),
        has_file_name(path),
        !d.entries.contains_key(swap_path_of(path)),
        0 <= i <= commit_ops(path, img, mode).len(),
    ensures
        ({
            let mid = apply_ops(d, commit_ops(path, img, mode).take(i));
            &&& mid.entries.contains_key(path)
            &&& (mid.entries[path] == d.entries[path] || mid.entries[path] == FileData {
                content: img,
                mode,
            })
            &&& (i < 2 ==> mid.entries[path] == d.entries[path])
            &&& (i == 2 ==> mid.entries[path] == FileData { content: img, mode })
        }),
{
    lemma_swap_path_distinct(path);
    let ops = commit_ops(path, img, mode);
    let link = FsOp::Link { name: swap_path_of(path), data: FileData { content: img, mode } };
    let ren = FsOp::Rename { from: swap_path_of(path), to: path };
    if i == 0 {
        assert(ops.take(0) =~= Seq::<FsOp>::empty());
    } else if i == 1 {
        let pre = ops.take(1);
        assert(pre[0] == ops[0]);
        assert(pre.skip(1) =~= Seq::<FsOp>::empty());
        let d1 = apply_op(d, pre[0]);
        assert(apply_ops(d, pre) == apply_ops(d1, pre.skip(1)));
        assert(apply_ops(d1, pre.skip(1)) == d1);
    } else {
        assert(ops.take(2) =~= seq![link, ren]);
        lemma_apply_pair(d, link, ren);
    }
}

/// A commit touches nothing else: at every point of the commit sequence,
/// every directory entry other than the original path and its transient
/// swap name is exactly as it was.
pub proof fn lemma_commit_touches_nothing_else(
    d: DirState,
    path: Seq<char>,
    img: Seq<u8>,
    mode: u32,
    other: Seq<char>,
    i: int,
)
    requires
        other != path,
        other != swap_path_of(path),
        0 <= i <= commit_ops(path, img, mode).len(),
    ensures
        ({
            let mid = apply_ops(d, commit_ops(path, img, mode).take(i));
            &&& mid.entries.contains_key(other) == d.entries.contains_key(other)
            &&& d.entries.contains_key(other) ==> mid.entries[other] == d.entries[other]
        }),
{
    let ops = commit_ops(path, img, mode);
    let link = FsOp::Link { name: swap_path_of(path), data: FileData { content: img, mode } };
    let ren = FsOp::Rename { from: swap_path_of(path), to: path };
    if i == 0 {
        assert(ops.take(0) =~= Seq::<FsOp>::empty());
    } else if i == 1 {
        let pre = ops.take(1);
        assert(pre[0] == ops[0]);
        assert(pre.skip(1) =~= Seq::<FsOp>::empty());
        let d1 = apply_op(d, pre[0]);
        assert(apply_ops(d, pre) == apply_ops(d1, pre.skip(1)));
        assert(apply_ops(d1, pre.skip(1)) == d1);
    } else {
        assert(ops.take(2) =~= seq![link, ren]);
        lemma_apply_pair(d, link, ren);
    }
}

/// Cleanup after a failed commit: when the link step has succeeded but the
/// rename step fails, unlinking the swap name restores the directory to
/// exactly its pre-commit state.
pub proof fn lemma_failed_commit_cleanup(d: DirState, path: Seq<char>, img: Seq<u8>, mode: u32)
    requires
        has_file_name(path),
        !d.entries.contains_key(swap_path_of(path)),
    ensures
        ({
            let sp = swap_path_of(path);
            let linked = apply_op(d, FsOp::Link { name: sp, data: FileData { content: img, mode } });
            apply_op(linked, FsOp::Unlink { name: sp }).entries =~= d.entries
        }),
{
    lemma_swap_path_distinct(path);
}

/// Round trip: a handle opened on a file and read to the end without any
/// intervening write hands back exactly the original content — the
/// provisioning step clones the content faithfully.
pub proof fn lemma_round_trip(path: Seq<char>, data: FileData)
    ensures
        read_to_end_result(open_view(path, data)) == data.content,
{
    let v = open_view(path, data);
    if v.image.len() > 0 {
        assert(v.image.skip(0) =~= data.content);
    } else {
        assert(read_to_end_result(v) =~= data.content);
    }
}

} // verus!
