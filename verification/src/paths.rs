//! Verified path and name logic: locating the file-name component of a
//! target path, deriving the transient swap name used by the link-then-rename
//! commit sequence, and the syntactic checks behind the `InvalidName` and
//! `NoParentDirectory` errors.

use vstd::prelude::*;
use crate::errors::AtomicError;

verus! {

/// Whether the path holds an interior NUL character, which the platform's
/// native path encoding cannot represent.
pub open spec fn contains_nul(s: Seq<char>) -> bool {
    exists|i: int| 0 <= i < s.len() && s[i] == '\u{0}'
}

/// Index of the first character of the path's file-name component: the
/// position just after the last `/`, or `0` when the path has no `/`.
/// A path that ends in `/` has an empty file name.
pub open spec fn file_name_start(s: Seq<char>) -> int
    decreases s.len(),
{
    if s.len() == 0 {
        0
    } else if s[s.len() - 1] == '/' {
        s.len() as int
    } else {
        file_name_start(s.drop_last())
    }
}

/// The file-name component always starts within the path.
pub proof fn lemma_file_name_start_bounds(s: Seq<char>)
    ensures
        0 <= file_name_start(s) <= s.len(),
    decreases s.len(),
{
    if s.len() == 0 {
    } else if s[s.len() - 1] == '/' {
    } else {
        lemma_file_name_start_bounds(s.drop_last());
    }
}

/// The characters after the last `/` of a path, empty when it ends in `/`.
pub open spec fn last_component(s: Seq<char>) -> Seq<char> {
    s.subrange(file_name_start(s), s.len() as int)
}

/// Strips what the platform's path rules ignore at the end of a path:
/// trailing separators, and trailing `.` (current-directory) components.
/// `a/b//`, `a/b/.` and `a/b/.//` all strip to `a/b`; a name that merely
/// ends in a dot, such as `a.`, is left alone.
pub open spec fn strip_trailing(s: Seq<char>) -> Seq<char>
    decreases s.len(),
{
    if s.len() == 0 {
        s
    } else if s[s.len() - 1] == '/' {
        strip_trailing(s.drop_last())
    } else if last_component(s) == seq!['.'] {
        strip_trailing(s.drop_last())
    } else {
        s
    }
}

/// Whether the path carries a usable file-name component: something is
/// left after stripping, and it is not the parent-directory component
/// `..`, which names no file of its own.
pub open spec fn has_file_name(s: Seq<char>) -> bool {
    strip_trailing(s).len() > 0 && last_component(strip_trailing(s)) != seq!['.', '.']
}

/// The file-name component of a path: the last component once trailing
/// separators and `.` components are stripped.
pub open spec fn file_name_of(s: Seq<char>) -> Seq<char> {
    last_component(strip_trailing(s))
}

/// The transient swap name derived from a file name: a dotfile-style
/// variant, `.{name}.swp`, that cannot collide with the name itself.
pub open spec fn swap_name_of(name: Seq<char>) -> Seq<char> {
    seq!['.'] + name + seq!['.', 's', 'w', 'p']
}

/// The full path of the transient swap file: the original's directory
/// prefix (slash included) followed by the swap name.
pub open spec fn swap_path_of(s: Seq<char>) -> Seq<char> {
    strip_trailing(s).subrange(0, file_name_start(strip_trailing(s))) + swap_name_of(file_name_of(
        s,
    ))
}

/// The directory prefix handed to the temp-file provisioner: the part of
/// the stripped path up to and including the last `/`, or `.` for a bare
/// name.
pub open spec fn dir_of_spec(s: Seq<char>) -> Seq<char> {
    if file_name_start(strip_trailing(s)) == 0 {
        seq!['.']
    } else {
        strip_trailing(s).subrange(0, file_name_start(strip_trailing(s)))
    }
}

/// Whether the path has no containing directory to resolve: the empty
/// path and the filesystem root.
pub open spec fn lacks_parent(s: Seq<char>) -> bool {
    s.len() == 0 || (s.len() == 1 && s[0] == '/')
}

/// Stripping never lengthens a path.
pub proof fn lemma_strip_trailing_len(s: Seq<char>)
    ensures
        strip_trailing(s).len() <= s.len(),
        strip_trailing(s).len() == s.len() ==> strip_trailing(s) == s,
    decreases s.len(),
{
    if s.len() == 0 {
    } else if s[s.len() - 1] == '/' {
        lemma_strip_trailing_len(s.drop_last());
    } else if last_component(s) == seq!['.'] {
        lemma_strip_trailing_len(s.drop_last());
    } else {
    }
}

/// A stripped path is a fixpoint: it ends in neither a separator nor a
/// `.` component, so its file-name component is non-empty.
pub proof fn lemma_strip_trailing_fixpoint(s: Seq<char>)
    ensures
        strip_trailing(s).len() > 0 ==> {
            let t = strip_trailing(s);
            &&& t[t.len() - 1] != '/'
            &&& strip_trailing(t) == t
            &&& file_name_start(t) < t.len()
        },
    decreases s.len(),
{
    if s.len() == 0 {
    } else if s[s.len() - 1] == '/' {
        lemma_strip_trailing_fixpoint(s.drop_last());
    } else if last_component(s) == seq!['.'] {
        lemma_strip_trailing_fixpoint(s.drop_last());
    } else {
        lemma_file_name_start_bounds(s.drop_last());
    }
}

/// A swap path never denotes the same directory entry as the path it is
/// derived from: when nothing was stripped the swap path is strictly
/// longer, and a stripped path ends in a separator or a dot while the
/// swap path ends in `p`.
pub proof fn lemma_swap_path_distinct(s: Seq<char>)
    ensures
        swap_path_of(s).len() == strip_trailing(s).len() + 5,
        swap_path_of(s) != s,
{
    let t = strip_trailing(s);
    lemma_file_name_start_bounds(t);
    lemma_file_name_start_bounds(s);
    lemma_strip_trailing_len(s);
    let sp = swap_path_of(s);
    assert(sp.len() == t.len() + 5);
    if t.len() == s.len() {
        assert(sp.len() != s.len());
    } else {
        assert(s.len() > 0);
        if s[s.len() - 1] == '/' {
        } else if last_component(s) == seq!['.'] {
            let lc = last_component(s);
            assert(lc.len() == 1);
            assert(file_name_start(s) == s.len() - 1);
            assert(s[s.len() - 1] == lc[0]);
        } else {
            assert(t == s);
        }
        assert(s[s.len() - 1] == '/' || s[s.len() - 1] == '.');
        assert(sp[sp.len() - 1] == 'p');
        if sp == s {
            assert(s[s.len() - 1] == 'p');
        }
    }
}

/// Scans the path for an interior NUL character.
pub fn check_no_nul(path: &str) -> (b: bool)
    ensures
        b == !contains_nul(path@),
{
    let len = path.unicode_len();
    let mut i: usize = 0;
    while i < len
        invariant
            i <= len,
            len == path@.len(),
            forall|j: int| 0 <= j < i ==> path@[j] != '\u{0}',
        decreases len - i,
    {
        if path.get_char(i) == '\u{0}' {
            assert(contains_nul(path@));
            return false;
        }
        i = i + 1;
    }
    true
}

/// Finds the index of the first character of the path's file name.
pub fn find_name_start(path: &str) -> (r: usize)
    ensures
        r == file_name_start(path@),
{
    let len = path.unicode_len();
    let mut i = len;
    proof {
        assert(path@.take(len as int) =~= path@);
    }
    while i > 0
        invariant
            i <= len,
            len == path@.len(),
            file_name_start(path@) == file_name_start(path@.take(i as int)),
        decreases i,
    {
        let c = path.get_char(i - 1);
        if c == '/' {
            proof {
                assert(path@.take(i as int).len() == i);
                assert(path@.take(i as int)[i - 1] == '/');
            }
            return i;
        }
        proof {
            assert(path@.take(i as int).drop_last() =~= path@.take(i as int - 1));
        }
        i = i - 1;
    }
    proof {
        assert(path@.take(0) =~= Seq::<char>::empty());
    }
    0
}

/// Finds where the path effectively ends: the index such that the prefix
/// up to it is the path with trailing separators and `.` components
/// stripped.
fn effective_end(path: &str) -> (e: usize)
    ensures
        e <= path@.len(),
        path@.take(e as int) == strip_trailing(path@),
{
    let len = path.unicode_len();
    let mut e = len;
    proof {
        assert(path@.take(len as int) =~= path@);
    }
    loop
        invariant
            e <= len,
            len == path@.len(),
            strip_trailing(path@) == strip_trailing(path@.take(e as int)),
        decreases e,
    {
        if e == 0 {
            proof {
                assert(path@.take(0) =~= Seq::<char>::empty());
            }
            return 0;
        }
        let c = path.get_char(e - 1);
        if c == '/' {
            proof {
                let t = path@.take(e as int);
                assert(t[t.len() - 1] == '/');
                assert(t.drop_last() =~= path@.take(e as int - 1));
            }
            e = e - 1;
        } else if c == '.' && (e == 1 || path.get_char(e - 2) == '/') {
            proof {
                let t = path@.take(e as int);
                assert(file_name_start(t) == file_name_start(t.drop_last()));
                if e == 1 {
                    assert(t.drop_last() =~= Seq::<char>::empty());
                    assert(file_name_start(t.drop_last()) == 0);
                } else {
                    assert(t.drop_last()[e - 2] == '/');
                    assert(file_name_start(t.drop_last()) == e - 1);
                }
                assert(file_name_start(t) == e - 1);
                assert(last_component(t) =~= seq!['.']);
                assert(t.drop_last() =~= path@.take(e as int - 1));
            }
            e = e - 1;
        } else {
            proof {
                let t = path@.take(e as int);
                assert(t[t.len() - 1] == c && c != '/');
                let u = t.drop_last();
                lemma_file_name_start_bounds(u);
                if c == '.' {
                    assert(u[e - 2] != '/');
                    lemma_file_name_start_bounds(u.drop_last());
                    assert(file_name_start(u) == file_name_start(u.drop_last()));
                    assert(file_name_start(t) <= e - 2);
                    assert(last_component(t).len() >= 2);
                } else {
                    assert(file_name_start(t) <= t.len() - 1);
                    assert(last_component(t)[last_component(t).len() - 1] == c);
                }
                assert(last_component(t) != seq!['.']);
                assert(strip_trailing(t) == t);
            }
            return e;
        }
    }
}

/// Decides whether the path carries a usable file name.
pub fn has_valid_name(path: &str) -> (b: bool)
    ensures
        b == has_file_name(path@),
{
    let e = effective_end(path);
    if e == 0 {
        return false;
    }
    let t = path.substring_char(0, e);
    proof {
        lemma_strip_trailing_fixpoint(path@);
        lemma_file_name_start_bounds(t@);
    }
    let start = find_name_start(t);
    if e - start == 2 && t.get_char(start) == '.' && t.get_char(start + 1) == '.' {
        proof {
            assert(last_component(t@) =~= seq!['.', '.']);
        }
        false
    } else {
        proof {
            if last_component(t@) == seq!['.', '.'] {
                assert(t@[start as int] == '.' && t@[start + 1] == '.');
            }
        }
        true
    }
}

/// Returns the directory prefix of the path, for the temp-file provisioner.
pub fn dir_of(path: &str) -> (r: String)
    ensures
        r@ == dir_of_spec(path@),
{
    let e = effective_end(path);
    let t = path.substring_char(0, e);
    proof {
        lemma_file_name_start_bounds(t@);
    }
    let start = find_name_start(t);
    if start == 0 {
        let r = String::from_str(".");
        proof {
            reveal_strlit(".");
            assert(r@ =~= dir_of_spec(path@));
        }
        r
    } else {
        let prefix = t.substring_char(0, start);
        String::from_str(prefix)
    }
}

/// The character for one decimal digit.
pub open spec fn digit_char(d: nat) -> char {
    if d == 0 {
        '0'
    } else if d == 1 {
        '1'
    } else if d == 2 {
        '2'
    } else if d == 3 {
        '3'
    } else if d == 4 {
        '4'
    } else if d == 5 {
        '5'
    } else if d == 6 {
        '6'
    } else if d == 7 {
        '7'
    } else if d == 8 {
        '8'
    } else {
        '9'
    }
}

/// The usual decimal rendering of a number, most significant digit first.
pub open spec fn dec_rep(n: nat) -> Seq<char>
    decreases n,
{
    if n < 10 {
        seq![digit_char(n)]
    } else {
        dec_rep(n / 10) + seq![digit_char(n % 10)]
    }
}

/// One decimal digit as a string slice.
fn digit_str(d: u64) -> (r: &'static str)
    requires
        d < 10,
    ensures
        r@ == seq![digit_char(d as nat)],
{
    if d == 0 {
        proof {
            reveal_strlit("0");
        }
        "0"
    } else if d == 1 {
        proof {
            reveal_strlit("1");
        }
        "1"
    } else if d == 2 {
        proof {
            reveal_strlit("2");
        }
        "2"
    } else if d == 3 {
        proof {
            reveal_strlit("3");
        }
        "3"
    } else if d == 4 {
        proof {
            reveal_strlit("4");
        }
        "4"
    } else if d == 5 {
        proof {
            reveal_strlit("5");
        }
        "5"
    } else if d == 6 {
        proof {
            reveal_strlit("6");
        }
        "6"
    } else if d == 7 {
        proof {
            reveal_strlit("7");
        }
        "7"
    } else if d == 8 {
        proof {
            reveal_strlit("8");
        }
        "8"
    } else {
        proof {
            reveal_strlit("9");
        }
        "9"
    }
}

/// Renders a number in decimal.
pub fn decimal_string(n: u64) -> (r: String)
    ensures
        r@ == dec_rep(n as nat),
    decreases n,
{
    if n < 10 {
        String::from_str(digit_str(n))
    } else {
        let prefix = decimal_string(n / 10);
        prefix.concat(digit_str(n % 10))
    }
}

/// The prefix of the per-process descriptor paths the Linux proc
/// filesystem provides.
pub open spec fn proc_fd_prefix() -> Seq<char> {
    seq!['/', 'p', 'r', 'o', 'c', '/', 's', 'e', 'l', 'f', '/', 'f', 'd', '/']
}

/// The `/proc/self/fd/{fd}` path under which the kernel exposes the open
/// descriptor, used to give the anonymous working file a name.
pub fn proc_fd_path(fd: i32) -> (r: String)
    requires
        fd >= 0,
    ensures
        r@ == proc_fd_prefix() + dec_rep(fd as nat),
{
    let prefix = String::from_str("/proc/self/fd/");
    proof {
        reveal_strlit("/proc/self/fd/");
        assert(prefix@ =~= proc_fd_prefix());
    }
    prefix.concat(decimal_string(fd as u64).as_str())
}

/// Derives the transient name under which the working file is linked just
/// before the atomic rename: `.{name}.swp` beside the original, where the
/// name is the path's file-name component (trailing separators and `.`
/// components ignored). Fails with `InvalidName` when the path has no
/// usable file name: nothing is left after stripping, or the final
/// component is `..`.
pub fn get_tempfile_name(original: &str) -> (r: Result<String, AtomicError>)
    ensures
        !has_file_name(original@) ==> r == Err::<String, AtomicError>(AtomicError::InvalidName),
        has_file_name(original@) ==> r is Ok && r->Ok_0@ == swap_path_of(original@),
{
    if !has_valid_name(original) {
        return Err(AtomicError::InvalidName);
    }
    let e = effective_end(original);
    let t = original.substring_char(0, e);
    proof {
        lemma_strip_trailing_fixpoint(original@);
        lemma_file_name_start_bounds(t@);
    }
    let start = find_name_start(t);
    let prefix = t.substring_char(0, start);
    let name = t.substring_char(start, e);
    let mut out = String::from_str(prefix);
    out.append(".");
    out.append(name);
    out.append(".swp");
    proof {
        reveal_strlit(".");
        reveal_strlit(".swp");
        assert(out@ =~= swap_path_of(original@));
    }
    Ok(out)
}

} // verus!
