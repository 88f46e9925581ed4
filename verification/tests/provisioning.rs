use std::io::Write;

use atomicio::{clone, get_tempfile_name, AtomicError, AtomicFile};
use tempfile::NamedTempFile;

fn init(buf: &str) -> NamedTempFile {
    let mut file = NamedTempFile::new().unwrap();
    file.write_all(buf.as_bytes()).unwrap();
    file.flush().unwrap();
    file
}

fn path_of(file: &NamedTempFile) -> &str {
    file.path().to_str().unwrap()
}

fn open_rdonly(path: &str) -> i32 {
    nix::fcntl::open(path, nix::fcntl::OFlag::O_RDONLY, nix::sys::stat::Mode::empty()).unwrap()
}

fn open_rdwr(path: &str) -> i32 {
    nix::fcntl::open(path, nix::fcntl::OFlag::O_RDWR, nix::sys::stat::Mode::empty()).unwrap()
}

#[test]
fn clone_file_test() {
    let expected = "Hello World!";

    let original = init(expected);
    let dest = NamedTempFile::new().unwrap();

    let src_fd = open_rdonly(path_of(&original));
    let dest_fd = open_rdwr(path_of(&dest));

    let image = clone(src_fd, dest_fd).unwrap();
    assert_eq!(expected.as_bytes(), &image[..]);

    let mut back = vec![0u8; expected.len() + 8];
    let n = nix::sys::uio::pread(dest_fd, &mut back, 0).unwrap();
    assert_eq!(expected.as_bytes(), &back[..n]);

    nix::unistd::close(src_fd).unwrap();
    nix::unistd::close(dest_fd).unwrap();
}

#[test]
fn mod_clone_file_test() {
    let expected = "Hello World!";

    let original = init(expected);
    let dest = NamedTempFile::new().unwrap();

    let src_fd = open_rdonly(path_of(&original));
    let dest_fd = open_rdwr(path_of(&dest));

    let image = clone(src_fd, dest_fd).unwrap();
    assert_eq!(expected.as_bytes(), &image[..]);

    nix::unistd::close(src_fd).unwrap();
    nix::unistd::close(dest_fd).unwrap();
}

#[test]
fn tempfile_name_beside_original() {
    assert_eq!("a/.b.swp", get_tempfile_name("a/b").unwrap());
    assert_eq!("/.x.swp", get_tempfile_name("/x").unwrap());
    assert_eq!(".name.swp", get_tempfile_name("name").unwrap());
    assert_eq!("/var/tmp/.data.bin.swp", get_tempfile_name("/var/tmp/data.bin").unwrap());
}

#[test]
fn tempfile_name_ignores_trailing_separators() {
    assert_eq!(".dir.swp", get_tempfile_name("dir/").unwrap());
    assert_eq!("a/.b.swp", get_tempfile_name("a/b/").unwrap());
    assert_eq!("a/.b.swp", get_tempfile_name("a/b//").unwrap());
    assert_eq!(".foo.txt.swp", get_tempfile_name("foo.txt/.").unwrap());
    assert_eq!("a/.b.swp", get_tempfile_name("a/b/.//").unwrap());
}

#[test]
fn tempfile_name_rejects_nameless_paths() {
    assert_eq!(AtomicError::InvalidName, get_tempfile_name("").unwrap_err());
    assert_eq!(AtomicError::InvalidName, get_tempfile_name("/").unwrap_err());
    assert_eq!(AtomicError::InvalidName, get_tempfile_name(".").unwrap_err());
    assert_eq!(AtomicError::InvalidName, get_tempfile_name("..").unwrap_err());
    assert_eq!(AtomicError::InvalidName, get_tempfile_name("a/..").unwrap_err());
    assert_eq!(AtomicError::InvalidName, get_tempfile_name("a/../").unwrap_err());
    assert_eq!(AtomicError::InvalidName, get_tempfile_name("./").unwrap_err());
}

#[test]
fn permission_bits_preserved() {
    // A restrictive umask must not leak into the committed file's bits.
    let previous = nix::sys::stat::umask(nix::sys::stat::Mode::from_bits_truncate(0o077));

    let file = init("secret");
    nix::sys::stat::fchmodat(
        None,
        path_of(&file),
        nix::sys::stat::Mode::from_bits_truncate(0o640),
        nix::sys::stat::FchmodatFlags::FollowSymlink,
    )
    .unwrap();

    let mut atomic = AtomicFile::open(path_of(&file)).unwrap();
    atomic.write(b"rotated").unwrap();
    atomic.commit().unwrap();

    let st = nix::sys::stat::stat(path_of(&file)).unwrap();
    assert_eq!(0o640, st.st_mode & 0o7777);

    nix::sys::stat::umask(previous);
}

#[test]
fn open_missing_file_is_not_found() {
    let dir = tempfile::tempdir().unwrap();
    let path = format!("{}/missing", dir.path().to_str().unwrap());
    assert_eq!(AtomicError::NotFound, AtomicFile::open(&path).unwrap_err());
}

#[test]
fn open_root_has_no_parent() {
    assert_eq!(AtomicError::NoParentDirectory, AtomicFile::open("/").unwrap_err());
    assert_eq!(AtomicError::NoParentDirectory, AtomicFile::open("").unwrap_err());
}

#[test]
fn open_nameless_path_is_invalid() {
    let dir = tempfile::tempdir().unwrap();
    let path = format!("{}/..", dir.path().to_str().unwrap());
    assert_eq!(AtomicError::InvalidName, AtomicFile::open(&path).unwrap_err());
    assert_eq!(AtomicError::InvalidName, AtomicFile::open(".").unwrap_err());
}

#[test]
fn open_directory_with_trailing_slash_is_io_error() {
    let dir = tempfile::tempdir().unwrap();
    let path = format!("{}/", dir.path().to_str().unwrap());
    let err = AtomicFile::open(&path).unwrap_err();
    assert!(matches!(err, AtomicError::Io(_)));
}

#[test]
fn open_interior_nul_is_invalid() {
    assert_eq!(AtomicError::InvalidName, AtomicFile::open("a\u{0}b").unwrap_err());
}

#[test]
fn open_directory_is_io_error() {
    let dir = tempfile::tempdir().unwrap();
    let err = AtomicFile::open(dir.path().to_str().unwrap()).unwrap_err();
    assert!(matches!(err, AtomicError::Io(_)));
}

#[test]
fn commit_leaves_no_residual_swap_file() {
    let file = init("foo");
    let path = path_of(&file).to_string();
    let mut atomic = AtomicFile::open(&path).unwrap();
    atomic.write(b"bar").unwrap();
    atomic.commit().unwrap();

    let swap = get_tempfile_name(&path).unwrap();
    let err = nix::sys::stat::stat(swap.as_str()).unwrap_err();
    assert_eq!(nix::errno::Errno::ENOENT, err);
}

#[test]
fn atomic_swap_publishes_descriptor_content() {
    let target = init("old content");
    let source = init("new content");

    let fd = open_rdonly(path_of(&source));
    let residual = atomicio::atomic_swap(path_of(&target), fd).unwrap();
    nix::unistd::close(fd).unwrap();

    assert_eq!(Some(get_tempfile_name(path_of(&target)).unwrap()), residual);

    let mut back = vec![0u8; 64];
    let check = open_rdonly(path_of(&target));
    let n = nix::sys::uio::pread(check, &mut back, 0).unwrap();
    nix::unistd::close(check).unwrap();
    assert_eq!(b"new content", &back[..n]);
}

#[test]
fn get_tempfile_is_anonymous_and_mode_exact() {
    let previous = nix::sys::stat::umask(nix::sys::stat::Mode::from_bits_truncate(0o022));
    let dir = tempfile::tempdir().unwrap();
    let fd = atomicio::get_tempfile(dir.path().to_str().unwrap(), 0o100644).unwrap();
    assert!(fd >= 0);

    let st = nix::sys::stat::fstat(fd).unwrap();
    assert_eq!(0o644, st.st_mode & 0o7777);
    assert_eq!(0, st.st_nlink);

    let written = nix::sys::uio::pwrite(fd, b"x", 0).unwrap();
    assert_eq!(1, written);
    nix::unistd::close(fd).unwrap();
    nix::sys::stat::umask(previous);
}

#[test]
fn decimal_rendering_exact() {
    assert_eq!("0", atomicio::paths::decimal_string(0));
    assert_eq!("7", atomicio::paths::decimal_string(7));
    assert_eq!("10", atomicio::paths::decimal_string(10));
    assert_eq!("4096", atomicio::paths::decimal_string(4096));
    assert_eq!("18446744073709551615", atomicio::paths::decimal_string(u64::MAX));
}

#[test]
fn append_chunk_exact() {
    let mut image = vec![1u8, 2];
    let chunk = vec![3u8, 4, 5, 9];
    atomicio::append_chunk(&mut image, &chunk, 3);
    assert_eq!(vec![1u8, 2, 3, 4, 5], image);
    atomicio::append_chunk(&mut image, &chunk, 0);
    assert_eq!(vec![1u8, 2, 3, 4, 5], image);
}

#[test]
fn swap_into_missing_directory_propagates_errno() {
    let source = init("content");
    let fd = open_rdonly(path_of(&source));
    let dir = tempfile::tempdir().unwrap();
    let missing = format!("{}/gone/notfound1", dir.path().to_str().unwrap());
    let err = atomicio::atomic_swap(&missing, fd).unwrap_err();
    nix::unistd::close(fd).unwrap();
    assert_eq!(AtomicError::Io(atomicio::errors::ENOENT_CODE), err);
}
