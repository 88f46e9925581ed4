use std::io::Write;

use atomicio::{AtomicError, AtomicFile, SeekFrom};
use tempfile::NamedTempFile;

fn init(buf: &str) -> NamedTempFile {
    let mut file = NamedTempFile::new().unwrap();
    file.write_all(buf.as_bytes()).unwrap();
    file.flush().unwrap();
    file
}

fn path_of(file: &NamedTempFile) -> &str {
    file.path().to_str().unwrap()
}

fn read_path(path: &str) -> String {
    let mut atomic = AtomicFile::open(path).unwrap();
    let mut buffer: Vec<u8> = Vec::new();
    atomic.read_to_end(&mut buffer);
    atomic.abandon();
    String::from_utf8(buffer).unwrap()
}

#[test]
fn seek_and_overwrite_middle() {
    let file = init("abcdef");
    let mut atomic = AtomicFile::open(path_of(&file)).unwrap();
    assert_eq!(2, atomic.seek(SeekFrom::Start(2)).unwrap());
    atomic.write(b"XY").unwrap();
    atomic.commit().unwrap();

    assert_eq!("abXYef", read_path(path_of(&file)));
}

#[test]
fn seek_from_end_and_current() {
    let file = init("abc");
    let mut atomic = AtomicFile::open(path_of(&file)).unwrap();

    assert_eq!(2, atomic.seek(SeekFrom::End(-1)).unwrap());
    let mut one = vec![0u8; 1];
    assert_eq!(1, atomic.read(&mut one));
    assert_eq!(b"c", &one[..]);

    assert_eq!(1, atomic.seek(SeekFrom::Current(-2)).unwrap());
    assert_eq!(1, atomic.read(&mut one));
    assert_eq!(b"b", &one[..]);

    assert_eq!(3, atomic.seek(SeekFrom::End(0)).unwrap());
    assert_eq!(0, atomic.read(&mut one));

    atomic.abandon();
}

#[test]
fn seek_before_start_is_invalid() {
    let file = init("abc");
    let mut atomic = AtomicFile::open(path_of(&file)).unwrap();
    let err = atomic.seek(SeekFrom::End(-10)).unwrap_err();
    assert_eq!(AtomicError::Io(atomicio::errors::EINVAL_CODE), err);
    let err = atomic.seek(SeekFrom::Current(-1)).unwrap_err();
    assert_eq!(AtomicError::Io(atomicio::errors::EINVAL_CODE), err);
    atomic.abandon();
}

#[test]
fn seek_beyond_offset_bound_overflows() {
    let file = init("abc");
    let mut atomic = AtomicFile::open(path_of(&file)).unwrap();
    let err = atomic.seek(SeekFrom::Start(u64::MAX)).unwrap_err();
    assert_eq!(AtomicError::Io(atomicio::errors::EOVERFLOW_CODE), err);
    let err = atomic.seek(SeekFrom::End(i64::MAX)).unwrap_err();
    assert_eq!(AtomicError::Io(atomicio::errors::EOVERFLOW_CODE), err);
    assert_eq!(2, atomic.seek(SeekFrom::Start(2)).unwrap());
    let err = atomic.seek(SeekFrom::Current(i64::MAX)).unwrap_err();
    assert_eq!(AtomicError::Io(atomicio::errors::EOVERFLOW_CODE), err);
    let mut one = vec![0u8; 1];
    assert_eq!(1, atomic.read(&mut one));
    assert_eq!(b"c", &one[..]);
    atomic.abandon();
}

#[test]
fn write_past_end_zero_fills_gap() {
    let file = init("ab");
    let mut atomic = AtomicFile::open(path_of(&file)).unwrap();
    assert_eq!(4, atomic.seek(SeekFrom::Start(4)).unwrap());
    atomic.write(b"Z").unwrap();
    atomic.commit().unwrap();

    let mut reopened = AtomicFile::open(path_of(&file)).unwrap();
    let mut bytes: Vec<u8> = Vec::new();
    reopened.read_to_end(&mut bytes);
    reopened.abandon();
    assert_eq!(&[b'a', b'b', 0u8, 0u8, b'Z'], &bytes[..]);
}

#[test]
fn read_in_pieces() {
    let file = init("hello");
    let mut atomic = AtomicFile::open(path_of(&file)).unwrap();
    let mut two = vec![0u8; 2];

    assert_eq!(2, atomic.read(&mut two));
    assert_eq!(b"he", &two[..]);
    assert_eq!(2, atomic.read(&mut two));
    assert_eq!(b"ll", &two[..]);
    assert_eq!(1, atomic.read(&mut two));
    assert_eq!(b'o', two[0]);
    assert_eq!(0, atomic.read(&mut two));

    atomic.abandon();
}
