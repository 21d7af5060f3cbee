use libheic_rs::source::{RandomAccessSource, SeekableSource, SliceSource, SourceReadError};
use std::io::{Cursor, Read, Seek, SeekFrom};

#[test]
fn slice_source_reads_exact_ranges() {
    let mut source = SliceSource::new(b"0123456789");
    let mut output = [0_u8; 4];
    source
        .read_exact_at(3, &mut output)
        .expect("slice source should read exact range");
    assert_eq!(&output, b"3456");

    let read_back = source
        .read_range(0, 3)
        .expect("slice source read_range should succeed");
    assert_eq!(read_back, b"012");
}

#[test]
fn slice_source_reports_out_of_bounds() {
    let mut source = SliceSource::new(b"abcd");
    let mut output = [0_u8; 5];
    let err = source
        .read_exact_at(0, &mut output)
        .expect_err("slice source should reject out-of-bounds read");
    match err {
        SourceReadError::OutOfBounds {
            offset,
            requested,
            source_len,
        } => {
            assert_eq!(offset, 0);
            assert_eq!(requested, 5);
            assert_eq!(source_len, 4);
        }
        other => panic!("expected OutOfBounds error, got {other:?}"),
    }
}

#[test]
fn slice_source_reports_range_overflow() {
    let mut source = SliceSource::new(b"abcd");
    let mut output = [0_u8; 2];
    let err = source
        .read_exact_at(u64::MAX, &mut output)
        .expect_err("slice source should reject range-overflow reads");
    match err {
        SourceReadError::RangeOverflow { offset, requested } => {
            assert_eq!(offset, u64::MAX);
            assert_eq!(requested, 2);
        }
        other => panic!("expected RangeOverflow error, got {other:?}"),
    }
}

#[derive(Debug)]
struct TruncatedSeekReader {
    data: Vec<u8>,
    position: u64,
    reported_len: u64,
}

impl TruncatedSeekReader {
    fn new(data: &[u8], reported_len: u64) -> Self {
        Self {
            data: data.to_vec(),
            position: 0,
            reported_len,
        }
    }
}

impl Read for TruncatedSeekReader {
    fn read(&mut self, buf: &mut [u8]) -> std::io::Result<usize> {
        let start = usize::try_from(self.position).map_err(|_| {
            std::io::Error::new(
                std::io::ErrorKind::InvalidInput,
                "read position does not fit in usize",
            )
        })?;
        if start >= self.data.len() {
            return Ok(0);
        }
        let available = self.data.len() - start;
        let count = available.min(buf.len());
        buf[..count].copy_from_slice(&self.data[start..start + count]);
        self.position = self.position.checked_add(count as u64).ok_or_else(|| {
            std::io::Error::new(std::io::ErrorKind::InvalidInput, "position overflow")
        })?;
        Ok(count)
    }
}

impl Seek for TruncatedSeekReader {
    fn seek(&mut self, pos: SeekFrom) -> std::io::Result<u64> {
        let next = match pos {
            SeekFrom::Start(offset) => offset,
            SeekFrom::End(0) => self.reported_len,
            SeekFrom::Current(0) => self.position,
            _ => {
                return Err(std::io::Error::new(
                    std::io::ErrorKind::InvalidInput,
                    "unsupported seek",
                ))
            }
        };
        self.position = next;
        Ok(next)
    }
}

#[test]
fn seekable_source_reads_non_contiguous_ranges() {
    let cursor = Cursor::new(b"abcdefghijklmnopqrstuvwxyz".to_vec());
    let mut source = SeekableSource::new(cursor).expect("cursor should initialize source");

    let mut first = [0_u8; 5];
    source
        .read_exact_at(2, &mut first)
        .expect("first seek-backed read should succeed");
    assert_eq!(&first, b"cdefg");

    let mut second = [0_u8; 4];
    source
        .read_exact_at(20, &mut second)
        .expect("second seek-backed read should succeed");
    assert_eq!(&second, b"uvwx");
}

#[test]
fn seekable_source_reports_truncated_read_as_io_error() {
    let reader = TruncatedSeekReader::new(b"abc", 8);
    let mut source = SeekableSource::new(reader).expect("source should initialize");
    let mut output = [0_u8; 4];

    let err = source
        .read_exact_at(2, &mut output)
        .expect_err("truncated seek-backed reads should fail");
    match err {
        SourceReadError::Io {
            operation,
            offset,
            requested,
            source,
        } => {
            assert_eq!(operation, "read-exact");
            assert_eq!(offset, 2);
            assert_eq!(requested, 4);
            assert_eq!(source.kind(), std::io::ErrorKind::UnexpectedEof);
        }
        other => panic!("expected Io error, got {other:?}"),
    }
}

#[test]
fn slice_source_reads_up_to_the_last_byte_and_reports_its_length() {
    let mut source = SliceSource::new(b"abcd");
    assert_eq!(source.len(), 4);
    assert!(!source.is_empty());
    let mut output = [0_u8; 2];
    source.read_exact_at(2, &mut output).expect("range ending at the last byte should read");
    assert_eq!(&output, b"cd");
    let empty = source.read_range(4, 0).expect("an empty range at the end should read");
    assert!(empty.is_empty());
    match source.read_range(3, 2) {
        Err(SourceReadError::OutOfBounds { offset, requested, source_len }) => {
            assert_eq!((offset, requested, source_len), (3, 2, 4));
        }
        other => panic!("expected OutOfBounds error, got {other:?}"),
    }
}

#[test]
fn empty_slice_source_is_empty() {
    let source = SliceSource::new(b"");
    assert!(source.is_empty());
    assert_eq!(source.len(), 0);
}

#[test]
fn seekable_source_checks_ranges_before_reading() {
    let cursor = Cursor::new(b"abcdef".to_vec());
    let mut source = SeekableSource::new(cursor).expect("cursor should initialize source");
    assert_eq!(source.len(), 6);
    let read = source.read_range(1, 3).expect("in-range read should succeed");
    assert_eq!(read, b"bcd");
    match source.read_range(4, 3) {
        Err(SourceReadError::OutOfBounds { offset, requested, source_len }) => {
            assert_eq!((offset, requested, source_len), (4, 3, 6));
        }
        other => panic!("expected OutOfBounds error, got {other:?}"),
    }
    match source.read_range(u64::MAX - 1, 3) {
        Err(SourceReadError::RangeOverflow { offset, requested }) => {
            assert_eq!((offset, requested), (u64::MAX - 1, 3));
        }
        other => panic!("expected RangeOverflow error, got {other:?}"),
    }
}

#[test]
fn mutable_reference_to_a_source_is_a_source() {
    let mut inner = SliceSource::new(b"xyz");
    let mut by_ref = &mut inner;
    assert_eq!(RandomAccessSource::len(&by_ref), 3);
    let mut output = [0_u8; 2];
    RandomAccessSource::read_exact_at(&mut by_ref, 1, &mut output).expect("read through reference");
    assert_eq!(&output, b"yz");
}
