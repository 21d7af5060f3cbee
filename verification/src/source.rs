//! Random-access byte sources for HEIF payload ingestion: an in-memory slice and
//! any seekable reader, with range checks shared by both.

use vstd::prelude::*;
use crate::logged_reader::{read_exact_reader, seek_reader, LoggedReader, ReaderEvent, SeekTarget};

verus! {

#[verifier::external_type_specification]
#[verifier::external_body]
pub struct ExIoError(std::io::Error);

/// Failure to read a byte range from a source.
#[derive(Debug)]
pub enum SourceReadError {
    RangeOverflow {
        offset: u64,
        requested: usize,
    },
    OutOfBounds {
        offset: u64,
        requested: usize,
        source_len: u64,
    },
    Io {
        operation: &'static str,
        offset: u64,
        requested: usize,
        source: std::io::Error,
    },
}

/// Shared random-access source abstraction for HEIF payload ingestion.
///
/// A source has a length, and reads a range only where the range lies within
/// it: a range whose end passes `u64` is refused with `RangeOverflow`, and one
/// that passes the end of the source with `OutOfBounds`; a range within the
/// source is read, or fails with an `Io` error.
pub trait RandomAccessSource {
    /// The length of the source in bytes.
    spec fn spec_len(&self) -> u64;

    /// Total source length in bytes.
    fn len(&self) -> (r: u64)
        ensures
            r == self.spec_len(),
    ;

    /// Whether the source has zero bytes.
    fn is_empty(&self) -> (r: bool)
        ensures
            r == (self.spec_len() == 0),
    {
        self.len() == 0
    }

    /// Read an exact byte range into `output`.
    fn read_exact_at(&mut self, offset: u64, output: &mut [u8]) -> (r: Result<(), SourceReadError>)
        ensures
            final(output)@.len() == old(output)@.len(),
            (*final(self)).spec_len() == (*old(self)).spec_len(),
            match spec_validate_range(offset, old(output)@.len() as usize, (*old(self)).spec_len()) {
                Ok(()) => r is Ok || r matches Err(SourceReadError::Io { .. }),
                Err(e) => r == Err::<(), SourceReadError>(e),
            },
    ;

    /// Read an exact byte range and return owned bytes.
    fn read_range(&mut self, offset: u64, len: usize) -> (r: Result<Vec<u8>, SourceReadError>)
        ensures
            r matches Ok(v) ==> v@.len() == len,
            (*final(self)).spec_len() == (*old(self)).spec_len(),
            match spec_validate_range(offset, len, (*old(self)).spec_len()) {
                Ok(()) => r is Ok || r matches Err(SourceReadError::Io { .. }),
                Err(e) => r matches Err(e2) && e2 == e,
            },
    {
        let mut output = vec![0u8; len];
        match self.read_exact_at(offset, output.as_mut_slice()) {
            Ok(()) => Ok(output),
            Err(e) => Err(e),
        }
    }
}

/// The outcome of checking that `requested` bytes at `offset` lie within a source
/// of `source_len` bytes: the end of the range must be representable in `u64` and
/// must not pass the end of the source.
pub open spec fn spec_validate_range(offset: u64, requested: usize, source_len: u64) -> Result<(), SourceReadError> {
    if offset + requested > u64::MAX {
        Err(SourceReadError::RangeOverflow { offset, requested })
    } else if offset + requested > source_len {
        Err(SourceReadError::OutOfBounds { offset, requested, source_len })
    } else {
        Ok(())
    }
}

/// Law (range check): a range passes the check exactly when it ends within the
/// source; one whose end passes `u64` is refused as an overflow, and any other that
/// passes the end of the source as out of bounds, with the source's length.
pub proof fn law_validate_range(offset: u64, requested: usize, source_len: u64)
    ensures
        (spec_validate_range(offset, requested, source_len) is Ok) == (offset + requested <= source_len),
        offset + requested > u64::MAX ==> spec_validate_range(offset, requested, source_len)
            == Err::<(), SourceReadError>(SourceReadError::RangeOverflow { offset, requested }),
        source_len < offset + requested <= u64::MAX ==> spec_validate_range(offset, requested, source_len)
            == Err::<(), SourceReadError>(SourceReadError::OutOfBounds { offset, requested, source_len }),
{
}

/// End of the range of `requested` bytes at `offset`.
fn checked_range_end(offset: u64, requested: usize) -> (r: Result<u64, SourceReadError>)
    ensures
        match r {
            Ok(end) => end == offset + requested,
            Err(e) => offset + requested > u64::MAX && e == SourceReadError::RangeOverflow { offset, requested },
        },
{
    let requested_u64 = requested as u64;
    match offset.checked_add(requested_u64) {
        Some(end) => Ok(end),
        None => Err(SourceReadError::RangeOverflow { offset, requested }),
    }
}

/// Check that `requested` bytes at `offset` lie within a source of `source_len` bytes.
fn validate_range(offset: u64, requested: usize, source_len: u64) -> (r: Result<(), SourceReadError>)
    ensures
        r == spec_validate_range(offset, requested, source_len),
{
    let end = match checked_range_end(offset, requested) {
        Ok(end) => end,
        Err(e) => return Err(e),
    };
    if end > source_len {
        return Err(SourceReadError::OutOfBounds { offset, requested, source_len });
    }
    Ok(())
}

impl<T: RandomAccessSource + ?Sized> RandomAccessSource for &mut T {
    open spec fn spec_len(&self) -> u64 {
        (**self).spec_len()
    }

    fn len(&self) -> u64 {
        (**self).len()
    }

    fn read_exact_at(&mut self, offset: u64, output: &mut [u8]) -> (r: Result<(), SourceReadError>) {
        (**self).read_exact_at(offset, output)
    }
}

/// In-memory borrowed source implementation.
#[derive(Clone, Copy, Debug)]
pub struct SliceSource<'a> {
    data: &'a [u8],
}

impl<'a> View for SliceSource<'a> {
    type V = Seq<u8>;

    closed spec fn view(&self) -> Seq<u8> {
        self.data@
    }
}

impl<'a> SliceSource<'a> {
    pub fn new(data: &'a [u8]) -> (s: Self)
        ensures
            s@ == data@,
    {
        Self { data }
    }
}

impl RandomAccessSource for SliceSource<'_> {
    open spec fn spec_len(&self) -> u64 {
        self@.len() as u64
    }

    fn len(&self) -> (r: u64)
        ensures
            r == self@.len(),
    {
        self.data.len() as u64
    }

    /// Copy the bytes at `offset` into `output`, which must fit within the slice.
    fn read_exact_at(&mut self, offset: u64, output: &mut [u8]) -> (r: Result<(), SourceReadError>)
        ensures
            final(self)@ == old(self)@,
            match spec_validate_range(offset, old(output)@.len() as usize, old(self)@.len() as u64) {
                Ok(()) => r is Ok && final(output)@ == old(self)@.subrange(offset as int, offset + old(output)@.len()),
                Err(e) => r == Err::<(), SourceReadError>(e) && final(output)@ == old(output)@,
            },
    {
        let n = output.len();
        let source_len = self.data.len() as u64;
        match validate_range(offset, n, source_len) {
            Ok(()) => {},
            Err(e) => return Err(e),
        }
        let start = offset as usize;
        let dlen: usize = self.data.len();
        let mut i: usize = 0;
        while i < n
            invariant
                dlen == self.data@.len(),
                n == output@.len(),
                start + n <= self.data@.len(),
                start == offset,
                i <= n,
                self.data@ == old(self)@,
                forall|k: int| 0 <= k < i ==> output@[k] == self.data@[start + k],
            decreases n - i,
        {
            output[i] = self.data[start + i];
            i = i + 1;
        }
        assert(output@ =~= self.data@.subrange(offset as int, offset + n));
        Ok(())
    }

    /// Read `len` bytes at `offset` from the slice.
    fn read_range(&mut self, offset: u64, len: usize) -> (r: Result<Vec<u8>, SourceReadError>)
        ensures
            final(self)@ == old(self)@,
            match spec_validate_range(offset, len, old(self)@.len() as u64) {
                Ok(()) => r matches Ok(v) && v@ == old(self)@.subrange(offset as int, offset + len),
                Err(e) => r == Err::<Vec<u8>, SourceReadError>(e),
            },
    {
        let mut output = vec![0u8; len];
        match self.read_exact_at(offset, output.as_mut_slice()) {
            Ok(()) => Ok(output),
            Err(e) => Err(e),
        }
    }
}

/// Generic seek-backed source implementation: a reader, with the record of the
/// requests made of it, and the length it reported.
pub struct SeekableSource<R> {
    reader: LoggedReader<R>,
    len: u64,
}

impl<R> SeekableSource<R> {
    /// The length the reader reported when the source was made.
    pub closed spec fn source_len(&self) -> u64 {
        self.len
    }

    /// The requests made of the reader so far, in order, with their outcomes.
    pub closed spec fn requests(&self) -> Seq<ReaderEvent> {
        self.reader.log()
    }
}

/// The outcome of an in-range read of `len` bytes at `offset` from a source whose
/// reader had been asked `before` and has been asked `after`: one seek to `offset`
/// is made; where it fails the read fails with a "seek-read" error, and otherwise
/// one read of exactly `len` bytes is made, and the read succeeds exactly where
/// that read succeeded, failing with a "read-exact" error otherwise.
pub open spec fn in_range_read<T>(r: Result<T, SourceReadError>, before: Seq<ReaderEvent>, after: Seq<ReaderEvent>, offset: u64, len: usize) -> bool {
    &&& after.len() > before.len()
    &&& after.subrange(0, before.len() as int) == before
    &&& match after[before.len() as int] {
        ReaderEvent::Seek { target, reported: None } => {
            &&& target == SeekTarget::Start(offset)
            &&& after.len() == before.len() + 1
            &&& r matches Err(SourceReadError::Io { operation, offset: o, requested, .. })
            &&& o == offset && requested == len && operation@ == "seek-read"@
        },
        ReaderEvent::Seek { target, reported: Some(_) } => {
            &&& target == SeekTarget::Start(offset)
            &&& after.len() == before.len() + 2
            &&& after[before.len() + 1int] == ReaderEvent::ReadExact { len, succeeded: r is Ok }
            &&& r is Ok || (r matches Err(SourceReadError::Io { operation, offset: o, requested, .. })
                && o == offset && requested == len && operation@ == "read-exact"@)
        },
        ReaderEvent::ReadExact { .. } => false,
    }
}

impl<R: std::io::Read + std::io::Seek> SeekableSource<R> {
    /// Take the reader's length from a seek to its end, then rewind it to its start.
    pub fn new(reader: R) -> (r: Result<Self, SourceReadError>)
        ensures
            r matches Ok(s) ==> {
                &&& s.requests().len() == 2
                &&& s.requests()[0] == ReaderEvent::Seek { target: SeekTarget::End, reported: Some(s.source_len()) }
                &&& s.requests()[1] matches ReaderEvent::Seek { target, reported: Some(_) }
                &&& target == SeekTarget::Start(0)
            },
            r matches Err(e) ==> e matches SourceReadError::Io { operation, offset, requested, .. }
                && offset == 0 && requested == 0
                && (operation@ == "seek-end"@ || operation@ == "seek-start"@),
    {
        let mut reader = LoggedReader::new(reader);
        let len = match seek_reader(&mut reader, SeekTarget::End) {
            Ok(len) => len,
            Err(source) => return Err(SourceReadError::Io { operation: "seek-end", offset: 0, requested: 0, source }),
        };
        match seek_reader(&mut reader, SeekTarget::Start(0)) {
            Ok(_) => {},
            Err(source) => return Err(SourceReadError::Io { operation: "seek-start", offset: 0, requested: 0, source }),
        }
        Ok(SeekableSource { reader, len })
    }

    /// Total source length in bytes.
    pub fn len(&self) -> (r: u64)
        ensures
            r == self.source_len(),
    {
        self.len
    }

    /// Whether the source has zero bytes.
    pub fn is_empty(&self) -> (r: bool)
        ensures
            r == (self.source_len() == 0),
    {
        self.len == 0
    }

    /// Seek to `offset` and read exactly `output.len()` bytes, once the range is
    /// known to lie within the source; a range that does not is refused before the
    /// reader is asked anything.
    pub fn read_exact_at(&mut self, offset: u64, output: &mut [u8]) -> (r: Result<(), SourceReadError>)
        ensures
            final(self).source_len() == old(self).source_len(),
            final(output)@.len() == old(output)@.len(),
            match spec_validate_range(offset, old(output)@.len() as usize, old(self).source_len()) {
                Ok(()) => in_range_read(r, old(self).requests(), final(self).requests(), offset, old(output)@.len() as usize),
                Err(e) => r == Err::<(), SourceReadError>(e) && final(output)@ == old(output)@
                    && final(self).requests() == old(self).requests(),
            },
    {
        let requested = output.len();
        match validate_range(offset, requested, self.len) {
            Ok(()) => {},
            Err(e) => return Err(e),
        }
        let ghost before = self.reader.log();
        match seek_reader(&mut self.reader, SeekTarget::Start(offset)) {
            Ok(_) => {},
            Err(source) => {
                assert(self.reader.log().subrange(0, before.len() as int) =~= before);
                return Err(SourceReadError::Io { operation: "seek-read", offset, requested, source });
            },
        }
        let r = match read_exact_reader(&mut self.reader, output) {
            Ok(()) => Ok(()),
            Err(source) => Err(SourceReadError::Io { operation: "read-exact", offset, requested, source }),
        };
        assert(self.reader.log().subrange(0, before.len() as int) =~= before);
        r
    }

    /// Read `len` bytes at `offset` and return them.
    pub fn read_range(&mut self, offset: u64, len: usize) -> (r: Result<Vec<u8>, SourceReadError>)
        ensures
            final(self).source_len() == old(self).source_len(),
            r matches Ok(v) ==> v@.len() == len,
            match spec_validate_range(offset, len, old(self).source_len()) {
                Ok(()) => in_range_read(r, old(self).requests(), final(self).requests(), offset, len),
                Err(e) => r matches Err(e2) && e2 == e && final(self).requests() == old(self).requests(),
            },
    {
        let mut output = vec![0u8; len];
        match self.read_exact_at(offset, output.as_mut_slice()) {
            Ok(()) => Ok(output),
            Err(e) => Err(e),
        }
    }
}

} // verus!
