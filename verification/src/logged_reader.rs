//! A reader together with the record of every request made of it and what came
//! of each. Only the two calls below add to the record.

use vstd::prelude::*;
use std::io::{Read, Seek, SeekFrom};

verus! {

/// Where a reader is asked to move to: an offset from its start, or its end.
#[derive(Clone, Copy, Debug, Eq, PartialEq)]
pub enum SeekTarget {
    Start(u64),
    End,
}

/// One request made of a reader and what came of it.
#[derive(Clone, Copy, Debug, Eq, PartialEq)]
pub enum ReaderEvent {
    /// A seek to `target`, with the position the reader reported where it succeeded.
    Seek { target: SeekTarget, reported: Option<u64> },
    /// A read of exactly `len` bytes, and whether it succeeded.
    ReadExact { len: usize, succeeded: bool },
}

/// A reader and the record of the requests made of it.
pub struct LoggedReader<R> {
    reader: R,
    log: Ghost<Seq<ReaderEvent>>,
}

impl<R> LoggedReader<R> {
    /// The requests made of the reader so far, in order, with their outcomes.
    pub closed spec fn log(&self) -> Seq<ReaderEvent> {
        self.log@
    }

    /// A reader of which nothing has been asked yet.
    pub fn new(reader: R) -> (r: Self)
        ensures
            r.log() == Seq::<ReaderEvent>::empty(),
    {
        LoggedReader { reader, log: Ghost(Seq::empty()) }
    }
}

/// `Seek::seek` on the reader, to an offset from its start or to its end. The
/// request and its outcome (the position reported, or a failure) are recorded;
/// which outcome comes is up to the reader's `Seek` impl.
#[verifier::external_body]
pub fn seek_reader<R: Seek>(reader: &mut LoggedReader<R>, target: SeekTarget) -> (r: Result<u64, std::io::Error>)
    ensures
        (*final(reader)).log() == (*old(reader)).log().push(ReaderEvent::Seek {
            target,
            reported: match r {
                Ok(p) => Some(p),
                Err(_) => None,
            },
        }),
{
    reader.reader.seek(match target {
        SeekTarget::Start(offset) => SeekFrom::Start(offset),
        SeekTarget::End => SeekFrom::End(0),
    })
}

/// `Read::read_exact` on the reader, filling `output`. The request and whether it
/// succeeded are recorded; the bytes read are up to the reader's `Read` impl, and
/// of them only that a slice keeps its length is claimed.
#[verifier::external_body]
pub fn read_exact_reader<R: Read>(reader: &mut LoggedReader<R>, output: &mut [u8]) -> (r: Result<(), std::io::Error>)
    ensures
        final(output)@.len() == old(output)@.len(),
        (*final(reader)).log() == (*old(reader)).log().push(
            ReaderEvent::ReadExact { len: old(output)@.len() as usize, succeeded: r is Ok },
        ),
{
    reader.reader.read_exact(output)
}

} // verus!
