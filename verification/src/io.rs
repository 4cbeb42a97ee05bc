//! Byte-stream reading and writing forwarded to the live variant.
//!
//! When both payload types are readable streams, the union is one too;
//! likewise for buffered readers and for writable streams.  Every
//! operation goes to whichever variant is live, and every failure is
//! returned verbatim: the union adds no wrapping, retry, or recovery of
//! its own.

use vstd::prelude::*;

use crate::Either;

verus! {

/// Declares `std::io::Error` for Verus so that forwarded failures can be
/// returned verbatim.  The value is opaque; the library never inspects it.
#[verifier::external_type_specification]
#[verifier::external_body]
pub struct ExIoError(std::io::Error);

/// Relies on `std::io::Read::read`: on success the returned count never
/// exceeds the buffer's length, and a slice cannot change length.
#[verifier::external_body]
fn read_of<T: std::io::Read>(src: &mut T, buf: &mut [u8]) -> (r: Result<
    usize,
    std::io::Error,
>)
    ensures
        final(buf)@.len() == old(buf)@.len(),
        r matches Ok(n) ==> n <= old(buf)@.len(),
{
    src.read(buf)
}

/// Relies on `std::io::Read::read_to_end`: every byte read from the
/// source is appended to the buffer, whose previous contents stay in
/// place; on success the returned count is the number of appended bytes.
#[verifier::external_body]
fn read_to_end_of<T: std::io::Read>(src: &mut T, buf: &mut Vec<u8>) -> (r: Result<
    usize,
    std::io::Error,
>)
    ensures
        final(buf)@.len() >= old(buf)@.len(),
        final(buf)@.subrange(0, old(buf)@.len() as int) == old(buf)@,
        r matches Ok(n) ==> final(buf)@.len() == old(buf)@.len() + n,
{
    src.read_to_end(buf)
}

/// Relies on `std::io::BufRead::fill_buf`: returns a view of the
/// stream's internal buffer, or the stream's own failure.  Nothing is
/// assumed of the bytes it holds.
#[verifier::external_body]
fn fill_buf_of<T: std::io::BufRead>(src: &mut T) -> (r: Result<&[u8], std::io::Error>) {
    src.fill_buf()
}

/// Relies on `std::io::BufRead::consume`: marks `amt` buffered bytes as
/// read.  The standard library asks the caller to pass at most the
/// length last returned by `fill_buf`; that obligation is forwarded to
/// the union's caller unchanged, as it would be for a bare stream.
#[verifier::external_body]
fn consume_of<T: std::io::BufRead>(src: &mut T, amt: usize) {
    src.consume(amt)
}

/// Relies on `std::io::Write::write`: on success the returned count
/// never exceeds the length of the buffer handed in.
#[verifier::external_body]
fn write_of<T: std::io::Write>(sink: &mut T, buf: &[u8]) -> (r: Result<
    usize,
    std::io::Error,
>)
    ensures
        r matches Ok(n) ==> n <= buf@.len(),
{
    sink.write(buf)
}

/// Relies on `std::io::Write::flush`: pushes buffered output to the
/// underlying sink, or returns the sink's own failure.
#[verifier::external_body]
fn flush_of<T: std::io::Write>(sink: &mut T) -> (r: Result<(), std::io::Error>) {
    sink.flush()
}

impl<L, R> Either<L, R> where L: std::io::Read, R: std::io::Read {
    /// Read from the live variant into the caller's buffer, returning
    /// the count of bytes read or the variant's failure verbatim.  On
    /// success the count never exceeds the buffer's length.
    pub fn read(&mut self, buf: &mut [u8]) -> (r: Result<usize, std::io::Error>)
        ensures
            (*final(self) is Left) == (*old(self) is Left),
            final(buf)@.len() == old(buf)@.len(),
            r matches Ok(n) ==> n <= old(buf)@.len(),
    {
        match self {
            Either::Left(inner) => read_of(inner, buf),
            Either::Right(inner) => read_of(inner, buf),
        }
    }

    /// Read the live variant to exhaustion, appending into the caller's
    /// growable buffer; forwarded as one bulk operation, never rebuilt
    /// from single reads.  The buffer's previous contents stay in place,
    /// and on success the returned count is the number of appended
    /// bytes.  Failures come back verbatim.
    pub fn read_to_end(&mut self, buf: &mut Vec<u8>) -> (r: Result<usize, std::io::Error>)
        ensures
            (*final(self) is Left) == (*old(self) is Left),
            final(buf)@.len() >= old(buf)@.len(),
            final(buf)@.subrange(0, old(buf)@.len() as int) == old(buf)@,
            r matches Ok(n) ==> final(buf)@.len() == old(buf)@.len() + n,
    {
        match self {
            Either::Left(inner) => read_to_end_of(inner, buf),
            Either::Right(inner) => read_to_end_of(inner, buf),
        }
    }
}

impl<L, R> Either<L, R> where L: std::io::BufRead, R: std::io::BufRead {
    /// Expose the live variant's internal buffer without copying, or its
    /// failure verbatim.
    pub fn fill_buf(&mut self) -> (r: Result<&[u8], std::io::Error>)
        ensures
            (*final(self) is Left) == (*old(self) is Left),
    {
        match self {
            Either::Left(inner) => fill_buf_of(inner),
            Either::Right(inner) => fill_buf_of(inner),
        }
    }

    /// Mark `amt` of the live variant's buffered bytes as consumed.  As
    /// with a bare buffered stream, the caller passes at most the length
    /// last returned by `fill_buf`.
    pub fn consume(&mut self, amt: usize)
        ensures
            (*final(self) is Left) == (*old(self) is Left),
    {
        match self {
            Either::Left(inner) => consume_of(inner, amt),
            Either::Right(inner) => consume_of(inner, amt),
        }
    }
}

impl<L, R> Either<L, R> where L: std::io::Write, R: std::io::Write {
    /// Write the caller's buffer to the live variant, returning the
    /// count of bytes accepted or the variant's failure verbatim.  On
    /// success the count never exceeds the buffer's length.
    pub fn write(&mut self, buf: &[u8]) -> (r: Result<usize, std::io::Error>)
        ensures
            (*final(self) is Left) == (*old(self) is Left),
            r matches Ok(n) ==> n <= buf@.len(),
    {
        match self {
            Either::Left(inner) => write_of(inner, buf),
            Either::Right(inner) => write_of(inner, buf),
        }
    }

    /// Flush the live variant's buffered output to its underlying sink,
    /// returning the variant's failure verbatim if it fails.
    pub fn flush(&mut self) -> (r: Result<(), std::io::Error>)
        ensures
            (*final(self) is Left) == (*old(self) is Left),
    {
        match self {
            Either::Left(inner) => flush_of(inner),
            Either::Right(inner) => flush_of(inner),
        }
    }
}

} // verus!
