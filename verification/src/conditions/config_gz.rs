//! Line-by-line reading of a gzip-compressed configuration held in memory.
//!
//! The decoding is done by `flate2` and the splitting into lines by
//! `std::io::BufReader`. Nothing here is proved: the contracts below are
//! what the rest of the library believes of the two.

use crate::io_error::{IoError, IoKind};
use std::io::BufRead;
use vstd::prelude::*;

verus! {

/// `flate2::read::GzDecoder`, opaque to the verifier.
#[verifier::external_type_specification]
#[verifier::external_body]
#[verifier::reject_recursive_types(R)]
pub struct ExGzDecoder<R>(flate2::read::GzDecoder<R>);

/// `std::io::BufReader`, opaque to the verifier.
#[verifier::external_type_specification]
#[verifier::external_body]
#[verifier::reject_recursive_types(R)]
pub struct ExBufReader<R: ?Sized>(std::io::BufReader<R>);

/// What a reader has yet to give: the lines that it yields before it stops
/// (each with its line break, if it has one), and whether it then reports the
/// end of the stream (`complete`) or a failure.
pub struct Pending {
    pub lines: Seq<Seq<char>>,
    pub complete: bool,
}

/// What `reader` has yet to give to successive calls of `read_line`.
pub uninterp spec fn pending(
    reader: std::io::BufReader<flate2::read::GzDecoder<&[u8]>>,
) -> Pending;

/// What a fresh reader over the gzip stream `data` has to give.
pub uninterp spec fn gz_text(data: Seq<u8>) -> Pending;

/// Calls `flate2::read::GzDecoder::new` on the bytes and
/// `std::io::BufReader::new` on the decoder.
///
/// Claimed: what the new reader has to give depends on the bytes alone. A
/// malformed header is no failure here; the first read reports it.
#[verifier::external_body]
pub(crate) fn open<'a>(data: &'a [u8]) -> (reader: std::io::BufReader<
    flate2::read::GzDecoder<&'a [u8]>,
>)
    ensures
        pending(reader) == gz_text(data@),
{
    std::io::BufReader::new(flate2::read::GzDecoder::new(data))
}

/// Calls `std::io::BufRead::read_line` on the reader.
///
/// Claimed: while lines are pending, the call appends the next one to `line`,
/// returns a count above zero and leaves the rest pending. When none is
/// pending, it returns zero if the stream is complete, and an error
/// otherwise. Nothing is claimed of the error itself, nor of `line` and of the
/// reader once no line is pending.
#[verifier::external_body]
pub(crate) fn read_line(
    reader: &mut std::io::BufReader<flate2::read::GzDecoder<&[u8]>>,
    line: &mut String,
) -> (r: Result<usize, IoError>)
    ensures
        match r {
            Ok(n) => if pending(*old(reader)).lines.len() > 0 {
                &&& n > 0
                &&& final(line)@ == old(line)@ + pending(*old(reader)).lines.first()
                &&& pending(*final(reader)).lines == pending(*old(reader)).lines.drop_first()
                &&& pending(*final(reader)).complete == pending(*old(reader)).complete
            } else {
                n == 0 && pending(*old(reader)).complete
            },
            Err(_) => pending(*old(reader)).lines.len() == 0 && !pending(*old(reader)).complete,
        },
{
    match reader.read_line(line) {
        Ok(n) => Ok(n),
        Err(e) => {
            let kind = match e.kind() {
                std::io::ErrorKind::NotFound => IoKind::NotFound,
                std::io::ErrorKind::PermissionDenied => IoKind::PermissionDenied,
                std::io::ErrorKind::InvalidInput => IoKind::InvalidInput,
                std::io::ErrorKind::InvalidData => IoKind::InvalidData,
                std::io::ErrorKind::UnexpectedEof => IoKind::UnexpectedEof,
                _ => IoKind::Other,
            };
            Err(IoError { kind, message: e.to_string() })
        },
    }
}

} // verus!
