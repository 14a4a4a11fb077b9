use vstd::prelude::*;

use crate::error::ServeError;

verus! {

/// What a single-stream xz decoder yields for the given compressed bytes:
/// the decompressed bytes, or nothing where they are not a valid stream.
pub uninterp spec fn xz_decoded(data: Seq<u8>) -> Option<Seq<u8>>;

/// Relies on xz2::read::XzDecoder::new (one xz stream, no memory limit) read to
/// the end: it yields the decompressed bytes, or an error where the input is
/// not a valid stream; either outcome is determined by the input bytes.
#[verifier::external_body]
fn xz_decode(data: &[u8]) -> (r: Option<Vec<u8>>)
    ensures
        match r {
            Some(v) => xz_decoded(data@) == Some(v@),
            None => xz_decoded(data@) is None,
        },
{
    let mut out: Vec<u8> = Vec::new();
    match std::io::Read::read_to_end(&mut xz2::read::XzDecoder::new(data), &mut out) {
        Ok(_) => Some(out),
        Err(_) => None,
    }
}

/// Undoes the xz container around a file's contents.
pub fn decompress(data: &[u8]) -> (r: Result<Vec<u8>, ServeError>)
    ensures
        match xz_decoded(data@) {
            Some(c) => r matches Ok(v) && v@ == c,
            None => r matches Err(ServeError::Data),
        },
{
    match xz_decode(data) {
        Some(v) => Ok(v),
        None => Err(ServeError::Data),
    }
}

} // verus!
