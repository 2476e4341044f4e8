//! Decompressing the downloaded archive.

use std::io::Read;
use vstd::prelude::*;
use crate::error::BootstrapError;

verus! {

/// What the bzip2 decoder makes of a byte stream: the bytes of its first
/// compressed stream, decompressed, or `None` where it rejects the stream.
pub uninterp spec fn bzip2_decoded(bytes: Seq<u8>) -> Option<Seq<u8>>;

/// Reads `bytes` to the end through `bzip2::read::BzDecoder`. The decoder
/// fails on data that is not a bzip2 stream and on a stream that ends early;
/// what it had produced until then is dropped. The contract only names the
/// outcome: it claims that decompression is a function of the bytes alone.
#[verifier::external_body]
pub(crate) fn decompress(bytes: &[u8]) -> (r: Option<Vec<u8>>)
    ensures
        r.is_some() == bzip2_decoded(bytes@).is_some(),
        r matches Some(data) ==> bzip2_decoded(bytes@) == Some(data@),
{
    let mut data = Vec::new();
    match bzip2::read::BzDecoder::new(bytes).read_to_end(&mut data) {
        Ok(_) => Some(data),
        Err(_) => None,
    }
}

/// Turns the outcome of decompressing the archive into the tar container to
/// unpack: decompressed bytes are kept as they are, a rejected stream is a
/// [`BootstrapError::Archive`].
pub fn tar_from_decoded(decoded: Option<Vec<u8>>) -> (r: Result<Vec<u8>, BootstrapError>)
    ensures
        match decoded {
            Some(data) => r == Ok::<Vec<u8>, BootstrapError>(data),
            None => r == Err::<Vec<u8>, BootstrapError>(BootstrapError::Archive),
        },
{
    match decoded {
        Some(data) => Ok(data),
        None => Err(BootstrapError::Archive),
    }
}

/// Decompresses a bzip2-compressed archive into the bytes of the tar
/// container it holds.
pub fn decode_archive(bytes: &[u8]) -> (r: Result<Vec<u8>, BootstrapError>)
    ensures
        match bzip2_decoded(bytes@) {
            Some(data) => r matches Ok(tar) && tar@ == data,
            None => r == Err::<Vec<u8>, BootstrapError>(BootstrapError::Archive),
        },
{
    tar_from_decoded(decompress(bytes))
}

} // verus!
