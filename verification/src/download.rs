//! The download cache policy: a cached artifact is served only after its
//! digest has been checked, and a fresh download is accepted into the cache
//! only after its digest has been checked in memory.
use vstd::prelude::*;

use crate::checksum::{checksum_ok, content_matches_checksum};
use crate::errors::EvmError;

verus! {

/// Cache reuse decision: serve the cached bytes without any network traffic
/// exactly when they are present and their digest matches the recorded
/// checksum; presence alone is never trusted.
pub fn cache_usable(cached: &Option<Vec<u8>>, expected: &str) -> (r: bool)
    ensures
        r <==> (cached matches Some(c) && checksum_ok(c@, expected@)),
{
    match cached {
        Some(content) => content_matches_checksum(content, expected),
        None => false,
    }
}

/// Acceptance decision for freshly downloaded bytes: they may be written to
/// the cache and handed to the caller exactly when their digest matches the
/// recorded checksum; a mismatch is a `ChecksumMismatch` failure and nothing
/// may be written.
pub fn accept_download(content: &Vec<u8>, expected: &str) -> (r: Result<(), EvmError>)
    ensures
        r is Ok <==> checksum_ok(content@, expected@),
        r matches Err(e) ==> e == EvmError::ChecksumMismatch,
{
    if content_matches_checksum(content, expected) {
        Ok(())
    } else {
        Err(EvmError::ChecksumMismatch)
    }
}

} // verus!
