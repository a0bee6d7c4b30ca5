//! The failure taxonomy of the manager: every operation surfaces one of these.
use vstd::prelude::*;

verus! {

/// Everything that can go wrong while resolving, fetching, unpacking or
/// switching a version.
#[derive(Debug, Clone, Copy, PartialEq, Eq, Structural)]
pub enum EvmError {
    /// The remote catalog endpoint answered with the given non-success status.
    CatalogUnavailable(u16),
    /// The catalog payload could not be decoded into the expected shape.
    CatalogParseError,
    /// The artifact endpoint answered with the given non-success status.
    DownloadFailed(u16),
    /// A downloaded or cached artifact's digest differs from the recorded one.
    ChecksumMismatch,
    /// The artifact path carries no extension to dispatch on.
    UnknownArchiveFormat,
    /// Unpacking the artifact failed.
    ExtractionFailed,
    /// No catalog entry matches the requested version selector.
    VersionNotFound,
    /// A catalog entry matches, but none of its files fits this platform.
    NoArtifactForPlatform,
}

/// An HTTP status code in the success range.
pub open spec fn status_success(code: u16) -> bool {
    200 <= code < 300
}

/// Gate on the catalog endpoint's response status: a non-success status is a
/// `CatalogUnavailable` failure carrying that status.
pub fn check_catalog_status(code: u16) -> (r: Result<(), EvmError>)
    ensures
        r is Ok <==> status_success(code),
        r matches Err(e) ==> e == EvmError::CatalogUnavailable(code),
{
    if 200 <= code && code < 300 {
        Ok(())
    } else {
        Err(EvmError::CatalogUnavailable(code))
    }
}

/// Gate on the artifact endpoint's response status: a non-success status is a
/// `DownloadFailed` failure carrying that status.
pub fn check_download_status(code: u16) -> (r: Result<(), EvmError>)
    ensures
        r is Ok <==> status_success(code),
        r matches Err(e) ==> e == EvmError::DownloadFailed(code),
{
    if 200 <= code && code < 300 {
        Ok(())
    } else {
        Err(EvmError::DownloadFailed(code))
    }
}

} // verus!
