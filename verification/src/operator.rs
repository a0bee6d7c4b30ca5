//! The operator's resolution logic: mapping a version selector to the first
//! matching catalog entry, picking the artifact for the running platform, and
//! assembling the install plan the surrounding code carries out.
use vstd::prelude::*;

use crate::catalog::{download_base_url, strip_tag_prefix, Version, VersionFile};
use crate::errors::EvmError;
use crate::platform::{match_version_filename, needle_spec};
use crate::text::{contains_seq, str_contains, trim_prefix_spec};

verus! {

/// The Go toolchain's operator: the toolchain-specific pieces of the pipeline
/// that need no I/O of their own live on it.
pub struct Entry;

impl Entry {
    /// The versions root of this toolchain under the given home directory.
    pub fn get_versions_dir(&self, home: &str) -> (r: String)
        ensures
            r@ == home@ + "/.evm/versions/"@ + "go"@,
    {
        crate::paths::get_versions_dir(home, crate::catalog::toolchain_tag())
    }

    /// Whether an artifact filename fits the given platform.
    pub fn match_version_filename(&self, filename: &str, os: &str, arch: &str) -> (r: bool)
        ensures
            r == contains_seq(filename@, needle_spec(os@, arch@)),
    {
        match_version_filename(filename, os, arch)
    }
}

/// The catalog entry at `i` is the first whose identifier contains the
/// selector.
pub open spec fn is_first_version_match(versions: Seq<Version>, sel: Seq<char>, i: int) -> bool {
    &&& 0 <= i < versions.len()
    &&& contains_seq(versions[i].version@, sel)
    &&& forall|k: int| 0 <= k < i ==> !contains_seq(versions[k].version@, sel)
}

/// No catalog entry's identifier contains the selector.
pub open spec fn no_version_match(versions: Seq<Version>, sel: Seq<char>) -> bool {
    forall|k: int| 0 <= k < versions.len() ==> !contains_seq(versions[k].version@, sel)
}

/// The artifact fits the platform: its filename carries the platform's token
/// pair.
pub open spec fn file_matches_platform(f: VersionFile, os: Seq<char>, arch: Seq<char>) -> bool {
    contains_seq(f.filename@, needle_spec(os, arch))
}

/// The artifact at `j` is the first in the entry's file list that fits the
/// platform.
pub open spec fn is_first_file_match(
    files: Seq<VersionFile>,
    os: Seq<char>,
    arch: Seq<char>,
    j: int,
) -> bool {
    &&& 0 <= j < files.len()
    &&& file_matches_platform(files[j], os, arch)
    &&& forall|k: int| 0 <= k < j ==> !file_matches_platform(files[k], os, arch)
}

/// None of the entry's artifacts fits the platform.
pub open spec fn no_file_match(files: Seq<VersionFile>, os: Seq<char>, arch: Seq<char>) -> bool {
    forall|k: int| 0 <= k < files.len() ==> !file_matches_platform(files[k], os, arch)
}

/// The index of the first catalog entry whose identifier contains the
/// selector, if any.
pub fn find_version(versions: &Vec<Version>, selector: &str) -> (r: Option<usize>)
    ensures
        match r {
            Some(i) => is_first_version_match(versions@, selector@, i as int),
            None => no_version_match(versions@, selector@),
        },
{
    let mut i: usize = 0;
    while i < versions.len()
        invariant
            0 <= i <= versions@.len(),
            forall|k: int| 0 <= k < i ==> !contains_seq(versions@[k].version@, selector@),
        decreases versions@.len() - i,
    {
        if str_contains(versions[i].version.as_str(), selector) {
            return Some(i);
        }
        i = i + 1;
    }
    None
}

/// The index of the first artifact in the file list that fits the platform,
/// if any.
pub fn find_file(files: &Vec<VersionFile>, os: &str, arch: &str) -> (r: Option<usize>)
    ensures
        match r {
            Some(j) => is_first_file_match(files@, os@, arch@, j as int),
            None => no_file_match(files@, os@, arch@),
        },
{
    let mut j: usize = 0;
    while j < files.len()
        invariant
            0 <= j <= files@.len(),
            forall|k: int| 0 <= k < j ==> !file_matches_platform(files@[k], os@, arch@),
        decreases files@.len() - j,
    {
        if match_version_filename(files[j].filename.as_str(), os, arch) {
            return Some(j);
        }
        j = j + 1;
    }
    None
}

/// Whether resolving the selector needs the archive catalog as well: the
/// latest catalog alone holds no entry for it.
pub fn needs_archive(latest: &Vec<Version>, selector: &str) -> (r: bool)
    ensures
        r == no_version_match(latest@, selector@),
{
    match find_version(latest, selector) {
        Some(_) => false,
        None => true,
    }
}

/// Everything the surrounding code needs to carry an install out: where to
/// fetch the artifact, what to call it in the cache, the checksum it must
/// satisfy, and the name of the version's install directory.
#[derive(Debug)]
pub struct InstallPlan {
    pub url: String,
    pub filename: String,
    pub sha256: String,
    pub version_name: String,
}

/// The plan describes exactly the chosen catalog entry and artifact.
pub open spec fn plan_of(p: InstallPlan, v: Version, f: VersionFile) -> bool {
    &&& p.url@ == "https://go.dev/dl"@ + "/"@ + f.filename@
    &&& p.filename@ == f.filename@
    &&& p.sha256@ == f.sha256@
    &&& p.version_name@ == trim_prefix_spec(v.version@, "go"@)
}

/// Resolves a selector against the catalog: takes the first entry whose
/// identifier contains the selector, and within it the first artifact that
/// fits the platform. Fails with `VersionNotFound` exactly when no entry
/// matches, and with `NoArtifactForPlatform` exactly when the matching entry
/// ships nothing for this platform.
pub fn plan_install(versions: &Vec<Version>, selector: &str, os: &str, arch: &str) -> (r: Result<
    InstallPlan,
    EvmError,
>)
    ensures
        (r matches Err(e) && e == EvmError::VersionNotFound) <==> no_version_match(
            versions@,
            selector@,
        ),
        (r matches Err(e) && e == EvmError::NoArtifactForPlatform) <==> (exists|i: int|
            is_first_version_match(versions@, selector@, i) && no_file_match(
                versions@[i].files@,
                os@,
                arch@,
            )),
        r matches Ok(p) ==> exists|i: int, j: int|
            is_first_version_match(versions@, selector@, i) && is_first_file_match(
                versions@[i].files@,
                os@,
                arch@,
                j,
            ) && plan_of(p, versions@[i], versions@[i].files@[j]),
        r matches Err(e) ==> e == EvmError::VersionNotFound || e
            == EvmError::NoArtifactForPlatform,
{
    match find_version(versions, selector) {
        None => Err(EvmError::VersionNotFound),
        Some(i) => {
            match find_file(&versions[i].files, os, arch) {
                None => {
                    proof {
                        assert(is_first_version_match(versions@, selector@, i as int));
                        assert forall|k: int|
                            is_first_version_match(versions@, selector@, k) implies k
                            == i as int by {
                            if k < i as int {
                                assert(contains_seq(versions@[k].version@, selector@));
                            }
                            if k > i as int {
                                assert(contains_seq(versions@[i as int].version@, selector@));
                            }
                        }
                    }
                    Err(EvmError::NoArtifactForPlatform)
                },
                Some(j) => {
                    let f = &versions[i].files[j];
                    let mut url = String::from_str(download_base_url());
                    url.append("/");
                    url.append(f.filename.as_str());
                    let plan = InstallPlan {
                        url,
                        filename: f.filename.clone(),
                        sha256: f.sha256.clone(),
                        version_name: strip_tag_prefix(versions[i].version.as_str()),
                    };
                    Ok(plan)
                },
            }
        },
    }
}

} // verus!
