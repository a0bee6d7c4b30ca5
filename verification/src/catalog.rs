//! The in-memory catalog of remote releases: one entry per release, one
//! artifact descriptor per OS/arch/kind combination, and the decoding of
//! archive-listing table rows into descriptors.
use vstd::prelude::*;

use crate::errors::EvmError;
use crate::text::{all_digits, digits_val, trim_prefix, trim_prefix_spec, trim_suffix,
    trim_suffix_spec, parse_u64};

verus! {

/// One downloadable artifact of one release: a single OS/arch/kind
/// combination, with its recorded hex SHA-256 checksum and size in bytes.
#[derive(Debug)]
pub struct VersionFile {
    pub filename: String,
    pub os: String,
    pub arch: String,
    pub version: String,
    pub sha256: String,
    pub size: u64,
    pub kind: String,
}

/// One release of the toolchain: its identifier, stability flag, and the
/// artifacts it ships.
#[derive(Debug)]
pub struct Version {
    pub version: String,
    pub stable: bool,
    pub files: Vec<VersionFile>,
}

/// The name prefixed to every release identifier in the catalog.
pub fn toolchain_tag() -> (r: &'static str)
    ensures
        r@ == "go"@,
{
    "go"
}

/// The base URL of the remote catalog and of every artifact download.
pub fn download_base_url() -> (r: &'static str)
    ensures
        r@ == "https://go.dev/dl"@,
{
    "https://go.dev/dl"
}

/// A release identifier with the toolchain-name prefix stripped: the name of
/// its install directory and the form shown to the user.
pub fn strip_tag_prefix(id: &str) -> (r: String)
    ensures
        r@ == trim_prefix_spec(id@, "go"@),
{
    trim_prefix(id, toolchain_tag())
}

/// The size in bytes read from an archive-listing size cell: the digits left
/// after stripping the trailing `MB` unit, scaled to bytes; `0` when the cell
/// does not parse or the product does not fit.
pub open spec fn size_from_cell(s: Seq<char>) -> nat {
    let t = trim_suffix_spec(s, "MB"@);
    if t.len() > 0 && all_digits(t) && digits_val(t) <= u64::MAX && digits_val(t) * 1048576
        <= u64::MAX {
        digits_val(t) * 1048576
    } else {
        0
    }
}

/// Reads an archive-listing size cell such as `135MB` into bytes.
pub fn parse_size_mb(s: &str) -> (r: u64)
    ensures
        r == size_from_cell(s@),
{
    let trimmed = trim_suffix(s, "MB");
    match parse_u64(trimmed.as_str()) {
        Some(v) => {
            if v <= 17592186044415 {
                assert(v * 1048576 <= u64::MAX) by (nonlinear_arith)
                    requires v <= 17592186044415;
                v * 1048576
            } else {
                assert(digits_val(trimmed@) * 1048576 > u64::MAX) by (nonlinear_arith)
                    requires digits_val(trimmed@) > 17592186044415;
                0
            }
        },
        None => 0,
    }
}

/// An artifact descriptor carries exactly the fields of one archive-listing
/// table row, in its column order, under the given release identifier.
pub open spec fn file_matches_cells(f: VersionFile, id: Seq<char>, cells: Seq<String>) -> bool {
    &&& f.filename@ == cells[0]@
    &&& f.kind@ == cells[1]@
    &&& f.os@ == cells[2]@
    &&& f.arch@ == cells[3]@
    &&& f.size == size_from_cell(cells[4]@)
    &&& f.sha256@ == cells[5]@
    &&& f.version@ == id
}

/// Decodes one archive-listing table row (column order: filename, kind, os,
/// arch, size, checksum) into an artifact descriptor of the release `id`;
/// a row with fewer than six cells cannot be decoded.
pub fn file_from_cells(id: &str, cells: &Vec<String>) -> (r: Option<VersionFile>)
    ensures
        match r {
            Some(f) => cells@.len() >= 6 && file_matches_cells(f, id@, cells@),
            None => cells@.len() < 6,
        },
{
    if cells.len() < 6 {
        return None;
    }
    let size = parse_size_mb(cells[4].as_str());
    Some(
        VersionFile {
            filename: cells[0].clone(),
            kind: cells[1].clone(),
            os: cells[2].clone(),
            arch: cells[3].clone(),
            version: String::from_str(id),
            size,
            sha256: cells[5].clone(),
        },
    )
}

/// Decodes one archive-listing toggle section — its `id` attribute and its
/// table rows — into a catalog entry; archived releases are never stable.
/// Any row too short to decode makes the whole payload malformed.
pub fn archive_entry(id: &str, rows: &Vec<Vec<String>>) -> (r: Result<Version, EvmError>)
    ensures
        match r {
            Ok(v) => {
                &&& forall|i: int| 0 <= i < rows@.len() ==> rows@[i]@.len() >= 6
                &&& v.version@ == id@
                &&& v.stable == false
                &&& v.files@.len() == rows@.len()
                &&& forall|i: int|
                    0 <= i < rows@.len() ==> file_matches_cells(v.files@[i], id@, rows@[i]@)
            },
            Err(e) => e == EvmError::CatalogParseError && exists|i: int|
                0 <= i < rows@.len() && rows@[i]@.len() < 6,
        },
{
    let mut files: Vec<VersionFile> = Vec::new();
    let mut i: usize = 0;
    while i < rows.len()
        invariant
            0 <= i <= rows@.len(),
            files@.len() == i,
            forall|k: int| 0 <= k < i ==> rows@[k]@.len() >= 6,
            forall|k: int| 0 <= k < i ==> file_matches_cells(files@[k], id@, rows@[k]@),
        decreases rows@.len() - i,
    {
        match file_from_cells(id, &rows[i]) {
            Some(f) => files.push(f),
            None => {
                return Err(EvmError::CatalogParseError);
            },
        }
        i = i + 1;
    }
    Ok(Version { version: String::from_str(id), stable: false, files })
}

/// Joins the latest catalog with the archive catalog, latest entries first.
pub fn merge_catalogs(latest: Vec<Version>, archive: Vec<Version>) -> (r: Vec<Version>)
    ensures
        r@ == latest@ + archive@,
{
    let mut merged = latest;
    let mut rest = archive;
    merged.append(&mut rest);
    merged
}

/// The lines shown for a remote listing: each entry's identifier with the
/// toolchain-name prefix stripped, in catalog order.
pub fn render_remote_list(versions: &Vec<Version>) -> (r: Vec<String>)
    ensures
        r@.len() == versions@.len(),
        forall|i: int|
            0 <= i < versions@.len() ==> r@[i]@ == trim_prefix_spec(versions@[i].version@, "go"@),
{
    let mut lines: Vec<String> = Vec::new();
    let mut i: usize = 0;
    while i < versions.len()
        invariant
            0 <= i <= versions@.len(),
            lines@.len() == i,
            forall|k: int|
                0 <= k < i ==> lines@[k]@ == trim_prefix_spec(versions@[k].version@, "go"@),
        decreases versions@.len() - i,
    {
        lines.push(strip_tag_prefix(versions[i].version.as_str()));
        i = i + 1;
    }
    lines
}

} // verus!
