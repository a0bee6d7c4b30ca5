//! Archive-format dispatch: a downloaded artifact is unpacked according to
//! its filename extension, and a path without an extension is rejected.
use vstd::prelude::*;

use crate::errors::EvmError;
use crate::platform::str_eq;

verus! {

/// How an artifact is unpacked: entry-by-entry for a zip archive, by a single
/// whole-archive unpack call for a gzip-compressed tar.
#[derive(Debug, Clone, Copy, PartialEq, Eq, Structural)]
pub enum ArchiveFormat {
    Zip,
    TarGz,
}

/// The position of the last `.` in `s`, or `-1` when there is none.
pub open spec fn last_dot(s: Seq<char>) -> int
    decreases s.len(),
{
    if s.len() == 0 {
        -1
    } else if s.last() == '.' {
        s.len() - 1
    } else {
        last_dot(s.drop_last())
    }
}

/// The extension of a filename: the characters after its last `.`, if any.
pub open spec fn extension_of(s: Seq<char>) -> Option<Seq<char>> {
    if last_dot(s) >= 0 {
        Some(s.subrange(last_dot(s) + 1, s.len() as int))
    } else {
        None
    }
}

/// A `.` at position `i` with none after it is the last dot.
proof fn lemma_last_dot_at(s: Seq<char>, i: int)
    requires
        0 <= i < s.len(),
        s[i] == '.',
        forall|j: int| i < j < s.len() ==> s[j] != '.',
    ensures
        last_dot(s) == i,
    decreases s.len(),
{
    if i == s.len() - 1 {
    } else {
        assert(s.last() != '.');
        assert(s.drop_last()[i] == '.');
        lemma_last_dot_at(s.drop_last(), i);
    }
}

/// A sequence with no `.` has no last dot.
proof fn lemma_no_dot(s: Seq<char>)
    requires
        forall|j: int| 0 <= j < s.len() ==> s[j] != '.',
    ensures
        last_dot(s) == -1,
    decreases s.len(),
{
    if s.len() > 0 {
        lemma_no_dot(s.drop_last());
    }
}

/// Chooses how to unpack the artifact at the given filename: a `.zip`
/// extension is a zip archive, any other extension is a gzip-compressed tar,
/// and a filename without an extension cannot be dispatched.
pub fn archive_format(filename: &str) -> (r: Result<ArchiveFormat, EvmError>)
    ensures
        match r {
            Ok(f) => extension_of(filename@) matches Some(e) && (f == ArchiveFormat::Zip <==> e
                == "zip"@),
            Err(e) => e == EvmError::UnknownArchiveFormat && extension_of(filename@) is None,
        },
{
    let len = filename.unicode_len();
    let mut k = len;
    while k > 0
        invariant
            len == filename@.len(),
            0 <= k <= len,
            forall|j: int| k <= j < len ==> filename@[j] != '.',
        decreases k,
    {
        k = k - 1;
        if filename.get_char(k) == '.' {
            proof {
                lemma_last_dot_at(filename@, k as int);
            }
            let ext = filename.substring_char(k + 1, len);
            if str_eq(ext, "zip") {
                return Ok(ArchiveFormat::Zip);
            } else {
                return Ok(ArchiveFormat::TarGz);
            }
        }
    }
    proof {
        lemma_no_dot(filename@);
    }
    Err(EvmError::UnknownArchiveFormat)
}

/// A zip entry whose name ends in `/` stands for a directory, to be created
/// rather than written.
pub fn is_dir_entry(name: &str) -> (r: bool)
    ensures
        r == (name@.len() > 0 && name@.last() == '/'),
{
    let len = name.unicode_len();
    if len == 0 {
        return false;
    }
    name.get_char(len - 1) == '/'
}

} // verus!
