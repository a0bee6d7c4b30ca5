//! Platform matching: maps the running operating system and CPU architecture
//! to the tokens used in artifact filenames, and accepts an artifact exactly
//! when its filename contains the `"{os}-{arch}"` token pair.
use vstd::prelude::*;

use crate::text::{contains_at, contains_seq, lemma_contains_trans, str_contains};

verus! {

/// The supported operating systems, by their `std::env::consts::OS` names.
pub open spec fn supported_os(os: Seq<char>) -> bool {
    os == "windows"@ || os == "macos"@ || os == "linux"@
}

/// The supported CPU architectures, by their `std::env::consts::ARCH` names.
pub open spec fn supported_arch(arch: Seq<char>) -> bool {
    arch == "x86"@ || arch == "x86_64"@ || arch == "arm"@ || arch == "aarch64"@
}

/// The marketing name used for an operating system in artifact filenames;
/// an unsupported system degrades to the literal `unknown` token.
pub open spec fn os_token_spec(os: Seq<char>) -> Seq<char> {
    if os == "windows"@ {
        "windows"@
    } else if os == "macos"@ {
        "darwin"@
    } else if os == "linux"@ {
        "linux"@
    } else {
        "unknown"@
    }
}

/// The token used for a CPU architecture in artifact filenames;
/// an unsupported architecture degrades to the literal `unknown` token.
pub open spec fn arch_token_spec(arch: Seq<char>) -> Seq<char> {
    if arch == "x86"@ {
        "386"@
    } else if arch == "x86_64"@ {
        "amd64"@
    } else if arch == "arm"@ {
        "armv6l"@
    } else if arch == "aarch64"@ {
        "arm64"@
    } else {
        "unknown"@
    }
}

/// The substring an artifact filename must contain to match a platform.
pub open spec fn needle_spec(os: Seq<char>, arch: Seq<char>) -> Seq<char> {
    os_token_spec(os) + "-"@ + arch_token_spec(arch)
}

/// Equality of string slices, by their character sequences.
pub fn str_eq(a: &str, b: &str) -> (r: bool)
    ensures
        r == (a@ == b@),
{
    let a_len = a.unicode_len();
    let b_len = b.unicode_len();
    if a_len != b_len {
        return false;
    }
    let mut i: usize = 0;
    while i < a_len
        invariant
            a_len == a@.len(),
            b_len == b@.len(),
            a_len == b_len,
            0 <= i <= a_len,
            forall|k: int| 0 <= k < i ==> a@[k] == b@[k],
        decreases a_len - i,
    {
        if a.get_char(i) != b.get_char(i) {
            return false;
        }
        i = i + 1;
    }
    assert(a@ =~= b@);
    true
}

/// The filename token for the given operating system name.
pub fn os_token(os: &str) -> (r: &'static str)
    ensures
        r@ == os_token_spec(os@),
{
    if str_eq(os, "windows") {
        "windows"
    } else if str_eq(os, "macos") {
        "darwin"
    } else if str_eq(os, "linux") {
        "linux"
    } else {
        "unknown"
    }
}

/// The filename token for the given CPU architecture name.
pub fn arch_token(arch: &str) -> (r: &'static str)
    ensures
        r@ == arch_token_spec(arch@),
{
    if str_eq(arch, "x86") {
        "386"
    } else if str_eq(arch, "x86_64") {
        "amd64"
    } else if str_eq(arch, "arm") {
        "armv6l"
    } else if str_eq(arch, "aarch64") {
        "arm64"
    } else {
        "unknown"
    }
}

/// An artifact filename matches a platform exactly when it contains the
/// `"{os}-{arch}"` token pair for that platform.
pub fn match_version_filename(filename: &str, os: &str, arch: &str) -> (r: bool)
    ensures
        r == contains_seq(filename@, needle_spec(os@, arch@)),
{
    let mut needle = String::from_str(os_token(os));
    needle.append("-");
    needle.append(arch_token(arch));
    assert(needle@ == needle_spec(os@, arch@));
    str_contains(filename, needle.as_str())
}

/// The token pair of an unsupported platform contains the `unknown` token.
proof fn lemma_needle_has_unknown(os: Seq<char>, arch: Seq<char>)
    requires
        !supported_os(os) || !supported_arch(arch),
    ensures
        contains_seq(needle_spec(os, arch), "unknown"@),
{
    reveal_strlit("unknown");
    reveal_strlit("-");
    reveal_strlit("windows");
    reveal_strlit("darwin");
    reveal_strlit("linux");
    reveal_strlit("386");
    reveal_strlit("amd64");
    reveal_strlit("armv6l");
    reveal_strlit("arm64");
    let needle = needle_spec(os, arch);
    if !supported_os(os) {
        assert(needle.subrange(0, 7) =~= "unknown"@);
        assert(contains_at(needle, "unknown"@, 0));
    } else {
        let k: int = os_token_spec(os).len() as int + 1;
        assert(needle.subrange(k, k + 7) =~= "unknown"@);
        assert(contains_at(needle, "unknown"@, k));
    }
}

/// Law: on an unsupported operating system or architecture, no artifact
/// filename that does not itself contain the `unknown` token ever matches.
pub proof fn lemma_unsupported_never_matches(filename: Seq<char>, os: Seq<char>, arch: Seq<char>)
    requires
        !supported_os(os) || !supported_arch(arch),
        !contains_seq(filename, "unknown"@),
    ensures
        !contains_seq(filename, needle_spec(os, arch)),
{
    if contains_seq(filename, needle_spec(os, arch)) {
        lemma_needle_has_unknown(os, arch);
        lemma_contains_trans(filename, needle_spec(os, arch), "unknown"@);
    }
}

} // verus!
