use evm::catalog::{
    archive_entry, download_base_url, file_from_cells, merge_catalogs, parse_size_mb,
    render_remote_list, strip_tag_prefix, toolchain_tag, Version, VersionFile,
};
use evm::checksum::{content_matches_checksum, digest_matches};
use evm::download::{accept_download, cache_usable};
use evm::errors::{check_catalog_status, check_download_status, EvmError};
use evm::extract::{archive_format, is_dir_entry, ArchiveFormat};
use evm::paths::{
    current_link_path, get_evm_download_dir, get_evm_home_dir, get_versions_dir, join_path,
};
use evm::platform::{arch_token, match_version_filename, os_token, str_eq};
use evm::text::{parse_u64, str_contains, trim_prefix, trim_suffix};

const SHA256_ABC: &str = "ba7816bf8f01cfea414140de5dae2223b00361a396177a9cb410ff61f20015ad";
const SHA256_EMPTY: &str = "e3b0c44298fc1c149afbf4c8996fb92427ae41e4649b934ca495991b7852b855";

fn descriptor(filename: &str, version: &str, sha256: &str) -> VersionFile {
    VersionFile {
        filename: filename.to_string(),
        os: "linux".to_string(),
        arch: "amd64".to_string(),
        version: version.to_string(),
        sha256: sha256.to_string(),
        size: 0,
        kind: "archive".to_string(),
    }
}

#[test]
fn str_contains_finds_substrings() {
    assert!(str_contains("go1.22.0.linux-amd64.tar.gz", "linux-amd64"));
    assert!(str_contains("abc", ""));
    assert!(str_contains("abc", "abc"));
    assert!(!str_contains("abc", "abcd"));
    assert!(!str_contains("go1.22.0.linux-amd64.tar.gz", "windows"));
}

#[test]
fn str_eq_compares_by_characters() {
    assert!(str_eq("darwin", "darwin"));
    assert!(!str_eq("darwin", "darwi"));
    assert!(!str_eq("darwin", "linux"));
}

#[test]
fn trimming_strips_every_copy() {
    assert_eq!(trim_prefix("go1.22.0", "go"), "1.22.0");
    assert_eq!(trim_prefix("gogo1", "go"), "1");
    assert_eq!(trim_prefix("1.22.0", "go"), "1.22.0");
    assert_eq!(trim_suffix("135MB", "MB"), "135");
    assert_eq!(trim_suffix("1MBMB", "MB"), "1");
    assert_eq!(trim_suffix("135", "MB"), "135");
}

#[test]
fn parse_u64_accepts_exactly_digit_strings_that_fit() {
    assert_eq!(parse_u64("0"), Some(0));
    assert_eq!(parse_u64("123"), Some(123));
    assert_eq!(parse_u64("18446744073709551615"), Some(u64::MAX));
    assert_eq!(parse_u64("18446744073709551616"), None);
    assert_eq!(parse_u64(""), None);
    assert_eq!(parse_u64("12a"), None);
    assert_eq!(parse_u64("-5"), None);
}

#[test]
fn parse_size_mb_scales_to_bytes() {
    assert_eq!(parse_size_mb("135MB"), 135 * 1024 * 1024);
    assert_eq!(parse_size_mb("0MB"), 0);
    assert_eq!(parse_size_mb("135"), 135 * 1024 * 1024);
    assert_eq!(parse_size_mb("abcMB"), 0);
    assert_eq!(parse_size_mb("99999999999999999999MB"), 0);
}

#[test]
fn platform_tokens_follow_the_lookup_table() {
    assert_eq!(os_token("windows"), "windows");
    assert_eq!(os_token("macos"), "darwin");
    assert_eq!(os_token("linux"), "linux");
    assert_eq!(os_token("freebsd"), "unknown");
    assert_eq!(arch_token("x86"), "386");
    assert_eq!(arch_token("x86_64"), "amd64");
    assert_eq!(arch_token("arm"), "armv6l");
    assert_eq!(arch_token("aarch64"), "arm64");
    assert_eq!(arch_token("mips"), "unknown");
}

#[test]
fn platform_match_needs_the_token_pair() {
    assert!(match_version_filename(
        "go1.22.0.linux-amd64.tar.gz",
        "linux",
        "x86_64"
    ));
    assert!(match_version_filename(
        "go1.22.0.windows-386.zip",
        "windows",
        "x86"
    ));
    assert!(!match_version_filename(
        "go1.22.0.linux-amd64.tar.gz",
        "windows",
        "x86_64"
    ));
    assert!(!match_version_filename(
        "go1.22.0.linux-arm64.tar.gz",
        "linux",
        "x86_64"
    ));
}

#[test]
fn unsupported_platforms_match_nothing() {
    let filenames = [
        "go1.22.0.linux-amd64.tar.gz",
        "go1.22.0.windows-386.zip",
        "go1.22.0.darwin-arm64.tar.gz",
        "go1.22.0.src.tar.gz",
    ];
    for filename in filenames {
        assert!(!match_version_filename(filename, "plan9", "x86_64"));
        assert!(!match_version_filename(filename, "linux", "mips"));
        assert!(!match_version_filename(filename, "plan9", "mips"));
    }
}

#[test]
fn known_digests_match() {
    assert!(content_matches_checksum(&b"abc".to_vec(), SHA256_ABC));
    assert!(content_matches_checksum(&Vec::new(), SHA256_EMPTY));
    assert!(!content_matches_checksum(&b"abd".to_vec(), SHA256_ABC));
    assert!(!content_matches_checksum(&b"abc".to_vec(), SHA256_EMPTY));
}

#[test]
fn digests_encode_as_lowercase_hex() {
    assert!(digest_matches(&vec![0x00, 0xff, 0x1a], "00ff1a"));
    assert!(!digest_matches(&vec![0x00, 0xff, 0x1a], "00FF1A"));
    assert!(!digest_matches(&vec![0x00, 0xff], "00ff1a"));
}

#[test]
fn downloads_are_accepted_only_on_matching_digest() {
    assert_eq!(accept_download(&b"abc".to_vec(), SHA256_ABC), Ok(()));
    assert_eq!(
        accept_download(&b"tampered".to_vec(), SHA256_ABC),
        Err(EvmError::ChecksumMismatch)
    );
}

#[test]
fn cache_is_never_trusted_by_presence() {
    assert!(!cache_usable(&None, SHA256_ABC));
    assert!(!cache_usable(&Some(b"stale".to_vec()), SHA256_ABC));
    assert!(cache_usable(&Some(b"abc".to_vec()), SHA256_ABC));
}

#[test]
fn non_success_statuses_fail() {
    assert_eq!(check_catalog_status(200), Ok(()));
    assert_eq!(check_catalog_status(299), Ok(()));
    assert_eq!(
        check_catalog_status(404),
        Err(EvmError::CatalogUnavailable(404))
    );
    assert_eq!(check_download_status(204), Ok(()));
    assert_eq!(check_download_status(500), Err(EvmError::DownloadFailed(500)));
    assert_eq!(check_download_status(301), Err(EvmError::DownloadFailed(301)));
}

#[test]
fn archive_format_dispatches_on_extension() {
    assert_eq!(archive_format("go1.22.0.windows-amd64.zip"), Ok(ArchiveFormat::Zip));
    assert_eq!(archive_format("go1.22.0.linux-amd64.tar.gz"), Ok(ArchiveFormat::TarGz));
    assert_eq!(archive_format("go1.22.0.linux-amd64.msi"), Ok(ArchiveFormat::TarGz));
    assert_eq!(archive_format("noextension"), Err(EvmError::UnknownArchiveFormat));
}

#[test]
fn zip_directory_entries_end_with_a_slash() {
    assert!(is_dir_entry("go/bin/"));
    assert!(!is_dir_entry("go/bin/gofmt"));
    assert!(!is_dir_entry(""));
}

#[test]
fn paths_follow_the_local_layout() {
    assert_eq!(get_evm_home_dir("/home/u"), "/home/u/.evm");
    assert_eq!(get_versions_dir("/home/u", "go"), "/home/u/.evm/versions/go");
    assert_eq!(get_evm_download_dir("/home/u"), "/home/u/.evm/downloads");
    assert_eq!(
        current_link_path("/home/u/.evm/versions/go"),
        "/home/u/.evm/versions/go/current"
    );
    assert_eq!(join_path("/a/b", "c"), "/a/b/c");
}

#[test]
fn tag_and_base_url_are_fixed() {
    assert_eq!(toolchain_tag(), "go");
    assert_eq!(download_base_url(), "https://go.dev/dl");
    assert_eq!(strip_tag_prefix("go1.21.5"), "1.21.5");
}

#[test]
fn archive_rows_decode_in_column_order() {
    let cells: Vec<String> = vec![
        "go1.9.linux-amd64.tar.gz".to_string(),
        "Archive".to_string(),
        "Linux".to_string(),
        "x86-64".to_string(),
        "94MB".to_string(),
        "d70eadefce8e160638a9a6db97f7192d8463069ab33138893ad3bf31b0650a79".to_string(),
    ];
    let f = file_from_cells("go1.9", &cells).expect("six cells decode");
    assert_eq!(f.filename, "go1.9.linux-amd64.tar.gz");
    assert_eq!(f.kind, "Archive");
    assert_eq!(f.os, "Linux");
    assert_eq!(f.arch, "x86-64");
    assert_eq!(f.version, "go1.9");
    assert_eq!(f.size, 94 * 1024 * 1024);
    assert_eq!(
        f.sha256,
        "d70eadefce8e160638a9a6db97f7192d8463069ab33138893ad3bf31b0650a79"
    );

    let short: Vec<String> = cells[..5].to_vec();
    assert!(file_from_cells("go1.9", &short).is_none());
}

#[test]
fn archive_sections_decode_or_fail_whole() {
    let row = vec![
        "go1.9.linux-amd64.tar.gz".to_string(),
        "Archive".to_string(),
        "Linux".to_string(),
        "x86-64".to_string(),
        "94MB".to_string(),
        "d70e".to_string(),
    ];
    let entry = archive_entry("go1.9", &vec![row.clone(), row.clone()]).expect("rows decode");
    assert_eq!(entry.version, "go1.9");
    assert!(!entry.stable);
    assert_eq!(entry.files.len(), 2);
    assert_eq!(entry.files[1].filename, "go1.9.linux-amd64.tar.gz");

    let bad = vec![row, vec!["onlyone".to_string()]];
    assert_eq!(
        archive_entry("go1.9", &bad).unwrap_err(),
        EvmError::CatalogParseError
    );
}

#[test]
fn remote_listing_strips_the_tag_and_keeps_order() {
    let latest = vec![Version {
        version: "go1.22.0".to_string(),
        stable: true,
        files: vec![],
    }];
    let archive = vec![Version {
        version: "go1.9".to_string(),
        stable: false,
        files: vec![descriptor("go1.9.linux-amd64.tar.gz", "go1.9", "d70e")],
    }];
    let merged = merge_catalogs(latest, archive);
    assert_eq!(merged.len(), 2);
    let lines = render_remote_list(&merged);
    assert_eq!(lines, vec!["1.22.0".to_string(), "1.9".to_string()]);
}
