//! A per-user toolchain version manager's verified core: it resolves a
//! version selector against a remote release catalog, picks the artifact for
//! the running platform, trusts downloaded or cached bytes only after their
//! SHA-256 digest matches the recorded checksum, dispatches unpacking on the
//! artifact's extension, and keeps the install tree consistent: one directory
//! per installed version and at most one active-version link. The surrounding
//! I/O — HTTP, the filesystem, archive unpacking — lives outside this crate
//! and carries out the decisions made here.
pub mod catalog;
pub mod checksum;
pub mod download;
pub mod errors;
pub mod extract;
pub mod operator;
pub mod paths;
pub mod platform;
pub mod store;
pub mod text;
