//! The on-disk layout under the user's home directory: the manager's home,
//! the per-toolchain versions root with its `current` link, and the download
//! cache. Paths are built as strings with `/` separators.
use vstd::prelude::*;

verus! {

/// `base` extended with one child component.
pub fn join_path(base: &str, name: &str) -> (r: String)
    ensures
        r@ == base@ + "/"@ + name@,
{
    let mut path = String::from_str(base);
    path.append("/");
    path.append(name);
    path
}

/// The manager's home directory under the user's home directory.
pub fn get_evm_home_dir(home: &str) -> (r: String)
    ensures
        r@ == home@ + "/.evm"@,
{
    let mut path = String::from_str(home);
    path.append("/.evm");
    path
}

/// The versions root of one toolchain: one subdirectory per installed version.
pub fn get_versions_dir(home: &str, toolchain: &str) -> (r: String)
    ensures
        r@ == home@ + "/.evm/versions/"@ + toolchain@,
{
    let mut path = String::from_str(home);
    path.append("/.evm/versions/");
    path.append(toolchain);
    path
}

/// The checksum-verified artifact cache directory.
pub fn get_evm_download_dir(home: &str) -> (r: String)
    ensures
        r@ == home@ + "/.evm/downloads"@,
{
    let mut path = String::from_str(home);
    path.append("/.evm/downloads");
    path
}

/// The reserved entry inside a versions root that redirects to the active
/// version.
pub fn current_link_path(versions_dir: &str) -> (r: String)
    ensures
        r@ == versions_dir@ + "/current"@,
{
    let mut path = String::from_str(versions_dir);
    path.append("/current");
    path
}

} // verus!
