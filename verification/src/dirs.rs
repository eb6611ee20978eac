//! Derivation of the launcher's directory layout.
//!
//! Every path the launcher touches hangs off a single root inside the
//! platform's per-user data directory. These functions are pure: they
//! take the data directory (or the launcher root) as a `/`-separated
//! string and return the derived path as a string; the caller resolves
//! the data directory and creates directories on disk.

use vstd::prelude::*;

verus! {

/// The launcher root inside the platform data directory.
pub open spec fn root_dir_spec(data_dir: Seq<char>) -> Seq<char> {
    data_dir + "/launcher"@
}

/// The shared asset cache (indexes and content-addressed objects).
pub open spec fn assets_dir_spec(root: Seq<char>) -> Seq<char> {
    root + "/assets"@
}

/// The shared library cache.
pub open spec fn libraries_dir_spec(root: Seq<char>) -> Seq<char> {
    root + "/libraries"@
}

/// The cache of fetched version manifests.
pub open spec fn meta_dir_spec(root: Seq<char>) -> Seq<char> {
    root + "/meta"@
}

/// The root under which each profile owns one directory.
pub open spec fn profiles_dir_spec(root: Seq<char>) -> Seq<char> {
    root + "/profiles"@
}

pub fn root_dir(data_dir: &str) -> (r: String)
    ensures
        r@ == root_dir_spec(data_dir@),
{
    data_dir.to_owned().concat("/launcher")
}

pub fn assets_dir(root: &str) -> (r: String)
    ensures
        r@ == assets_dir_spec(root@),
{
    root.to_owned().concat("/assets")
}

pub fn libraries_dir(root: &str) -> (r: String)
    ensures
        r@ == libraries_dir_spec(root@),
{
    root.to_owned().concat("/libraries")
}

pub fn meta_dir(root: &str) -> (r: String)
    ensures
        r@ == meta_dir_spec(root@),
{
    root.to_owned().concat("/meta")
}

pub fn profiles_dir(root: &str) -> (r: String)
    ensures
        r@ == profiles_dir_spec(root@),
{
    root.to_owned().concat("/profiles")
}

} // verus!
