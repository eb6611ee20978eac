//! The manifest resolver: typed views of the two JSON documents the
//! synchronizer walks.
//!
//! A version manifest names the asset index, the libraries and the
//! client binary; the asset index names every asset object by content
//! hash. Both arrive as bytes (the caller fetches or reads them), and
//! each parse succeeds exactly when the named extraction of those bytes
//! does: the returned fields are pinned to the names, so the planners
//! downstream work on exactly what the document said.

use vstd::prelude::*;
use crate::json::index_hashes;
use crate::json::index_hashes_of;
use crate::json::manifest_core;
use crate::json::manifest_core_of;
use crate::json::manifest_libraries;
use crate::json::manifest_libraries_of;
use crate::sync::AssetEntry;
use crate::sync::LibraryEntry;
use crate::sync::SyncError;

verus! {

/// The fields of a version manifest the launcher consumes. Immutable
/// once parsed; every resource list is a pure projection of it.
#[derive(Debug)]
pub struct VersionManifest {
    /// Identifier of the asset index document.
    pub asset_index_id: String,
    /// Where the asset index document downloads from.
    pub asset_index_url: String,
    /// The asset-index identifier handed to the launched process.
    pub assets_label: String,
    /// The libraries the version needs, in manifest order.
    pub libraries: Vec<LibraryEntry>,
    /// Where the client binary downloads from.
    pub client_url: String,
}

/// Parse a version manifest document: succeeds exactly when the bytes
/// yield the manifest's scalar fields and its library list, and then
/// returns exactly those.
pub fn parse_manifest(bytes: &[u8]) -> (r: Result<VersionManifest, SyncError>)
    ensures
        (r is Ok) == (manifest_core_of(bytes@) is Some && manifest_libraries_of(bytes@) is Some),
        r matches Err(e) ==> e == SyncError::MalformedManifest,
        r matches Ok(m) ==> manifest_core_of(bytes@) matches Some(c) && {
            &&& m.asset_index_id@ == c.0
            &&& m.asset_index_url@ == c.1
            &&& m.assets_label@ == c.2
            &&& m.client_url@ == c.3
        },
        r matches Ok(m) ==> manifest_libraries_of(bytes@) matches Some(ls) && {
            &&& m.libraries@.len() == ls.len()
            &&& forall|i: int|
                0 <= i < ls.len() ==> (#[trigger] m.libraries@[i]).relative_path@ == ls[i].0
                    && m.libraries@[i].url@ == ls[i].1
        },
{
    let core = match manifest_core(bytes) {
        Some(c) => c,
        None => {
            return Err(SyncError::MalformedManifest);
        },
    };
    let libraries = match manifest_libraries(bytes) {
        Some(l) => l,
        None => {
            return Err(SyncError::MalformedManifest);
        },
    };
    Ok(
        VersionManifest {
            asset_index_id: core.0,
            asset_index_url: core.1,
            assets_label: core.2,
            libraries,
            client_url: core.3,
        },
    )
}

/// Parse an asset index document into its object entries: succeeds
/// exactly when the bytes yield the hash list and every hash is long
/// enough to derive a cache key from, and then returns one entry per
/// hash, in order.
pub fn parse_asset_index(bytes: &[u8]) -> (r: Result<Vec<AssetEntry>, SyncError>)
    ensures
        (r is Ok) == (index_hashes_of(bytes@) matches Some(hs) && forall|i: int|
            0 <= i < hs.len() ==> (#[trigger] hs[i]).len() >= 2),
        r matches Err(e) ==> e == SyncError::MalformedAssetIndex,
        r matches Ok(entries) ==> index_hashes_of(bytes@) matches Some(hs) && {
            &&& entries@.len() == hs.len()
            &&& forall|i: int|
                0 <= i < hs.len() ==> (#[trigger] entries@[i]).hash@ == hs[i]
                    && entries@[i].hash@.len() >= 2
        },
{
    let hashes = match index_hashes(bytes) {
        Some(h) => h,
        None => {
            return Err(SyncError::MalformedAssetIndex);
        },
    };
    let mut entries: Vec<AssetEntry> = Vec::new();
    let mut i: usize = 0;
    while i < hashes.len()
        invariant
            i <= hashes@.len(),
            entries@.len() == i,
            index_hashes_of(bytes@) matches Some(g) && hashes@.len() == g.len() && forall|j: int|
                0 <= j < g.len() ==> (#[trigger] hashes@[j])@ == g[j],
            forall|j: int|
                0 <= j < i ==> (#[trigger] entries@[j]).hash@ == hashes@[j]@
                    && entries@[j].hash@.len() >= 2,
        decreases hashes@.len() - i,
    {
        if hashes[i].as_str().unicode_len() < 2 {
            return Err(SyncError::MalformedAssetIndex);
        }
        entries.push(AssetEntry { hash: hashes[i].clone() });
        i = i + 1;
    }
    proof {
        let g = index_hashes_of(bytes@)->Some_0;
        assert forall|k: int| 0 <= k < g.len() implies (#[trigger] g[k]).len() >= 2 by {
            assert(entries@[k].hash@ == hashes@[k]@);
        }
    }
    Ok(entries)
}

} // verus!
