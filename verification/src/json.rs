//! Trusted boundary to serde_json.
//!
//! The launcher's documents (version manifests, asset indexes, profile
//! descriptors) are JSON; parsing them is serde_json's work. What each
//! document yields is a function of its bytes alone — serde_json parses
//! deterministically, and object members are iterated in key order (its
//! maps are ordered) — so each extraction's result is given a name, one
//! wrapper applies it, and the callers' contracts are exact over the
//! name: a document succeeds exactly when its named parse does.

use vstd::prelude::*;
use crate::sync::LibraryEntry;

verus! {

/// The scalar fields a version manifest yields, if the bytes are JSON
/// and the members are there: the asset index's id and URL, the
/// asset-index identifier for the launched process, and the client
/// binary's URL, in that order.
pub uninterp spec fn manifest_core_of(bytes: Seq<u8>) -> Option<
    (Seq<char>, Seq<char>, Seq<char>, Seq<char>),
>;

/// The (relative path, URL) of each library a version manifest yields,
/// in manifest order, if the bytes are JSON and every entry carries an
/// artifact with both strings.
pub uninterp spec fn manifest_libraries_of(bytes: Seq<u8>) -> Option<Seq<(Seq<char>, Seq<char>)>>;

/// The content hash of each entry an asset index yields, in key order
/// of its objects member, if the bytes are JSON and every entry carries
/// a hash string.
pub uninterp spec fn index_hashes_of(bytes: Seq<u8>) -> Option<Seq<Seq<char>>>;

/// The (name, slug, type) strings a profile descriptor yields, if the
/// bytes are JSON and all three members are strings.
pub uninterp spec fn descriptor_fields_of(bytes: Seq<u8>) -> Option<
    (Seq<char>, Seq<char>, Seq<char>),
>;

/// Relies on serde_json::from_slice, Value::get and Value::as_str: the
/// manifest's scalar fields. The result depends on the bytes alone.
#[verifier::external_body]
pub(crate) fn manifest_core(bytes: &[u8]) -> (r: Option<(String, String, String, String)>)
    ensures
        (r is Some) == (manifest_core_of(bytes@) is Some),
        r matches Some(f) ==> manifest_core_of(bytes@) matches Some(g) && f.0@ == g.0 && f.1@
            == g.1 && f.2@ == g.2 && f.3@ == g.3,
{
    let v: serde_json::Value = serde_json::from_slice(bytes).ok()?;
    let asset_index = v.get("assetIndex")?;
    Some((
        asset_index.get("id")?.as_str()?.to_owned(),
        asset_index.get("url")?.as_str()?.to_owned(),
        v.get("assets")?.as_str()?.to_owned(),
        v.get("downloads")?.get("client")?.get("url")?.as_str()?.to_owned(),
    ))
}

/// Relies on serde_json::from_slice, Value::get, Value::as_array and
/// Value::as_str: each library's artifact path and URL, in manifest
/// order, each moved out as a plain pair. The result depends on the
/// bytes alone.
#[verifier::external_body]
pub(crate) fn manifest_libraries(bytes: &[u8]) -> (r: Option<Vec<LibraryEntry>>)
    ensures
        (r is Some) == (manifest_libraries_of(bytes@) is Some),
        r matches Some(libs) ==> manifest_libraries_of(bytes@) matches Some(g) && libs@.len()
            == g.len() && forall|i: int|
            0 <= i < g.len() ==> (#[trigger] libs@[i]).relative_path@ == g[i].0 && libs@[i].url@
                == g[i].1,
{
    let v: serde_json::Value = serde_json::from_slice(bytes).ok()?;
    v.get("libraries")?.as_array()?.iter().map(|lib| {
        let artifact = lib.get("downloads")?.get("artifact")?;
        Some(LibraryEntry {
            relative_path: artifact.get("path")?.as_str()?.to_owned(),
            url: artifact.get("url")?.as_str()?.to_owned(),
        })
    }).collect()
}

/// Relies on serde_json::from_slice, Value::get, Value::as_object,
/// Map::values and Value::as_str: each object entry's hash, in key
/// order (serde_json's maps are ordered), each moved out as a plain
/// string. The result depends on the bytes alone.
#[verifier::external_body]
pub(crate) fn index_hashes(bytes: &[u8]) -> (r: Option<Vec<String>>)
    ensures
        (r is Some) == (index_hashes_of(bytes@) is Some),
        r matches Some(hashes) ==> index_hashes_of(bytes@) matches Some(g) && hashes@.len()
            == g.len() && forall|i: int| 0 <= i < g.len() ==> (#[trigger] hashes@[i])@ == g[i],
{
    let v: serde_json::Value = serde_json::from_slice(bytes).ok()?;
    v.get("objects")?
        .as_object()?
        .values()
        .map(|entry| Some(entry.get("hash")?.as_str()?.to_owned()))
        .collect()
}

/// Relies on serde_json::from_slice, Value::get and Value::as_str: the
/// descriptor's name, slug and type strings. The result depends on the
/// bytes alone.
#[verifier::external_body]
pub(crate) fn descriptor_fields(bytes: &[u8]) -> (r: Option<(String, String, String)>)
    ensures
        (r is Some) == (descriptor_fields_of(bytes@) is Some),
        r matches Some(f) ==> descriptor_fields_of(bytes@) matches Some(g) && f.0@ == g.0 && f.1@
            == g.1 && f.2@ == g.2,
{
    let v: serde_json::Value = serde_json::from_slice(bytes).ok()?;
    Some((
        v.get("name")?.as_str()?.to_owned(),
        v.get("slug")?.as_str()?.to_owned(),
        v.get("type")?.as_str()?.to_owned(),
    ))
}

} // verus!
