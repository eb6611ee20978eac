//! The artifact synchronizer: planning which downloads a version manifest
//! still requires, and bounding how many run at once.
//!
//! The cache is content-addressed and self-describing: presence of a file
//! at an entry's derived path is the sole existence signal. The caller
//! observes presence on disk and hands it in; each planning function
//! returns exactly the downloads for the entries that are absent, so a
//! cache that already agrees with the manifest yields an empty plan and
//! a re-run performs no network call.

use vstd::prelude::*;

verus! {

/// One asset object referenced by an asset index: its content hash,
/// which is also its cache key.
#[derive(Debug)]
pub struct AssetEntry {
    pub hash: String,
}

/// One library referenced by a manifest: where it downloads from and
/// its path relative to the library cache root.
#[derive(Debug)]
pub struct LibraryEntry {
    pub relative_path: String,
    pub url: String,
}

/// A pending download: fetch `url`, commit the bytes at `dest`.
#[derive(Debug)]
pub struct RemoteResource {
    pub url: String,
    pub dest: String,
}

/// Failures of the synchronizer's own phases.
#[derive(Clone, Copy, Debug, PartialEq, Eq, Structural)]
pub enum SyncError {
    /// A later phase needs the version manifest but it is not cached.
    MissingManifest,
    /// The manifest document lacks an expected field or is not JSON.
    MalformedManifest,
    /// The asset index lacks an expected field, is not JSON, or holds a
    /// hash too short to derive a cache key from.
    MalformedAssetIndex,
}

// ---------------------------------------------------------------------
// Cache-key derivation.
// ---------------------------------------------------------------------

/// The subdirectory an object hash lands in: its first two characters.
pub open spec fn object_subdir_spec(hash: Seq<char>) -> Seq<char> {
    hash.subrange(0, 2)
}

/// Path of an object inside the asset cache: `objects/hh/hash`.
pub open spec fn object_rel_path_spec(hash: Seq<char>) -> Seq<char> {
    "objects/"@ + hash.subrange(0, 2) + "/"@ + hash
}

/// Download URL of an object: `base/hh/hash`.
pub open spec fn object_url_spec(base: Seq<char>, hash: Seq<char>) -> Seq<char> {
    base + "/"@ + hash.subrange(0, 2) + "/"@ + hash
}

/// Path of a cached library under the library cache root.
pub open spec fn library_path_spec(root: Seq<char>, relative_path: Seq<char>) -> Seq<char> {
    root + "/"@ + relative_path
}

/// Path of the cached copy of an asset index under the asset cache root.
pub open spec fn index_path_spec(assets_root: Seq<char>, id: Seq<char>) -> Seq<char> {
    assets_root + "/indexes/"@ + id + ".json"@
}

/// Path of a cached version manifest under the manifest cache root.
pub open spec fn manifest_path_spec(meta_root: Seq<char>, label: Seq<char>) -> Seq<char> {
    meta_root + "/"@ + label + ".json"@
}

/// Path of a profile's client binary inside its private runtime directory.
pub open spec fn client_path_spec(profile_path: Seq<char>) -> Seq<char> {
    profile_path + "/.minecraft/client.jar"@
}

pub fn object_rel_path(hash: &str) -> (r: String)
    requires
        hash@.len() >= 2,
    ensures
        r@ == object_rel_path_spec(hash@),
{
    let prefix = hash.substring_char(0, 2);
    let r = "objects/".to_owned().concat(prefix).concat("/").concat(hash);
    proof {
        assert(r@ =~= object_rel_path_spec(hash@));
    }
    r
}

pub fn object_url(base: &str, hash: &str) -> (r: String)
    requires
        hash@.len() >= 2,
    ensures
        r@ == object_url_spec(base@, hash@),
{
    let prefix = hash.substring_char(0, 2);
    let r = base.to_owned().concat("/").concat(prefix).concat("/").concat(hash);
    proof {
        assert(r@ =~= object_url_spec(base@, hash@));
    }
    r
}

pub fn library_cache_path(root: &str, relative_path: &str) -> (r: String)
    ensures
        r@ == library_path_spec(root@, relative_path@),
{
    let r = root.to_owned().concat("/").concat(relative_path);
    proof {
        assert(r@ =~= library_path_spec(root@, relative_path@));
    }
    r
}

pub fn index_cache_path(assets_root: &str, id: &str) -> (r: String)
    ensures
        r@ == index_path_spec(assets_root@, id@),
{
    let r = assets_root.to_owned().concat("/indexes/").concat(id).concat(".json");
    proof {
        assert(r@ =~= index_path_spec(assets_root@, id@));
    }
    r
}

pub fn manifest_cache_path(meta_root: &str, label: &str) -> (r: String)
    ensures
        r@ == manifest_path_spec(meta_root@, label@),
{
    let r = meta_root.to_owned().concat("/").concat(label).concat(".json");
    proof {
        assert(r@ =~= manifest_path_spec(meta_root@, label@));
    }
    r
}

pub fn client_cache_path(profile_path: &str) -> (r: String)
    ensures
        r@ == client_path_spec(profile_path@),
{
    let r = profile_path.to_owned().concat("/.minecraft/client.jar");
    proof {
        assert(r@ =~= client_path_spec(profile_path@));
    }
    r
}

/// Two distinct hashes never collide in the cache, even when they share
/// a two-character prefix — in which case they land in the same
/// subdirectory under distinct names.
pub proof fn lemma_object_paths_distinct(h1: Seq<char>, h2: Seq<char>)
    requires
        h1.len() >= 2,
        h2.len() >= 2,
        h1 != h2,
    ensures
        object_rel_path_spec(h1) != object_rel_path_spec(h2),
        h1.subrange(0, 2) == h2.subrange(0, 2) ==> object_subdir_spec(h1) == object_subdir_spec(h2),
{
    reveal_strlit("objects/");
    reveal_strlit("/");
    let p1 = object_rel_path_spec(h1);
    let p2 = object_rel_path_spec(h2);
    assert(p1.len() == 11 + h1.len());
    assert(p2.len() == 11 + h2.len());
    if h1.len() == h2.len() {
        if p1 == p2 {
            assert forall|k: int| 0 <= k < h1.len() implies h1[k] == h2[k] by {
                assert(p1[11 + k] == h1[k]);
                assert(p2[11 + k] == h2[k]);
            }
            assert(h1 =~= h2);
        }
    }
}

// ---------------------------------------------------------------------
// Phase plans.
// ---------------------------------------------------------------------

/// Whether the object phase will fetch entry `i` of the asset index,
/// given which entries the cache already holds.
pub open spec fn object_planned(present: Seq<bool>, i: int) -> bool {
    !present[i]
}

/// The downloads the object phase performs, as (url, destination) pairs,
/// in asset-index order: one per entry the cache does not yet hold.
pub open spec fn plan_objects_spec(
    entries: Seq<AssetEntry>,
    present: Seq<bool>,
    base: Seq<char>,
) -> Seq<(Seq<char>, Seq<char>)>
    decreases entries.len(),
{
    if entries.len() == 0 {
        Seq::empty()
    } else {
        let prefix = plan_objects_spec(entries.drop_last(), present.drop_last(), base);
        let last = entries.last().hash@;
        if present[entries.len() - 1] {
            prefix
        } else {
            prefix.push((object_url_spec(base, last), object_rel_path_spec(last)))
        }
    }
}

/// The downloads the library phase performs, in manifest order: one per
/// library whose cache path does not yet hold a file.
pub open spec fn plan_libraries_spec(
    libraries: Seq<LibraryEntry>,
    present: Seq<bool>,
    root: Seq<char>,
) -> Seq<(Seq<char>, Seq<char>)>
    decreases libraries.len(),
{
    if libraries.len() == 0 {
        Seq::empty()
    } else {
        let prefix = plan_libraries_spec(libraries.drop_last(), present.drop_last(), root);
        let last = libraries.last();
        if present[libraries.len() - 1] {
            prefix
        } else {
            prefix.push((last.url@, library_path_spec(root, last.relative_path@)))
        }
    }
}

/// A vector of pending downloads realizes a planned (url, dest) list.
pub open spec fn matches_plan(r: Seq<RemoteResource>, plan: Seq<(Seq<char>, Seq<char>)>) -> bool {
    &&& r.len() == plan.len()
    &&& forall|i: int|
        0 <= i < r.len() ==> ((#[trigger] r[i]).url@ == plan[i].0 && r[i].dest@ == plan[i].1)
}

/// Object phase planning: for every asset-index entry the cache does not
/// hold, a download from `base/hh/hash` to `objects/hh/hash`; entries
/// already present are skipped.
pub fn plan_objects(entries: &Vec<AssetEntry>, present: &Vec<bool>, base: &str) -> (r: Vec<
    RemoteResource,
>)
    requires
        present@.len() == entries@.len(),
        forall|i: int| 0 <= i < entries@.len() ==> (#[trigger] entries@[i]).hash@.len() >= 2,
    ensures
        matches_plan(r@, plan_objects_spec(entries@, present@, base@)),
{
    let mut out: Vec<RemoteResource> = Vec::new();
    let mut i: usize = 0;
    while i < entries.len()
        invariant
            i <= entries@.len(),
            present@.len() == entries@.len(),
            forall|j: int| 0 <= j < entries@.len() ==> (#[trigger] entries@[j]).hash@.len() >= 2,
            matches_plan(
                out@,
                plan_objects_spec(entries@.take(i as int), present@.take(i as int), base@),
            ),
        decreases entries@.len() - i,
    {
        proof {
            assert(entries@.take(i + 1).drop_last() =~= entries@.take(i as int));
            assert(present@.take(i + 1).drop_last() =~= present@.take(i as int));
            assert(entries@.take(i + 1).last() == entries@[i as int]);
        }
        if !present[i] {
            let url = object_url(base, entries[i].hash.as_str());
            let dest = object_rel_path(entries[i].hash.as_str());
            out.push(RemoteResource { url, dest });
        }
        i = i + 1;
    }
    proof {
        assert(entries@.take(entries@.len() as int) =~= entries@);
        assert(present@.take(entries@.len() as int) =~= present@);
    }
    out
}

/// Library phase planning: for every library entry the cache does not
/// hold, a download from the entry's own URL to its path under the
/// library cache root; entries already present are skipped.
pub fn plan_libraries(libraries: &Vec<LibraryEntry>, present: &Vec<bool>, root: &str) -> (r: Vec<
    RemoteResource,
>)
    requires
        present@.len() == libraries@.len(),
    ensures
        matches_plan(r@, plan_libraries_spec(libraries@, present@, root@)),
{
    let mut out: Vec<RemoteResource> = Vec::new();
    let mut i: usize = 0;
    while i < libraries.len()
        invariant
            i <= libraries@.len(),
            present@.len() == libraries@.len(),
            matches_plan(
                out@,
                plan_libraries_spec(libraries@.take(i as int), present@.take(i as int), root@),
            ),
        decreases libraries@.len() - i,
    {
        proof {
            assert(libraries@.take(i + 1).drop_last() =~= libraries@.take(i as int));
            assert(present@.take(i + 1).drop_last() =~= present@.take(i as int));
            assert(libraries@.take(i + 1).last() == libraries@[i as int]);
        }
        if !present[i] {
            let url = libraries[i].url.clone();
            let dest = library_cache_path(root, libraries[i].relative_path.as_str());
            out.push(RemoteResource { url, dest });
        }
        i = i + 1;
    }
    proof {
        assert(libraries@.take(libraries@.len() as int) =~= libraries@);
        assert(present@.take(libraries@.len() as int) =~= present@);
    }
    out
}

/// Whether the manifest phase must go to the network at all.
pub open spec fn manifest_fetch_needed(cached: bool) -> bool {
    !cached
}

/// Manifest phase planning: nothing when the manifest for this label is
/// already cached, else one download to `meta_root/label.json`.
pub fn plan_manifest(cached: bool, url: &str, meta_root: &str, label: &str) -> (r: Option<
    RemoteResource,
>)
    ensures
        (r is Some) == manifest_fetch_needed(cached),
        r matches Some(task) ==> task.url@ == url@ && task.dest@ == manifest_path_spec(
            meta_root@,
            label@,
        ),
{
    if cached {
        None
    } else {
        Some(RemoteResource { url: url.to_owned(), dest: manifest_cache_path(meta_root, label) })
    }
}

/// Asset-index phase planning: nothing when the index is already cached,
/// else one download to `assets_root/indexes/id.json`.
pub fn plan_asset_index(cached: bool, url: &str, assets_root: &str, id: &str) -> (r: Option<
    RemoteResource,
>)
    ensures
        (r is Some) == !cached,
        r matches Some(task) ==> task.url@ == url@ && task.dest@ == index_path_spec(
            assets_root@,
            id@,
        ),
{
    if cached {
        None
    } else {
        Some(RemoteResource { url: url.to_owned(), dest: index_cache_path(assets_root, id) })
    }
}

/// Client phase planning: nothing when the profile's client binary is
/// already present, else one download into the profile's runtime
/// directory.
pub fn plan_client(present: bool, url: &str, profile_path: &str) -> (r: Option<RemoteResource>)
    ensures
        (r is Some) == !present,
        r matches Some(task) ==> task.url@ == url@ && task.dest@ == client_path_spec(
            profile_path@,
        ),
{
    if present {
        None
    } else {
        Some(RemoteResource { url: url.to_owned(), dest: client_cache_path(profile_path) })
    }
}

// ---------------------------------------------------------------------
// Idempotence of the phase plans.
// ---------------------------------------------------------------------

/// The object plan covers exactly the absent entries: whatever the cache
/// lacks is planned, and nothing present is planned.
pub proof fn lemma_plan_objects_covers(entries: Seq<AssetEntry>, present: Seq<bool>, base: Seq<char>)
    requires
        present.len() == entries.len(),
    ensures
        forall|i: int|
            0 <= i < entries.len() && object_planned(present, i)
                ==> plan_objects_spec(entries, present, base).contains(
                (object_url_spec(base, (#[trigger] entries[i]).hash@), object_rel_path_spec(entries[i].hash@)),
            ),
    decreases entries.len(),
{
    if entries.len() > 0 {
        lemma_plan_objects_covers(entries.drop_last(), present.drop_last(), base);
        let prefix = plan_objects_spec(entries.drop_last(), present.drop_last(), base);
        let n = entries.len() - 1;
        assert forall|i: int|
            0 <= i < entries.len() && object_planned(present, i)
                implies plan_objects_spec(entries, present, base).contains(
                (object_url_spec(base, (#[trigger] entries[i]).hash@), object_rel_path_spec(entries[i].hash@)),
            ) by {
            let task = (object_url_spec(base, entries[i].hash@), object_rel_path_spec(entries[i].hash@));
            if i < n {
                assert(entries.drop_last()[i] == entries[i]);
                assert(object_planned(present.drop_last(), i));
                assert(prefix.contains(task));
                let j = choose|j: int| 0 <= j < prefix.len() && prefix[j] == task;
                assert(plan_objects_spec(entries, present, base)[j] == task);
            } else {
                let full = plan_objects_spec(entries, present, base);
                assert(full[full.len() - 1] == task);
            }
        }
    }
}

/// A cache that already holds every asset object yields an empty object
/// plan: nothing is fetched.
pub proof fn lemma_plan_objects_empty(entries: Seq<AssetEntry>, present: Seq<bool>, base: Seq<char>)
    requires
        present.len() == entries.len(),
        forall|i: int| 0 <= i < present.len() ==> #[trigger] present[i],
    ensures
        plan_objects_spec(entries, present, base).len() == 0,
    decreases entries.len(),
{
    if entries.len() > 0 {
        lemma_plan_objects_empty(entries.drop_last(), present.drop_last(), base);
    }
}

/// Idempotence of the object phase: a second run against a cache into
/// which the first run committed everything it planned (and which kept
/// what it already had) plans nothing, so it performs no network call.
pub proof fn lemma_objects_second_run_empty(
    entries: Seq<AssetEntry>,
    first: Seq<bool>,
    second: Seq<bool>,
    base: Seq<char>,
)
    requires
        first.len() == entries.len(),
        second.len() == entries.len(),
        forall|i: int|
            0 <= i < entries.len() ==> #[trigger] second[i] == (first[i] || object_planned(
                first,
                i,
            )),
    ensures
        plan_objects_spec(entries, second, base).len() == 0,
{
    lemma_plan_objects_empty(entries, second, base);
}

/// A cache that already holds every library yields an empty library plan.
pub proof fn lemma_plan_libraries_empty(
    libraries: Seq<LibraryEntry>,
    present: Seq<bool>,
    root: Seq<char>,
)
    requires
        present.len() == libraries.len(),
        forall|i: int| 0 <= i < present.len() ==> #[trigger] present[i],
    ensures
        plan_libraries_spec(libraries, present, root).len() == 0,
    decreases libraries.len(),
{
    if libraries.len() > 0 {
        lemma_plan_libraries_empty(libraries.drop_last(), present.drop_last(), root);
    }
}

/// Idempotence of the library phase, stated as for the object phase.
pub proof fn lemma_libraries_second_run_empty(
    libraries: Seq<LibraryEntry>,
    first: Seq<bool>,
    second: Seq<bool>,
    root: Seq<char>,
)
    requires
        first.len() == libraries.len(),
        second.len() == libraries.len(),
        forall|i: int| 0 <= i < libraries.len() ==> #[trigger] second[i] == (first[i] || !first[i]),
    ensures
        plan_libraries_spec(libraries, second, root).len() == 0,
{
    lemma_plan_libraries_empty(libraries, second, root);
}

/// Once a manifest (or asset index, or client binary) is cached, no later
/// run fetches it again: the single-download phases plan nothing for a
/// cached target, so each such document is fetched at most once for as
/// long as its cache file survives.
pub proof fn lemma_manifest_fetched_once()
    ensures
        forall|cached: bool| cached ==> !manifest_fetch_needed(cached),
{
}

/// Gate for the phases that read the cached manifest: they may proceed
/// exactly when it is there, and a missing manifest is fatal.
pub fn require_manifest(cached: bool) -> (r: Result<(), SyncError>)
    ensures
        (r is Ok) == cached,
        r matches Err(e) ==> e == SyncError::MissingManifest,
{
    if cached {
        Ok(())
    } else {
        Err(SyncError::MissingManifest)
    }
}

/// Idempotence of the whole synchronizer: a second run against a cache
/// into which the first run committed everything it planned — the
/// manifest, the asset index, every planned object and library, and the
/// client binary — plans no download in any phase, so it performs zero
/// network calls.
pub proof fn lemma_sync_second_run_empty(
    entries: Seq<AssetEntry>,
    objects_first: Seq<bool>,
    objects_second: Seq<bool>,
    libraries: Seq<LibraryEntry>,
    libraries_first: Seq<bool>,
    libraries_second: Seq<bool>,
    base: Seq<char>,
    root: Seq<char>,
)
    requires
        objects_first.len() == entries.len(),
        objects_second.len() == entries.len(),
        forall|i: int|
            0 <= i < entries.len() ==> #[trigger] objects_second[i] == (objects_first[i]
                || object_planned(objects_first, i)),
        libraries_first.len() == libraries.len(),
        libraries_second.len() == libraries.len(),
        forall|i: int|
            0 <= i < libraries.len() ==> #[trigger] libraries_second[i] == (libraries_first[i]
                || !libraries_first[i]),
    ensures
        !manifest_fetch_needed(true),
        plan_objects_spec(entries, objects_second, base).len() == 0,
        plan_libraries_spec(libraries, libraries_second, root).len() == 0,
{
    lemma_objects_second_run_empty(entries, objects_first, objects_second, base);
    lemma_libraries_second_run_empty(libraries, libraries_first, libraries_second, root);
}

// ---------------------------------------------------------------------
// Bounded concurrency for the object phase.
// ---------------------------------------------------------------------

/// Dispatcher state for the object phase's bounded worker pool: tasks
/// `0 .. total` are admitted in order, at most `limit` in flight at a
/// time; a new task is admitted only as a prior one completes.
pub struct DownloadPool {
    pub limit: usize,
    pub total: usize,
    pub started: usize,
    pub completed: usize,
}

impl DownloadPool {
    /// Tasks admitted but not yet completed.
    pub open spec fn in_flight(self) -> int {
        self.started - self.completed
    }

    /// The pool's invariant; every method preserves it.
    pub open spec fn wf(self) -> bool {
        &&& 1 <= self.limit
        &&& self.completed <= self.started <= self.total
        &&& self.in_flight() <= self.limit
    }

    pub fn new(limit: usize, total: usize) -> (r: DownloadPool)
        requires
            1 <= limit,
        ensures
            r.wf(),
            r.limit == limit,
            r.total == total,
            r.started == 0,
            r.completed == 0,
    {
        DownloadPool { limit, total, started: 0, completed: 0 }
    }

    /// Admit the next task if one remains and the ceiling allows it;
    /// returns its index. Refuses exactly when the pool is full or all
    /// tasks have been admitted.
    pub fn try_admit(&mut self) -> (r: Option<usize>)
        requires
            old(self).wf(),
        ensures
            final(self).wf(),
            final(self).limit == old(self).limit,
            final(self).total == old(self).total,
            final(self).completed == old(self).completed,
            r matches Some(i) ==> i == old(self).started && final(self).started == old(
                self,
            ).started + 1 && old(self).in_flight() < old(self).limit && old(self).started < old(
                self,
            ).total,
            r is None ==> final(self).started == old(self).started && (old(self).in_flight()
                == old(self).limit || old(self).started == old(self).total),
    {
        if self.started < self.total && self.started - self.completed < self.limit {
            let i = self.started;
            self.started = self.started + 1;
            Some(i)
        } else {
            None
        }
    }

    /// Record that one in-flight task finished.
    pub fn complete(&mut self)
        requires
            old(self).wf(),
            old(self).in_flight() > 0,
        ensures
            final(self).wf(),
            final(self).limit == old(self).limit,
            final(self).total == old(self).total,
            final(self).started == old(self).started,
            final(self).completed == old(self).completed + 1,
    {
        self.completed = self.completed + 1;
    }

    /// Whether every task has completed.
    pub fn done(&self) -> (r: bool)
        requires
            self.wf(),
        ensures
            r == (self.completed == self.total),
    {
        self.completed == self.total
    }

    /// How many tasks are in flight right now.
    pub fn in_flight_count(&self) -> (r: usize)
        requires
            self.wf(),
        ensures
            r == self.in_flight(),
    {
        self.started - self.completed
    }
}

/// The concurrency ceiling: in every reachable pool state the number of
/// in-flight downloads is at most the configured limit.
pub proof fn lemma_pool_bounded(pool: DownloadPool)
    requires
        pool.wf(),
    ensures
        pool.in_flight() <= pool.limit,
{
}

} // verus!
