use launcher::sync::AssetEntry;
use launcher::sync::DownloadPool;
use launcher::sync::LibraryEntry;
use launcher::sync::plan_asset_index;
use launcher::sync::plan_client;
use launcher::sync::plan_libraries;
use launcher::sync::plan_manifest;
use launcher::sync::plan_objects;
use launcher::sync::require_manifest;
use launcher::sync::SyncError;

const BASE: &str = "https://resources.download.minecraft.net";

fn entries(hashes: &[&str]) -> Vec<AssetEntry> {
    hashes.iter().map(|h| AssetEntry { hash: (*h).to_string() }).collect()
}

#[test]
fn object_plan_fetches_exactly_the_absent_entries() {
    let es = entries(&["aa11", "bb22", "cc33"]);
    let present = vec![false, true, false];
    let plan = plan_objects(&es, &present, BASE);
    assert_eq!(plan.len(), 2);
    assert_eq!(plan[0].url, format!("{}/aa/aa11", BASE));
    assert_eq!(plan[0].dest, "objects/aa/aa11");
    assert_eq!(plan[1].url, format!("{}/cc/cc33", BASE));
    assert_eq!(plan[1].dest, "objects/cc/cc33");
}

#[test]
fn object_phase_is_idempotent() {
    let es = entries(&["aa11", "bb22", "cc33"]);
    let mut present = vec![false, true, false];
    let first = plan_objects(&es, &present, BASE);
    assert_eq!(first.len(), 2);
    // Commit every planned download, as a completed run does.
    for p in present.iter_mut() {
        *p = true;
    }
    // Nothing is left to fetch, so the next run plans no download.
    let second = plan_objects(&es, &present, BASE);
    assert_eq!(second.len(), 0);
}

#[test]
fn three_uncached_libraries_mean_three_fetches_then_none() {
    let libs = vec![
        LibraryEntry { relative_path: "a/a.jar".to_string(), url: "http://h/a.jar".to_string() },
        LibraryEntry { relative_path: "b/b.jar".to_string(), url: "http://h/b.jar".to_string() },
        LibraryEntry { relative_path: "c/c.jar".to_string(), url: "http://h/c.jar".to_string() },
    ];
    let none_cached = vec![false, false, false];
    let plan = plan_libraries(&libs, &none_cached, "/r/libraries");
    assert_eq!(plan.len(), 3);
    assert_eq!(plan[0].url, "http://h/a.jar");
    assert_eq!(plan[0].dest, "/r/libraries/a/a.jar");
    assert_eq!(plan[1].dest, "/r/libraries/b/b.jar");
    assert_eq!(plan[2].dest, "/r/libraries/c/c.jar");
    // Re-running after all three landed fetches nothing.
    let all_cached = vec![true, true, true];
    let second = plan_libraries(&libs, &all_cached, "/r/libraries");
    assert_eq!(second.len(), 0);
}

#[test]
fn manifest_is_fetched_at_most_once() {
    let url = "https://meta.example/packages/25w06a.json";
    let first = plan_manifest(false, url, "/r/meta", "vanilla+25w06a");
    let task = first.expect("an uncached manifest is fetched");
    assert_eq!(task.url, url);
    assert_eq!(task.dest, "/r/meta/vanilla+25w06a.json");
    // Every later invocation sees the cached file and plans nothing.
    for _ in 0..3 {
        assert!(plan_manifest(true, url, "/r/meta", "vanilla+25w06a").is_none());
    }
}

#[test]
fn asset_index_is_fetched_at_most_once() {
    let first = plan_asset_index(false, "http://h/24.json", "/r/assets", "24");
    let task = first.expect("an uncached index is fetched");
    assert_eq!(task.dest, "/r/assets/indexes/24.json");
    assert!(plan_asset_index(true, "http://h/24.json", "/r/assets", "24").is_none());
}

#[test]
fn client_is_fetched_at_most_once() {
    let first = plan_client(false, "http://h/client.jar", "/r/profiles/p");
    let task = first.expect("an absent client is fetched");
    assert_eq!(task.dest, "/r/profiles/p/.minecraft/client.jar");
    assert!(plan_client(true, "http://h/client.jar", "/r/profiles/p").is_none());
}

#[test]
fn later_phases_need_the_cached_manifest() {
    assert_eq!(require_manifest(false).unwrap_err(), SyncError::MissingManifest);
    assert!(require_manifest(true).is_ok());
}

#[test]
fn pool_never_exceeds_the_ceiling() {
    // Drive a simulated transport through the pool and watch the
    // high-water mark of concurrently running tasks.
    let mut pool = DownloadPool::new(8, 100);
    let mut high_water: usize = 0;
    let mut started: Vec<usize> = Vec::new();
    while !pool.done() {
        while let Some(task) = pool.try_admit() {
            started.push(task);
            high_water = high_water.max(pool.in_flight_count());
        }
        // With the pool full, admission is refused until one completes.
        if pool.in_flight_count() == 8 {
            assert!(pool.try_admit().is_none());
        }
        pool.complete();
    }
    assert!(high_water <= 8);
    assert_eq!(high_water, 8);
    assert_eq!(started.len(), 100);
    // Tasks were admitted in order, each exactly once.
    for (i, t) in started.iter().enumerate() {
        assert_eq!(*t, i);
    }
}

#[test]
fn pool_with_fewer_tasks_than_the_ceiling_drains() {
    let mut pool = DownloadPool::new(8, 3);
    let mut admitted: usize = 0;
    while let Some(_) = pool.try_admit() {
        admitted += 1;
    }
    assert_eq!(admitted, 3);
    assert!(pool.in_flight_count() <= 8);
    pool.complete();
    pool.complete();
    pool.complete();
    assert!(pool.done());
}
