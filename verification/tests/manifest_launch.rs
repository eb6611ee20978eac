use launcher::launch::build_classpath;
use launcher::launch::build_launch_args;
use launcher::launch::find_profile;
use launcher::launch::library_cache_paths;
use launcher::manifest::parse_asset_index;
use launcher::manifest::parse_manifest;
use launcher::profile::Profile;
use launcher::sync::SyncError;
use launcher::sync::plan_objects;

fn manifest_doc() -> String {
    let mut doc = String::new();
    doc.push_str("{");
    doc.push_str("\"assetIndex\":{\"id\":\"24\",\"url\":\"http://h/24.json\"},");
    doc.push_str("\"assets\":\"24\",");
    doc.push_str("\"downloads\":{\"client\":{\"url\":\"http://h/client.jar\"}},");
    doc.push_str("\"libraries\":[");
    doc.push_str("{\"downloads\":{\"artifact\":{\"path\":\"a/a.jar\",\"url\":\"http://h/a.jar\"}}},");
    doc.push_str("{\"downloads\":{\"artifact\":{\"path\":\"b/b.jar\",\"url\":\"http://h/b.jar\"}}}");
    doc.push_str("]}");
    doc
}

#[test]
fn manifest_parses_into_its_typed_fields() {
    let m = parse_manifest(manifest_doc().as_bytes()).unwrap();
    assert_eq!(m.asset_index_id, "24");
    assert_eq!(m.asset_index_url, "http://h/24.json");
    assert_eq!(m.assets_label, "24");
    assert_eq!(m.client_url, "http://h/client.jar");
    assert_eq!(m.libraries.len(), 2);
    assert_eq!(m.libraries[0].relative_path, "a/a.jar");
    assert_eq!(m.libraries[0].url, "http://h/a.jar");
    assert_eq!(m.libraries[1].relative_path, "b/b.jar");
}

#[test]
fn malformed_manifests_are_rejected() {
    assert_eq!(parse_manifest(b"{oops").unwrap_err(), SyncError::MalformedManifest);
    assert_eq!(parse_manifest(b"{}").unwrap_err(), SyncError::MalformedManifest);
    let no_id = "{\"assetIndex\":{\"url\":\"u\"}}";
    assert_eq!(parse_manifest(no_id.as_bytes()).unwrap_err(), SyncError::MalformedManifest);
}

#[test]
fn asset_index_parses_into_hash_entries() {
    let mut doc = String::new();
    doc.push_str("{\"objects\":{");
    doc.push_str("\"icons/icon_16x16.png\":{\"hash\":\"aa11\",\"size\":3665},");
    doc.push_str("\"minecraft/sounds/s.ogg\":{\"hash\":\"bb22\",\"size\":10}");
    doc.push_str("}}");
    let entries = parse_asset_index(doc.as_bytes()).unwrap();
    assert_eq!(entries.len(), 2);
    let mut hashes: Vec<&str> = entries.iter().map(|e| e.hash.as_str()).collect();
    hashes.sort();
    assert_eq!(hashes, vec!["aa11", "bb22"]);
    // The parsed entries feed the object planner directly.
    let plan = plan_objects(&entries, &vec![false, false], "http://objects");
    assert_eq!(plan.len(), 2);
}

#[test]
fn malformed_asset_indexes_are_rejected() {
    assert_eq!(parse_asset_index(b"[1,2]").unwrap_err(), SyncError::MalformedAssetIndex);
    let no_hash = "{\"objects\":{\"a\":{\"size\":1}}}";
    assert_eq!(
        parse_asset_index(no_hash.as_bytes()).unwrap_err(),
        SyncError::MalformedAssetIndex
    );
    let short_hash = "{\"objects\":{\"a\":{\"hash\":\"x\"}}}";
    assert_eq!(
        parse_asset_index(short_hash.as_bytes()).unwrap_err(),
        SyncError::MalformedAssetIndex
    );
}

#[test]
fn classpath_joins_client_and_libraries() {
    let m = parse_manifest(manifest_doc().as_bytes()).unwrap();
    let libs = library_cache_paths("/r/libraries", &m.libraries);
    assert_eq!(libs, vec!["/r/libraries/a/a.jar", "/r/libraries/b/b.jar"]);
    let cp = build_classpath("/p/.minecraft/client.jar", &libs, ";");
    assert_eq!(cp, "/p/.minecraft/client.jar;/r/libraries/a/a.jar;/r/libraries/b/b.jar");
}

#[test]
fn classpath_with_no_libraries_keeps_the_separator() {
    let cp = build_classpath("client.jar", &Vec::new(), ";");
    assert_eq!(cp, "client.jar;");
}

#[test]
fn launch_args_are_the_fixed_list() {
    let args = build_launch_args("cp", "/r/profiles/p", "/r/assets", "24");
    assert_eq!(
        args,
        vec![
            "-cp",
            "cp",
            "net.minecraft.client.main.Main",
            "--username",
            "testxd",
            "--version",
            "",
            "--gameDir",
            "/r/profiles/p/minecraft",
            "-assetsDir",
            "/r/assets",
            "--assetIndex",
            "24",
            "--uuid",
            "--demo",
            "--accessToken",
            "--userType",
            "--versionType",
            "snapshot",
        ]
    );
}

fn named(name: &str) -> Profile {
    Profile {
        name: name.to_string(),
        slug: name.to_string(),
        path: format!("/r/profiles/{}", name),
        loader: None,
    }
}

#[test]
fn find_profile_needs_exactly_one_exact_match() {
    let profiles = vec![named("alpha"), named("beta"), named("alpha")];
    assert_eq!(find_profile(&profiles, &"beta".to_string()), Some(1));
    // No match at all, and an ambiguous name, both refuse.
    assert_eq!(find_profile(&profiles, &"gamma".to_string()), None);
    assert_eq!(find_profile(&profiles, &"alpha".to_string()), None);
    // Matching is exact, not by prefix or case.
    assert_eq!(find_profile(&profiles, &"bet".to_string()), None);
    assert_eq!(find_profile(&profiles, &"Beta".to_string()), None);
}
