use launcher::dirs::assets_dir;
use launcher::dirs::libraries_dir;
use launcher::dirs::meta_dir;
use launcher::dirs::profiles_dir;
use launcher::dirs::root_dir;
use launcher::sync::client_cache_path;
use launcher::sync::index_cache_path;
use launcher::sync::library_cache_path;
use launcher::sync::manifest_cache_path;
use launcher::sync::object_rel_path;
use launcher::sync::object_url;

#[test]
fn root_is_under_data_dir() {
    assert_eq!(root_dir("/home/u/.local/share"), "/home/u/.local/share/launcher");
}

#[test]
fn layout_hangs_off_the_root() {
    let root = root_dir("/data");
    assert_eq!(assets_dir(&root), "/data/launcher/assets");
    assert_eq!(libraries_dir(&root), "/data/launcher/libraries");
    assert_eq!(meta_dir(&root), "/data/launcher/meta");
    assert_eq!(profiles_dir(&root), "/data/launcher/profiles");
}

#[test]
fn object_path_is_prefix_sharded() {
    assert_eq!(object_rel_path("ab34cd"), "objects/ab/ab34cd");
    assert_eq!(
        object_rel_path("0123456789abcdef0123456789abcdef01234567"),
        "objects/01/0123456789abcdef0123456789abcdef01234567"
    );
}

#[test]
fn object_path_is_deterministic() {
    assert_eq!(object_rel_path("ffee"), object_rel_path("ffee"));
}

#[test]
fn shared_prefix_lands_in_same_subdir_without_collision() {
    let p1 = object_rel_path("ab1111");
    let p2 = object_rel_path("ab2222");
    assert_eq!(&p1[..11], "objects/ab/");
    assert_eq!(&p2[..11], "objects/ab/");
    assert_ne!(p1, p2);
}

#[test]
fn object_url_is_derived_from_the_hash() {
    assert_eq!(
        object_url("https://resources.download.minecraft.net", "ab34cd"),
        "https://resources.download.minecraft.net/ab/ab34cd"
    );
}

#[test]
fn index_path_is_keyed_by_id() {
    assert_eq!(index_cache_path("/r/assets", "24"), "/r/assets/indexes/24.json");
}

#[test]
fn manifest_path_is_keyed_by_label() {
    assert_eq!(manifest_cache_path("/r/meta", "vanilla+25w06a"), "/r/meta/vanilla+25w06a.json");
}

#[test]
fn library_path_is_the_declared_relative_path() {
    assert_eq!(
        library_cache_path("/r/libraries", "com/example/lib/1.0/lib-1.0.jar"),
        "/r/libraries/com/example/lib/1.0/lib-1.0.jar"
    );
}

#[test]
fn client_path_is_inside_the_profile() {
    assert_eq!(client_cache_path("/r/profiles/my-pack"), "/r/profiles/my-pack/.minecraft/client.jar");
}
