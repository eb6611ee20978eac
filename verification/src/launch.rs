//! The launch composer: picking the profile to run and building the
//! command line for the external process.
//!
//! The launcher spawns the process and does not supervise it; this
//! module only computes what to spawn — the classpath joining the
//! profile's client binary with every library's cache path, and the
//! fixed argument list.

use vstd::prelude::*;
use crate::profile::Profile;
use crate::sync::LibraryEntry;
use crate::sync::library_cache_path;
use crate::sync::library_path_spec;

verus! {

/// How many profiles in the listing carry a given name.
pub open spec fn count_matches(profiles: Seq<Profile>, name: Seq<char>) -> nat
    decreases profiles.len(),
{
    if profiles.len() == 0 {
        0
    } else {
        count_matches(profiles.drop_last(), name) + if profiles.last().name@ == name {
            1nat
        } else {
            0nat
        }
    }
}

/// Find the profile to run: the entry whose name equals the requested
/// one exactly, provided the listing holds exactly one such entry.
pub fn find_profile(profiles: &Vec<Profile>, name: &String) -> (r: Option<usize>)
    ensures
        (r is Some) == (count_matches(profiles@, name@) == 1),
        r matches Some(i) ==> i < profiles@.len() && profiles@[i as int].name@ == name@,
{
    let mut count: usize = 0;
    let mut found: usize = 0;
    let mut i: usize = 0;
    while i < profiles.len()
        invariant
            i <= profiles@.len(),
            count == count_matches(profiles@.take(i as int), name@),
            count <= i,
            count >= 1 ==> found < i && profiles@[found as int].name@ == name@,
        decreases profiles@.len() - i,
    {
        proof {
            assert(profiles@.take(i + 1).drop_last() =~= profiles@.take(i as int));
            assert(profiles@.take(i + 1).last() == profiles@[i as int]);
        }
        if profiles[i].name == *name {
            count = count + 1;
            found = i;
        }
        i = i + 1;
    }
    proof {
        assert(profiles@.take(profiles@.len() as int) =~= profiles@);
    }
    if count == 1 {
        Some(found)
    } else {
        None
    }
}

/// The cache paths of a manifest's libraries, in manifest order.
pub fn library_cache_paths(root: &str, libraries: &Vec<LibraryEntry>) -> (r: Vec<String>)
    ensures
        r@.len() == libraries@.len(),
        forall|i: int|
            0 <= i < r@.len() ==> (#[trigger] r@[i])@ == library_path_spec(
                root@,
                libraries@[i].relative_path@,
            ),
{
    let mut out: Vec<String> = Vec::new();
    let mut i: usize = 0;
    while i < libraries.len()
        invariant
            i <= libraries@.len(),
            out@.len() == i,
            forall|j: int|
                0 <= j < i ==> (#[trigger] out@[j])@ == library_path_spec(
                    root@,
                    libraries@[j].relative_path@,
                ),
        decreases libraries@.len() - i,
    {
        out.push(library_cache_path(root, libraries[i].relative_path.as_str()));
        i = i + 1;
    }
    out
}

/// The given strings joined by the separator, with nothing around a
/// single part and nothing at the ends.
pub open spec fn join_strs(parts: Seq<String>, sep: Seq<char>) -> Seq<char>
    decreases parts.len(),
{
    if parts.len() == 0 {
        Seq::empty()
    } else if parts.len() == 1 {
        parts[0]@
    } else {
        join_strs(parts.drop_last(), sep) + sep + parts.last()@
    }
}

/// The classpath handed to the process: the profile's client binary,
/// the separator, then every library cache path joined by the
/// separator. The separator sits between the binary and the library
/// list even when that list is empty.
pub open spec fn classpath_spec(client: Seq<char>, libraries: Seq<String>, sep: Seq<char>) -> Seq<
    char,
> {
    client + sep + join_strs(libraries, sep)
}

pub fn build_classpath(client_path: &str, libraries: &Vec<String>, sep: &str) -> (r: String)
    ensures
        r@ == classpath_spec(client_path@, libraries@, sep@),
{
    let mut out = client_path.to_owned().concat(sep);
    let mut i: usize = 0;
    while i < libraries.len()
        invariant
            i <= libraries@.len(),
            out@ == client_path@ + sep@ + join_strs(libraries@.take(i as int), sep@),
        decreases libraries@.len() - i,
    {
        proof {
            assert(libraries@.take(i + 1).drop_last() =~= libraries@.take(i as int));
            assert(libraries@.take(i + 1).last() == libraries@[i as int]);
        }
        if i > 0 {
            out.append(sep);
        }
        out.append(libraries[i].as_str());
        i = i + 1;
    }
    proof {
        assert(libraries@.take(libraries@.len() as int) =~= libraries@);
    }
    out
}

/// The fixed argument list of the launched process, in order: the
/// classpath, the entry class, the placeholder username, the blank
/// version string, the profile's game directory, the shared assets
/// directory, the asset index identifier, and the placeholder
/// credential and version-type arguments.
pub fn build_launch_args(
    classpath: &str,
    profile_path: &str,
    assets_dir: &str,
    asset_index: &str,
) -> (r: Vec<String>)
    ensures
        r@.len() == 19,
        r@[0]@ == "-cp"@,
        r@[1]@ == classpath@,
        r@[2]@ == "net.minecraft.client.main.Main"@,
        r@[3]@ == "--username"@,
        r@[4]@ == "testxd"@,
        r@[5]@ == "--version"@,
        r@[6]@ == ""@,
        r@[7]@ == "--gameDir"@,
        r@[8]@ == profile_path@ + "/minecraft"@,
        r@[9]@ == "-assetsDir"@,
        r@[10]@ == assets_dir@,
        r@[11]@ == "--assetIndex"@,
        r@[12]@ == asset_index@,
        r@[13]@ == "--uuid"@,
        r@[14]@ == "--demo"@,
        r@[15]@ == "--accessToken"@,
        r@[16]@ == "--userType"@,
        r@[17]@ == "--versionType"@,
        r@[18]@ == "snapshot"@,
{
    let game_dir = profile_path.to_owned().concat("/minecraft");
    let mut out: Vec<String> = Vec::new();
    out.push("-cp".to_owned());
    out.push(classpath.to_owned());
    out.push("net.minecraft.client.main.Main".to_owned());
    out.push("--username".to_owned());
    out.push("testxd".to_owned());
    out.push("--version".to_owned());
    out.push("".to_owned());
    out.push("--gameDir".to_owned());
    out.push(game_dir);
    out.push("-assetsDir".to_owned());
    out.push(assets_dir.to_owned());
    out.push("--assetIndex".to_owned());
    out.push(asset_index.to_owned());
    out.push("--uuid".to_owned());
    out.push("--demo".to_owned());
    out.push("--accessToken".to_owned());
    out.push("--userType".to_owned());
    out.push("--versionType".to_owned());
    out.push("snapshot".to_owned());
    out
}

} // verus!
