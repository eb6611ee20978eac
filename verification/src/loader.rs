//! Mod loaders a profile may target, and the side of the game an
//! artifact belongs to.

use vstd::prelude::*;
use crate::text::lower_of;
use crate::text::to_lowercase;

verus! {

/// An optional runtime modification layer; absence denotes vanilla.
#[derive(Clone, Copy, Debug, PartialEq, Eq, Structural)]
pub enum ModLoader {
    Fabric,
    Quilt,
    Forge,
    NeoForge,
}

/// Which side of the game an artifact belongs to.
#[derive(Clone, Copy, Debug, PartialEq, Eq, Structural)]
pub enum Environment {
    Client,
    Server,
}

/// The loader a lowercased configuration string denotes; unrecognized
/// strings denote none.
pub open spec fn loader_from_spec(low: Seq<char>) -> Option<ModLoader> {
    if low == "fabric"@ {
        Some(ModLoader::Fabric)
    } else if low == "quilt"@ {
        Some(ModLoader::Quilt)
    } else if low == "forge"@ {
        Some(ModLoader::Forge)
    } else if low == "neoforge"@ {
        Some(ModLoader::NeoForge)
    } else {
        None
    }
}

/// The configuration name of a loader.
pub open spec fn loader_name_spec(l: ModLoader) -> Seq<char> {
    match l {
        ModLoader::Fabric => "fabric"@,
        ModLoader::Quilt => "quilt"@,
        ModLoader::Forge => "forge"@,
        ModLoader::NeoForge => "neoforge"@,
    }
}

impl ModLoader {
    /// Parse a configuration string, case-insensitively.
    pub fn from_str(s: &str) -> (r: Result<ModLoader, ()>)
        ensures
            r matches Ok(l) ==> loader_from_spec(lower_of(s@)) == Some(l),
            r is Err <==> loader_from_spec(lower_of(s@)) is None,
    {
        let low = to_lowercase(s);
        if low == "fabric".to_owned() {
            Ok(ModLoader::Fabric)
        } else if low == "quilt".to_owned() {
            Ok(ModLoader::Quilt)
        } else if low == "forge".to_owned() {
            Ok(ModLoader::Forge)
        } else if low == "neoforge".to_owned() {
            Ok(ModLoader::NeoForge)
        } else {
            Err(())
        }
    }

    /// The loader's configuration name.
    pub fn to_string(&self) -> (r: String)
        ensures
            r@ == loader_name_spec(*self),
    {
        match self {
            ModLoader::Fabric => "fabric".to_owned(),
            ModLoader::Quilt => "quilt".to_owned(),
            ModLoader::Forge => "forge".to_owned(),
            ModLoader::NeoForge => "neoforge".to_owned(),
        }
    }
}

} // verus!
