//! Mod loaders: where each one publishes its versions and installers, and
//! which version the launcher takes from a published list.

use vstd::prelude::*;
use crate::error::LauncherError;
use crate::text;

verus! {

/// A decoded server reply: `None` when the server answered with an
/// unsuccessful status, else the list it sent.
pub type Reply<T> = Option<Vec<T>>;

// ---------------------------------------------------------------------------
// Fabric
// ---------------------------------------------------------------------------

pub open spec fn fabric_meta() -> Seq<char> {
    "https://meta.fabricmc.net/v2"@
}

/// The Fabric loader list of a game version.
pub open spec fn fabric_loader_list_url(mc: Seq<char>) -> Seq<char> {
    fabric_meta() + "/versions/loader/"@ + mc
}

/// The launch profile of a Fabric loader for a game version.
pub open spec fn fabric_profile_url(mc: Seq<char>, loader: Seq<char>) -> Seq<char> {
    fabric_meta() + "/versions/loader/"@ + mc + "/"@ + loader + "/profile/json"@
}

/// `v` is the version taken from a Fabric list: that of its first stable
/// entry, or of its first entry when none is stable.
pub open spec fn fabric_choice(entries: Seq<(String, bool)>, v: Seq<char>) -> bool {
    ||| exists|k: int|
        0 <= k < entries.len() && #[trigger] entries[k].1 && (forall|j: int|
            0 <= j < k ==> !#[trigger] entries[j].1) && v == entries[k].0@
    ||| (forall|j: int| 0 <= j < entries.len() ==> !#[trigger] entries[j].1) && entries.len() > 0
        && v == entries[0].0@
}

pub struct FabricLoader;

impl FabricLoader {
    pub fn loader_list_url(mc_version: &str) -> (r: String)
        ensures
            r@ == fabric_loader_list_url(mc_version@),
    {
        proof {
            reveal_strlit("https://meta.fabricmc.net/v2");
            reveal_strlit("/versions/loader/");
        }
        let mut s = text::owned("https://meta.fabricmc.net/v2");
        s.append("/versions/loader/");
        s.append(mc_version);
        s
    }

    pub fn profile_url(mc_version: &str, loader_version: &str) -> (r: String)
        ensures
            r@ == fabric_profile_url(mc_version@, loader_version@),
    {
        proof {
            reveal_strlit("/");
            reveal_strlit("/profile/json");
        }
        let mut s = Self::loader_list_url(mc_version);
        s.append("/");
        s.append(loader_version);
        s.append("/profile/json");
        s
    }

    /// The loader version to install from the server's reply, each entry
    /// given as its version and whether it is stable.
    #[verifier::loop_isolation(false)]
    pub fn latest_from_reply(mc_version: &str, reply: &Reply<(String, bool)>) -> (r: Result<
        String,
        LauncherError,
    >)
        ensures
            match reply {
                None => r matches Err(LauncherError::Loader(m)) && m@ == "No Fabric loader found for MC "@
                    + mc_version@,
                Some(list) => if list@.len() == 0 {
                    r matches Err(LauncherError::Loader(m)) && m@ == "Empty Fabric loader list for MC "@
                        + mc_version@
                } else {
                    r matches Ok(v) && fabric_choice(list@, v@)
                },
            },
    {
        proof {
            reveal_strlit("No Fabric loader found for MC ");
            reveal_strlit("Empty Fabric loader list for MC ");
        }
        match reply {
            None => Err(LauncherError::Loader(text::concat2("No Fabric loader found for MC ", mc_version))),
            Some(list) => {
                if list.len() == 0 {
                    return Err(
                        LauncherError::Loader(
                            text::concat2("Empty Fabric loader list for MC ", mc_version),
                        ),
                    );
                }
                let n: usize = list.len();
                let mut i: usize = 0;
                while i < n
                    invariant
                        n == list@.len(),
                        n > 0,
                        i <= n,
                        forall|j: int| 0 <= j < i ==> !#[trigger] list@[j].1,
                    decreases n - i,
                {
                    if list[i].1 {
                        return Ok(text::owned(list[i].0.as_str()));
                    }
                    i = i + 1;
                }
                Ok(text::owned(list[0].0.as_str()))
            },
        }
    }
}

// ---------------------------------------------------------------------------
// Quilt
// ---------------------------------------------------------------------------

pub open spec fn quilt_meta() -> Seq<char> {
    "https://meta.quiltmc.org/v3"@
}

pub open spec fn quilt_loader_list_url(mc: Seq<char>) -> Seq<char> {
    quilt_meta() + "/versions/loader/"@ + mc
}

pub open spec fn quilt_profile_url(mc: Seq<char>, loader: Seq<char>) -> Seq<char> {
    quilt_meta() + "/versions/loader/"@ + mc + "/"@ + loader + "/profile/json"@
}

pub struct QuiltLoader;

impl QuiltLoader {
    pub fn loader_list_url(mc_version: &str) -> (r: String)
        ensures
            r@ == quilt_loader_list_url(mc_version@),
    {
        proof {
            reveal_strlit("https://meta.quiltmc.org/v3");
            reveal_strlit("/versions/loader/");
        }
        let mut s = text::owned("https://meta.quiltmc.org/v3");
        s.append("/versions/loader/");
        s.append(mc_version);
        s
    }

    pub fn profile_url(mc_version: &str, loader_version: &str) -> (r: String)
        ensures
            r@ == quilt_profile_url(mc_version@, loader_version@),
    {
        proof {
            reveal_strlit("/");
            reveal_strlit("/profile/json");
        }
        let mut s = Self::loader_list_url(mc_version);
        s.append("/");
        s.append(loader_version);
        s.append("/profile/json");
        s
    }

    /// The loader version to install: the first one the server lists.
    pub fn latest_from_reply(mc_version: &str, reply: &Reply<String>) -> (r: Result<String, LauncherError>)
        ensures
            match reply {
                None => r matches Err(LauncherError::Loader(m)) && m@ == "No Quilt loader found for MC "@
                    + mc_version@,
                Some(list) => if list@.len() == 0 {
                    r matches Err(LauncherError::Loader(m)) && m@ == "Empty Quilt loader list for MC "@
                        + mc_version@
                } else {
                    r matches Ok(v) && v@ == list@[0]@
                },
            },
    {
        proof {
            reveal_strlit("No Quilt loader found for MC ");
            reveal_strlit("Empty Quilt loader list for MC ");
        }
        match reply {
            None => Err(LauncherError::Loader(text::concat2("No Quilt loader found for MC ", mc_version))),
            Some(list) => {
                if list.len() == 0 {
                    Err(LauncherError::Loader(text::concat2("Empty Quilt loader list for MC ", mc_version)))
                } else {
                    Ok(text::owned(list[0].as_str()))
                }
            },
        }
    }
}

// ---------------------------------------------------------------------------
// Forge
// ---------------------------------------------------------------------------

pub open spec fn maven_forge() -> Seq<char> {
    "https://maven.minecraftforge.net"@
}

pub open spec fn forge_api_mirror() -> Seq<char> {
    "https://bmclapi2.bangbang93.com/forge/minecraft"@
}

pub open spec fn forge_list_url(mc: Seq<char>) -> Seq<char> {
    forge_api_mirror() + "/"@ + mc
}

pub open spec fn forge_installer_url(mc: Seq<char>, forge: Seq<char>) -> Seq<char> {
    maven_forge() + "/net/minecraftforge/forge/"@ + mc + "-"@ + forge + "/forge-"@ + mc + "-"@ + forge
        + "-installer.jar"@
}

pub open spec fn forge_version_id(mc: Seq<char>, forge: Seq<char>) -> Seq<char> {
    mc + "-forge-"@ + forge
}

/// `k` is the build the launcher takes: one with the highest build number,
/// the last such one in the list.
pub open spec fn last_highest_build(builds: Seq<(String, u64)>, k: int) -> bool {
    &&& 0 <= k < builds.len()
    &&& forall|j: int| 0 <= j < builds.len() ==> #[trigger] builds[j].1 <= builds[k].1
    &&& forall|j: int| k < j < builds.len() ==> #[trigger] builds[j].1 < builds[k].1
}

pub struct ForgeLoader;

impl ForgeLoader {
    /// The Forge build list of a game version.
    pub fn list_url(mc_version: &str) -> (r: String)
        ensures
            r@ == forge_list_url(mc_version@),
    {
        proof {
            reveal_strlit("https://bmclapi2.bangbang93.com/forge/minecraft");
            reveal_strlit("/");
        }
        let mut s = text::owned("https://bmclapi2.bangbang93.com/forge/minecraft");
        s.append("/");
        s.append(mc_version);
        s
    }

    pub fn installer_url(mc_version: &str, forge_version: &str) -> (r: String)
        ensures
            r@ == forge_installer_url(mc_version@, forge_version@),
    {
        proof {
            reveal_strlit("https://maven.minecraftforge.net");
            reveal_strlit("/net/minecraftforge/forge/");
            reveal_strlit("-");
            reveal_strlit("/forge-");
            reveal_strlit("-installer.jar");
        }
        let mut s = text::owned("https://maven.minecraftforge.net");
        s.append("/net/minecraftforge/forge/");
        s.append(mc_version);
        s.append("-");
        s.append(forge_version);
        s.append("/forge-");
        s.append(mc_version);
        s.append("-");
        s.append(forge_version);
        s.append("-installer.jar");
        s
    }

    pub fn version_id(mc_version: &str, forge_version: &str) -> (r: String)
        ensures
            r@ == forge_version_id(mc_version@, forge_version@),
    {
        proof {
            reveal_strlit("-forge-");
        }
        text::concat3(mc_version, "-forge-", forge_version)
    }

    /// The Forge version to install from the server's reply, each build
    /// given as its version and build number.
    pub fn latest_from_reply(mc_version: &str, reply: &Reply<(String, u64)>) -> (r: Result<
        String,
        LauncherError,
    >)
        ensures
            match reply {
                None => r matches Err(LauncherError::Loader(m)) && m@ == "No Forge versions found for MC "@
                    + mc_version@,
                Some(list) => if list@.len() == 0 {
                    r matches Err(LauncherError::Loader(m)) && m@ == "Empty Forge list"@
                } else {
                    r matches Ok(v) && exists|k: int|
                        last_highest_build(list@, k) && v@ == #[trigger] list@[k].0@
                },
            },
    {
        proof {
            reveal_strlit("No Forge versions found for MC ");
            reveal_strlit("Empty Forge list");
        }
        match reply {
            None => Err(LauncherError::Loader(text::concat2("No Forge versions found for MC ", mc_version))),
            Some(list) => {
                if list.len() == 0 {
                    return Err(LauncherError::Loader(text::owned("Empty Forge list")));
                }
                let n: usize = list.len();
                let mut best: usize = 0;
                let mut i: usize = 1;
                while i < n
                    invariant
                        n == list@.len(),
                        1 <= i <= n,
                        best < i,
                        forall|j: int| 0 <= j < i ==> #[trigger] list@[j].1 <= list@[best as int].1,
                        forall|j: int| best < j < i ==> #[trigger] list@[j].1 < list@[best as int].1,
                    decreases n - i,
                {
                    if list[i].1 >= list[best].1 {
                        best = i;
                    }
                    i = i + 1;
                }
                let v = text::owned(list[best].0.as_str());
                assert(last_highest_build(list@, best as int));
                Ok(v)
            },
        }
    }
}

// ---------------------------------------------------------------------------
// NeoForge
// ---------------------------------------------------------------------------

pub open spec fn neoforge_maven() -> Seq<char> {
    "https://maven.neoforged.net/releases"@
}

/// The list of every published NeoForge release.
pub open spec fn neoforge_meta() -> Seq<char> {
    "https://maven.neoforged.net/api/maven/versions/releases/net/neoforged/neoforge"@
}

pub open spec fn neoforge_installer_url(v: Seq<char>) -> Seq<char> {
    neoforge_maven() + "/net/neoforged/neoforge/"@ + v + "/neoforge-"@ + v + "-installer.jar"@
}

pub open spec fn neoforge_version_id(mc: Seq<char>, v: Seq<char>) -> Seq<char> {
    mc + "-neoforge-"@ + v
}

/// The start every NeoForge version for a game version has.
pub open spec fn neoforge_prefix(mc: Seq<char>) -> Seq<char> {
    if text::has_prefix(mc, "1.20."@) {
        "20."@
    } else if text::has_prefix(mc, "1.21."@) {
        "21."@
    } else {
        ""@
    }
}

pub struct NeoForgeLoader;

impl NeoForgeLoader {
    pub fn meta_url() -> (r: &'static str)
        ensures
            r@ == neoforge_meta(),
    {
        "https://maven.neoforged.net/api/maven/versions/releases/net/neoforged/neoforge"
    }

    pub fn installer_url(neoforge_version: &str) -> (r: String)
        ensures
            r@ == neoforge_installer_url(neoforge_version@),
    {
        proof {
            reveal_strlit("https://maven.neoforged.net/releases");
            reveal_strlit("/net/neoforged/neoforge/");
            reveal_strlit("/neoforge-");
            reveal_strlit("-installer.jar");
        }
        let mut s = text::owned("https://maven.neoforged.net/releases");
        s.append("/net/neoforged/neoforge/");
        s.append(neoforge_version);
        s.append("/neoforge-");
        s.append(neoforge_version);
        s.append("-installer.jar");
        s
    }

    pub fn version_id(mc_version: &str, neoforge_version: &str) -> (r: String)
        ensures
            r@ == neoforge_version_id(mc_version@, neoforge_version@),
    {
        proof {
            reveal_strlit("-neoforge-");
        }
        text::concat3(mc_version, "-neoforge-", neoforge_version)
    }

    /// The version prefix that matches a game version.
    pub fn version_prefix(mc_version: &str) -> (r: &'static str)
        ensures
            r@ == neoforge_prefix(mc_version@),
    {
        proof {
            reveal_strlit("1.20.");
            reveal_strlit("1.21.");
            reveal_strlit("20.");
            reveal_strlit("21.");
            reveal_strlit("");
        }
        if text::starts_with(mc_version, "1.20.") {
            "20."
        } else if text::starts_with(mc_version, "1.21.") {
            "21."
        } else {
            ""
        }
    }

    /// The NeoForge version to install: the last listed one that starts with
    /// the game version's prefix.
    #[verifier::loop_isolation(false)]
    pub fn latest_from_reply(mc_version: &str, reply: &Reply<String>) -> (r: Result<String, LauncherError>)
        ensures
            match reply {
                None => r matches Err(LauncherError::Loader(m)) && m@
                    == "Failed to fetch NeoForge versions"@,
                Some(list) => {
                    let p = neoforge_prefix(mc_version@);
                    if exists|k: int|
                        0 <= k < list@.len() && text::has_prefix(#[trigger] list@[k]@, p) {
                        r matches Ok(v) && exists|k: int|
                            0 <= k < list@.len() && text::has_prefix(#[trigger] list@[k]@, p) && (forall|
                                j: int,
                            |
                                k < j < list@.len() ==> !text::has_prefix(#[trigger] list@[j]@, p))
                                && v@ == list@[k]@
                    } else {
                        r matches Err(LauncherError::Loader(m)) && m@ == "No NeoForge version found for "@
                            + mc_version@
                    }
                },
            },
    {
        proof {
            reveal_strlit("Failed to fetch NeoForge versions");
            reveal_strlit("No NeoForge version found for ");
        }
        match reply {
            None => Err(LauncherError::Loader(text::owned("Failed to fetch NeoForge versions"))),
            Some(list) => {
                let prefix = Self::version_prefix(mc_version);
                let ghost p = prefix@;
                let n: usize = list.len();
                let mut i: usize = n;
                while i > 0
                    invariant
                        n == list@.len(),
                        i <= n,
                        p == neoforge_prefix(mc_version@),
                        prefix@ == p,
                        forall|j: int| i <= j < n ==> !text::has_prefix(#[trigger] list@[j]@, p),
                    decreases i,
                {
                    i = i - 1;
                    if text::starts_with(list[i].as_str(), prefix) {
                        return Ok(text::owned(list[i].as_str()));
                    }
                }
                Err(LauncherError::Loader(text::concat2("No NeoForge version found for ", mc_version)))
            },
        }
    }
}

// ---------------------------------------------------------------------------
// OptiFine
// ---------------------------------------------------------------------------

pub open spec fn bmclapi_optifine() -> Seq<char> {
    "https://bmclapi2.bangbang93.com/optifine"@
}

/// One OptiFine build for a game version.
#[derive(Debug, Clone)]
pub struct OptiFineVersion {
    pub mc_version: String,
    pub patch_type: String,
    pub patch: String,
    pub filename: String,
}

pub struct OptiFineLoader;

impl OptiFineLoader {
    /// The OptiFine build list of a game version.
    pub fn versions_url(mc_version: &str) -> (r: String)
        ensures
            r@ == bmclapi_optifine() + "/"@ + mc_version@,
    {
        proof {
            reveal_strlit("https://bmclapi2.bangbang93.com/optifine");
            reveal_strlit("/");
        }
        text::concat3("https://bmclapi2.bangbang93.com/optifine", "/", mc_version)
    }

    /// The builds the server listed; an unsuccessful reply lists none.
    pub fn versions_from_reply(reply: Reply<OptiFineVersion>) -> (r: Vec<OptiFineVersion>)
        ensures
            match reply {
                None => r@.len() == 0,
                Some(list) => r@ == list@,
            },
    {
        match reply {
            None => Vec::new(),
            Some(list) => list,
        }
    }

    pub fn download_url(filename: &str) -> (r: String)
        ensures
            r@ == bmclapi_optifine() + "/download?filename="@ + filename@,
    {
        proof {
            reveal_strlit("https://bmclapi2.bangbang93.com/optifine");
            reveal_strlit("/download?filename=");
        }
        text::concat3("https://bmclapi2.bangbang93.com/optifine", "/download?filename=", filename)
    }
}

} // verus!
