//! The version manifest: the list of every game version with its channel,
//! metadata URL and release time, and its conversion to the launcher's own
//! version list.

use vstd::prelude::*;
use crate::download::{opt_view, owned_opt};
use crate::ids;
use crate::text;
use crate::types::{GameVersion, ReleaseType};

verus! {

/// Where the version manifest is published.
pub open spec fn mojang_manifest_url() -> Seq<char> {
    "https://piston-meta.mojang.com/mc/game/version_manifest_v2.json"@
}

/// The manifest URL.
pub fn manifest_url() -> (r: &'static str)
    ensures
        r@ == mojang_manifest_url(),
{
    "https://piston-meta.mojang.com/mc/game/version_manifest_v2.json"
}

/// The newest release and snapshot.
#[derive(Debug, Clone)]
pub struct LatestVersions {
    pub release: String,
    pub snapshot: String,
}

/// One version as the manifest lists it.
#[derive(Debug, Clone)]
pub struct VersionManifestEntry {
    pub id: String,
    pub version_type: String,
    pub url: String,
    pub time: String,
    pub release_time: String,
    pub sha1: Option<String>,
}

/// The whole manifest.
#[derive(Debug, Clone)]
pub struct VersionManifest {
    pub latest: LatestVersions,
    pub versions: Vec<VersionManifestEntry>,
}

/// The channel a manifest type names; an unknown type is `Old`.
pub open spec fn release_type_of(t: Seq<char>) -> ReleaseType {
    if t == "release"@ {
        ReleaseType::Release
    } else if t == "snapshot"@ {
        ReleaseType::Snapshot
    } else if t == "old_beta"@ {
        ReleaseType::Beta
    } else if t == "old_alpha"@ {
        ReleaseType::Alpha
    } else {
        ReleaseType::Old
    }
}

/// The channel of a manifest type.
pub fn release_type_from(t: &str) -> (r: ReleaseType)
    ensures
        r == release_type_of(t@),
{
    proof {
        reveal_strlit("release");
        reveal_strlit("snapshot");
        reveal_strlit("old_beta");
        reveal_strlit("old_alpha");
    }
    if text::str_eq(t, "release") {
        ReleaseType::Release
    } else if text::str_eq(t, "snapshot") {
        ReleaseType::Snapshot
    } else if text::str_eq(t, "old_beta") {
        ReleaseType::Beta
    } else if text::str_eq(t, "old_alpha") {
        ReleaseType::Alpha
    } else {
        ReleaseType::Old
    }
}

/// `g` is the launcher's form of the manifest entry `e`, apart from the
/// release time.
pub open spec fn converted(e: VersionManifestEntry, g: GameVersion) -> bool {
    &&& g.id@ == e.id@
    &&& g.release_type == release_type_of(e.version_type@)
    &&& g.url@ == e.url@
    &&& opt_view(g.sha1) == opt_view(e.sha1)
}

/// The release time the launcher keeps: the parsed one, or `now` when the
/// manifest's text could not be parsed.
pub open spec fn release_time_or(parsed: Option<i64>, now: i64) -> i64 {
    match parsed {
        Some(t) => t,
        None => now,
    }
}

/// The launcher's form of one entry, given what parsing its release time
/// gave and the current time.
pub fn game_version_at(e: &VersionManifestEntry, parsed: Option<i64>, now: i64) -> (r: GameVersion)
    ensures
        converted(*e, r),
        r.release_time == release_time_or(parsed, now),
{
    let t = match parsed {
        Some(t) => t,
        None => now,
    };
    GameVersion {
        id: text::owned(e.id.as_str()),
        release_type: release_type_from(e.version_type.as_str()),
        url: text::owned(e.url.as_str()),
        release_time: t,
        sha1: owned_opt(&e.sha1),
    }
}

impl VersionManifest {
    /// Every entry in the launcher's form, in manifest order. A release time
    /// that parses as RFC 3339 is kept; one that does not becomes the time of
    /// the call.
    pub fn to_game_versions(&self) -> (r: Vec<GameVersion>)
        ensures
            r@.len() == self.versions@.len(),
            forall|i: int|
                0 <= i < r@.len() ==> {
                    &&& converted(self.versions@[i], #[trigger] r@[i])
                    &&& (ids::rfc3339_millis(self.versions@[i].release_time@) matches Some(t)
                        ==> r@[i].release_time == t)
                },
    {
        let mut out: Vec<GameVersion> = Vec::new();
        let n: usize = self.versions.len();
        let mut i: usize = 0;
        while i < n
            invariant
                n == self.versions@.len(),
                i <= n,
                out@.len() == i,
                forall|j: int|
                    0 <= j < i ==> {
                        &&& converted(self.versions@[j], #[trigger] out@[j])
                        &&& (ids::rfc3339_millis(self.versions@[j].release_time@) matches Some(t)
                            ==> out@[j].release_time == t)
                    },
            decreases n - i,
        {
            let e = &self.versions[i];
            let parsed = ids::parse_rfc3339_millis(e.release_time.as_str());
            let now = match parsed {
                Some(t) => t,
                None => ids::now_millis(),
            };
            out.push(game_version_at(e, parsed, now));
            i = i + 1;
        }
        out
    }
}

} // verus!
