//! Core launcher types: loaders, release channels, game versions, instances
//! and launch options. Times are milliseconds since the Unix epoch and
//! identifiers are UUIDs held as 128-bit numbers.

use vstd::prelude::*;
use crate::text;
use crate::ids;
use crate::paths;

verus! {

#[derive(Debug, Clone, Copy, PartialEq, Eq, Structural, Hash)]
pub enum LoaderType {
    Vanilla,
    Fabric,
    Quilt,
    Forge,
    NeoForge,
    OptiFine,
}

impl Default for LoaderType {
    fn default() -> (r: Self)
        ensures
            r == LoaderType::Vanilla,
    {
        LoaderType::Vanilla
    }
}

impl LoaderType {
    pub open spec fn name(self) -> Seq<char> {
        match self {
            LoaderType::Vanilla => "Vanilla"@,
            LoaderType::Fabric => "Fabric"@,
            LoaderType::Quilt => "Quilt"@,
            LoaderType::Forge => "Forge"@,
            LoaderType::NeoForge => "NeoForge"@,
            LoaderType::OptiFine => "OptiFine"@,
        }
    }

    pub fn as_str(&self) -> (r: &'static str)
        ensures
            r@ == self.name(),
    {
        match self {
            LoaderType::Vanilla => "Vanilla",
            LoaderType::Fabric => "Fabric",
            LoaderType::Quilt => "Quilt",
            LoaderType::Forge => "Forge",
            LoaderType::NeoForge => "NeoForge",
            LoaderType::OptiFine => "OptiFine",
        }
    }
}

#[derive(Debug, Clone, Copy, PartialEq, Eq, Structural, Hash)]
pub enum ReleaseType {
    Release,
    Snapshot,
    Beta,
    Alpha,
    Old,
}

impl Default for ReleaseType {
    fn default() -> (r: Self)
        ensures
            r == ReleaseType::Release,
    {
        ReleaseType::Release
    }
}

impl ReleaseType {
    pub open spec fn name(self) -> Seq<char> {
        match self {
            ReleaseType::Release => "Release"@,
            ReleaseType::Snapshot => "Snapshot"@,
            ReleaseType::Beta => "Beta"@,
            ReleaseType::Alpha => "Alpha"@,
            ReleaseType::Old => "Old"@,
        }
    }

    pub fn as_str(&self) -> (r: &'static str)
        ensures
            r@ == self.name(),
    {
        match self {
            ReleaseType::Release => "Release",
            ReleaseType::Snapshot => "Snapshot",
            ReleaseType::Beta => "Beta",
            ReleaseType::Alpha => "Alpha",
            ReleaseType::Old => "Old",
        }
    }
}

/// A game version as the launcher lists it.
#[derive(Debug, Clone)]
pub struct GameVersion {
    pub id: String,
    pub release_type: ReleaseType,
    pub url: String,
    pub release_time: i64,
    pub sha1: Option<String>,
}

/// A self-contained game installation.
#[derive(Debug, Clone)]
pub struct Instance {
    pub id: u128,
    pub name: String,
    pub game_version: String,
    pub loader: LoaderType,
    pub loader_version: Option<String>,
    pub custom_dir: Option<String>,
    pub ram_mb: Option<u32>,
    pub created_at: i64,
    pub last_played: Option<i64>,
    pub total_played_minutes: u64,
}

/// Whether std `char::is_alphanumeric` holds of `c` (Unicode Alphabetic or
/// Numeric).
pub uninterp spec fn unicode_alphanumeric(c: char) -> bool;

/// An ASCII letter or digit.
pub open spec fn ascii_alphanumeric(c: char) -> bool {
    ('a' <= c && c <= 'z') || ('A' <= c && c <= 'Z') || ('0' <= c && c <= '9')
}

/// Whether `char::is_alphanumeric` holds of `c`: for ASCII, a letter or a
/// digit (as std documents); beyond ASCII, the Unicode property.
pub open spec fn alphanumeric(c: char) -> bool {
    if (c as u32) < 128 {
        ascii_alphanumeric(c)
    } else {
        unicode_alphanumeric(c)
    }
}

/// std `char::is_alphanumeric`; the answer is a function of `c` alone, and
/// for an ASCII character it is whether `c` is `a`-`z`, `A`-`Z` or `0`-`9`
/// (std: Alphabetic or Numeric, whose ASCII members are exactly these).
#[verifier::external_body]
fn is_alphanumeric(c: char) -> (r: bool)
    ensures
        r == unicode_alphanumeric(c),
        (c as u32) < 128 ==> r == ascii_alphanumeric(c),
{
    c.is_alphanumeric()
}

/// Whether a character stays in a folder name.
pub open spec fn kept_in_name(c: char) -> bool {
    alphanumeric(c) || c == '_' || c == '-' || c == ' '
}

/// A name with every character that is not alphanumeric, `_`, `-` or a space
/// replaced by `_`.
pub open spec fn sanitize_name(s: Seq<char>) -> Seq<char> {
    s.map_values(|c: char| if kept_in_name(c) { c } else { '_' })
}

/// The folder an instance lives in below `base`: its sanitized, trimmed name,
/// or its id when that is empty.
pub open spec fn instance_folder(name: Seq<char>, id: u128) -> Seq<char> {
    if text::trim(sanitize_name(name)).len() == 0 {
        ids::uuid_text(id)
    } else {
        text::trim(sanitize_name(name))
    }
}

/// A character that cannot lead out of a folder: no separator and no dot.
pub open spec fn plain_folder_char(c: char) -> bool {
    c != '/' && c != '\\' && c != '.'
}

/// The folder of an instance is never empty and holds no separator and no
/// dot, so it names one folder directly below the instances folder.
pub proof fn instance_folder_is_plain(name: Seq<char>, id: u128)
    ensures
        instance_folder(name, id).len() > 0,
        forall|i: int|
            0 <= i < instance_folder(name, id).len() ==> plain_folder_char(
                #[trigger] instance_folder(name, id)[i],
            ),
{
    let sn = sanitize_name(name);
    text::lemma_trim_within(sn);
    if text::trim(sn).len() == 0 {
        ids::lemma_uuid_text_hex(id);
    } else {
        assert forall|i: int| 0 <= i < text::trim(sn).len() implies plain_folder_char(
            #[trigger] text::trim(sn)[i],
        ) by {
            let c = sn[i + text::lead_ws(text::trim_end(sn))];
            assert(text::trim(sn)[i] == c);
        }
    }
}

/// The sub-directories every instance has.
pub open spec fn instance_subdir_names() -> Seq<Seq<char>> {
    seq!["mods"@, "saves"@, "resourcepacks"@, "shaderpacks"@, "config"@, "screenshots"@]
}

impl Instance {
    /// A new instance with a fresh id, created now, never played.
    pub fn new(name: &str, game_version: &str, loader: LoaderType) -> (r: Self)
        ensures
            r.name@ == name@,
            r.game_version@ == game_version@,
            r.loader == loader,
            r.loader_version is None,
            r.custom_dir is None,
            r.ram_mb is None,
            r.last_played is None,
            r.total_played_minutes == 0,
            ids::is_v4_uuid(r.id),
            0 <= r.created_at < ids::clock_bound(),
    {
        Instance {
            id: ids::new_uuid_v4(),
            name: text::owned(name),
            game_version: text::owned(game_version),
            loader,
            loader_version: None,
            custom_dir: None,
            ram_mb: None,
            created_at: ids::now_millis(),
            last_played: None,
            total_played_minutes: 0,
        }
    }

    /// The instance's game directory: its custom directory if it has one,
    /// else its folder below `base_instances_dir`.
    pub fn get_game_dir(&self, base_instances_dir: &str) -> (r: String)
        ensures
            r@ == (match self.custom_dir {
                Some(d) => d@,
                None => paths::path_join(base_instances_dir@, instance_folder(self.name@, self.id)),
            }),
            self.custom_dir is None ==> paths::file_name(r@) == instance_folder(self.name@, self.id)
                && paths::parent_dir(r@) == paths::trim_path(base_instances_dir@),
    {
        proof {
            let f = instance_folder(self.name@, self.id);
            instance_folder_is_plain(self.name@, self.id);
            reveal_strlit(".");
            reveal_strlit("..");
            assert(f != "."@) by {
                if f == "."@ {
                    assert(plain_folder_char(f[0]));
                }
            }
            assert(f != ".."@) by {
                if f == ".."@ {
                    assert(plain_folder_char(f[0]));
                }
            }
            assert(paths::plain_name(f));
            paths::lemma_join_plain(base_instances_dir@, f);
        }
        match &self.custom_dir {
            Some(d) => d.clone(),
            None => {
                let v = text::chars_of(self.name.as_str());
                let mut s: Vec<char> = Vec::new();
                let mut i: usize = 0;
                while i < v.len()
                    invariant
                        v@ == self.name@,
                        i <= v@.len(),
                        s@ == sanitize_name(v@.subrange(0, i as int)),
                    decreases v@.len() - i,
                {
                    let c = v[i];
                    let keep = is_alphanumeric(c) || c == '_' || c == '-' || c == ' ';
                    s.push(if keep { c } else { '_' });
                    assert(sanitize_name(v@.subrange(0, i + 1)) =~= sanitize_name(
                        v@.subrange(0, i as int),
                    ).push(if keep { c } else { '_' }));
                    i = i + 1;
                }
                assert(v@.subrange(0, v@.len() as int) =~= v@);
                let (a, b) = text::trim_bounds(&s);
                let folder = if a == b {
                    ids::uuid_to_string(self.id)
                } else {
                    text::slice_string(&s, a, b)
                };
                paths::join(base_instances_dir, folder.as_str())
            },
        }
    }

    /// The directories created for the instance: its game directory joined
    /// with `mods`, `saves`, `resourcepacks`, `shaderpacks`, `config` and
    /// `screenshots`.
    pub fn game_subdirectories(&self, base_instances_dir: &str) -> (r: Vec<String>)
        ensures
            r@.len() == 6,
            forall|i: int|
                0 <= i < 6 ==> #[trigger] r@[i]@ == paths::path_join(
                    (match self.custom_dir {
                        Some(d) => d@,
                        None => paths::path_join(
                            base_instances_dir@,
                            instance_folder(self.name@, self.id),
                        ),
                    }),
                    instance_subdir_names()[i],
                ),
    {
        let dir = self.get_game_dir(base_instances_dir);
        let mut v: Vec<String> = Vec::new();
        v.push(paths::join(dir.as_str(), "mods"));
        v.push(paths::join(dir.as_str(), "saves"));
        v.push(paths::join(dir.as_str(), "resourcepacks"));
        v.push(paths::join(dir.as_str(), "shaderpacks"));
        v.push(paths::join(dir.as_str(), "config"));
        v.push(paths::join(dir.as_str(), "screenshots"));
        v
    }
}

/// How the game is started.
#[derive(Debug, Clone)]
pub struct LaunchOptions {
    pub memory_min_mb: u32,
    pub memory_max_mb: u32,
    pub java_path: Option<String>,
    pub custom_jvm_args: Vec<String>,
    pub window_width: u32,
    pub window_height: u32,
    pub fullscreen: bool,
    pub quick_play_server: Option<String>,
    pub quick_play_port: Option<u16>,
}

/// The G1 garbage collector flags the launcher starts the game with.
pub open spec fn default_jvm_flags() -> Seq<Seq<char>> {
    seq![
        "-XX:+UnlockExperimentalVMOptions"@,
        "-XX:+UseG1GC"@,
        "-XX:G1NewSizePercent=20"@,
        "-XX:G1ReservePercent=20"@,
        "-XX:MaxGCPauseMillis=50"@,
        "-XX:G1HeapRegionSize=32m"@,
    ]
}

impl Default for LaunchOptions {
    /// 1 GB to 4 GB of memory, the G1 flags, a 1280x720 window.
    fn default() -> (r: Self)
        ensures
            r.memory_min_mb == 1024,
            r.memory_max_mb == 4096,
            r.java_path is None,
            r.custom_jvm_args@.map_values(|s: String| s@) == default_jvm_flags(),
            r.window_width == 1280,
            r.window_height == 720,
            !r.fullscreen,
            r.quick_play_server is None,
            r.quick_play_port is None,
    {
        let mut args: Vec<String> = Vec::new();
        args.push(text::owned("-XX:+UnlockExperimentalVMOptions"));
        args.push(text::owned("-XX:+UseG1GC"));
        args.push(text::owned("-XX:G1NewSizePercent=20"));
        args.push(text::owned("-XX:G1ReservePercent=20"));
        args.push(text::owned("-XX:MaxGCPauseMillis=50"));
        args.push(text::owned("-XX:G1HeapRegionSize=32m"));
        assert(args@.map_values(|s: String| s@) =~= default_jvm_flags());
        LaunchOptions {
            memory_min_mb: 1024,
            memory_max_mb: 4096,
            java_path: None,
            custom_jvm_args: args,
            window_width: 1280,
            window_height: 720,
            fullscreen: false,
            quick_play_server: None,
            quick_play_port: None,
        }
    }
}

} // verus!
