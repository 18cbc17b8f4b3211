//! Mods: what the mod sites return, and the mods folder of an instance —
//! which files are mods, what a mod jar says about itself, how a mod is
//! switched off and on, and the order mods are listed in.

use vstd::prelude::*;
use crate::download::{opt_view, owned_opt};
use crate::error::LauncherError;
use crate::paths;
use crate::text;

verus! {

#[derive(Debug, Clone, Copy, PartialEq, Eq, Structural)]
pub enum ModSource {
    Modrinth,
    CurseForge,
    Local,
}

#[derive(Debug, Clone, Copy, PartialEq, Eq, Structural)]
pub enum ModCategory {
    Mod,
    ResourcePack,
    Shader,
}

impl Default for ModCategory {
    fn default() -> (r: Self)
        ensures
            r == ModCategory::Mod,
    {
        ModCategory::Mod
    }
}

/// A project found on a mod site.
#[derive(Debug, Clone)]
pub struct ModSearchResult {
    pub source: ModSource,
    pub id: String,
    pub title: String,
    pub author: String,
    pub downloads: u64,
    pub description: String,
    pub icon_url: Option<String>,
    pub category: ModCategory,
}

/// The file to download for a project.
#[derive(Debug, Clone)]
pub struct ModDownloadFile {
    pub filename: String,
    pub url: String,
    pub version: String,
    pub sha1: Option<String>,
    pub size: Option<u64>,
}

/// A mod file in an instance's mods folder.
#[derive(Debug, Clone)]
pub struct LocalMod {
    pub filename: String,
    pub path: String,
    pub name: String,
    pub id: String,
    pub version: String,
    pub description: String,
    pub enabled: bool,
    pub file_size: u64,
}

/// The `fabric.mod.json` of a Fabric mod.
#[derive(Debug, Clone)]
pub struct FabricModMetadata {
    pub id: String,
    pub name: Option<String>,
    pub version: Option<String>,
    pub description: Option<String>,
}

/// One entry of the `mcmod.info` of a legacy Forge mod.
#[derive(Debug, Clone)]
pub struct McModInfoEntry {
    pub modid: String,
    pub name: Option<String>,
    pub version: Option<String>,
    pub description: Option<String>,
}

/// What a mod says about itself: name, id, version, description.
pub type ModInfo = (String, String, String, String);

pub open spec fn info_view(m: ModInfo) -> (Seq<char>, Seq<char>, Seq<char>, Seq<char>) {
    (m.0@, m.1@, m.2@, m.3@)
}

/// The text of an optional string, or `d` when there is none.
pub open spec fn or_text(o: Option<String>, d: Seq<char>) -> Seq<char> {
    match o {
        Some(s) => s@,
        None => d,
    }
}

/// The version a mod that names none is given.
pub open spec fn default_version() -> Seq<char> {
    "1.0.0"@
}

/// The information of a mod described by id and optional fields: the name
/// defaults to the id, the version to `1.0.0`, the description to nothing.
pub open spec fn described(
    id: Seq<char>,
    name: Option<String>,
    version: Option<String>,
    description: Option<String>,
) -> (Seq<char>, Seq<char>, Seq<char>, Seq<char>) {
    (or_text(name, id), id, or_text(version, default_version()), or_text(description, seq![]))
}

fn text_or(o: &Option<String>, d: &str) -> (r: String)
    ensures
        r@ == or_text(*o, d@),
{
    match o {
        Some(s) => text::owned(s.as_str()),
        None => text::owned(d),
    }
}

fn describe(
    id: &String,
    name: &Option<String>,
    version: &Option<String>,
    description: &Option<String>,
) -> (r: ModInfo)
    ensures
        info_view(r) == described(id@, *name, *version, *description),
{
    proof {
        reveal_strlit("1.0.0");
        reveal_strlit("");
    }
    (
        text_or(name, id.as_str()),
        text::owned(id.as_str()),
        text_or(version, "1.0.0"),
        text_or(description, ""),
    )
}

// ---------------------------------------------------------------------------
// META-INF/mods.toml
// ---------------------------------------------------------------------------

/// The value of a `key=value` line: after the key, without surrounding
/// quotes and whitespace.
pub open spec fn toml_value(line: Seq<char>, key: Seq<char>) -> Seq<char> {
    text::trim(text::trim_char(text::strip_prefix_all(line, key), '"'))
}

/// The last `modId`, `displayName`, `version` and `description` values of
/// the lines, empty where the key never occurs.
pub open spec fn toml_fields(lines: Seq<Seq<char>>) -> (Seq<char>, Seq<char>, Seq<char>, Seq<char>)
    decreases lines.len(),
{
    if lines.len() == 0 {
        (seq![], seq![], seq![], seq![])
    } else {
        let f = toml_fields(lines.drop_last());
        let l = text::trim(lines.last());
        if text::has_prefix(l, "modId="@) {
            (toml_value(l, "modId="@), f.1, f.2, f.3)
        } else if text::has_prefix(l, "displayName="@) {
            (f.0, toml_value(l, "displayName="@), f.2, f.3)
        } else if text::has_prefix(l, "version="@) {
            (f.0, f.1, toml_value(l, "version="@), f.3)
        } else if text::has_prefix(l, "description="@) {
            (f.0, f.1, f.2, toml_value(l, "description="@))
        } else {
            f
        }
    }
}

/// What a `mods.toml` says of its mod: nothing without a `modId`; else the
/// display name (the id when empty), the id, the version (`1.0.0` when
/// empty) and the description.
pub open spec fn mods_toml_info(content: Seq<char>) -> Option<(Seq<char>, Seq<char>, Seq<char>, Seq<char>)> {
    let f = toml_fields(text::split_char(content, '\n'));
    if f.0.len() == 0 {
        None
    } else {
        Some(
            (
                if f.1.len() == 0 {
                    f.0
                } else {
                    f.1
                },
                f.0,
                if f.2.len() == 0 {
                    default_version()
                } else {
                    f.2
                },
                f.3,
            ),
        )
    }
}

fn value_after(line: &str, key: &str) -> (r: String)
    ensures
        r@ == toml_value(line@, key@),
{
    let a = text::trim_start_matches(line, key);
    let b = text::trim_matches_char(a.as_str(), '"');
    text::trimmed(b.as_str())
}

/// Reads the mod's information from the text of a `mods.toml`.
pub fn parse_mods_toml(content: &str) -> (r: Option<ModInfo>)
    ensures
        match mods_toml_info(content@) {
            None => r is None,
            Some(i) => r matches Some(m) && info_view(m) == i,
        },
{
    let v = text::chars_of(content);
    let lines = text::split_chars(&v, '\n');
    let ghost lv = lines@.map_values(|p: Vec<char>| p@);
    let mut mod_id = String::new();
    let mut display_name = String::new();
    let mut version = String::new();
    let mut description = String::new();
    proof {
        reveal_strlit("modId=");
        reveal_strlit("displayName=");
        reveal_strlit("version=");
        reveal_strlit("description=");
    }
    let n: usize = lines.len();
    let mut i: usize = 0;
    while i < n
        invariant
            n == lines@.len(),
            i <= n,
            lv == lines@.map_values(|p: Vec<char>| p@),
            toml_fields(lv.subrange(0, i as int)) == (mod_id@, display_name@, version@, description@),
        decreases n - i,
    {
        assert(lv.subrange(0, i + 1).drop_last() =~= lv.subrange(0, i as int));
        assert(lv.subrange(0, i + 1).last() == lines@[i as int]@);
        let raw = text::string_of(&lines[i]);
        let line = text::trimmed(raw.as_str());
        proof {
            reveal_strlit("modId=");
            reveal_strlit("displayName=");
            reveal_strlit("version=");
            reveal_strlit("description=");
        }
        if text::starts_with(line.as_str(), "modId=") {
            mod_id = value_after(line.as_str(), "modId=");
        } else if text::starts_with(line.as_str(), "displayName=") {
            display_name = value_after(line.as_str(), "displayName=");
        } else if text::starts_with(line.as_str(), "version=") {
            version = value_after(line.as_str(), "version=");
        } else if text::starts_with(line.as_str(), "description=") {
            description = value_after(line.as_str(), "description=");
        }
        i = i + 1;
    }
    assert(lv.subrange(0, n as int) =~= lv);
    if mod_id.as_str().is_empty() {
        return None;
    }
    proof {
        reveal_strlit("1.0.0");
    }
    let name = if display_name.as_str().is_empty() {
        text::owned(mod_id.as_str())
    } else {
        display_name
    };
    let ver = if version.as_str().is_empty() {
        text::owned("1.0.0")
    } else {
        version
    };
    Some((name, mod_id, ver, description))
}

// ---------------------------------------------------------------------------
// Jar metadata
// ---------------------------------------------------------------------------

/// What a mod jar says about itself, from its `fabric.mod.json` (when it
/// could be read), else its `META-INF/mods.toml` (when it names a mod id),
/// else the first entry of its `mcmod.info`.
pub open spec fn jar_info(
    fabric: Option<FabricModMetadata>,
    mods_toml: Option<Seq<char>>,
    mcmod: Option<Seq<McModInfoEntry>>,
) -> Option<(Seq<char>, Seq<char>, Seq<char>, Seq<char>)> {
    match fabric {
        Some(f) => Some(described(f.id@, f.name, f.version, f.description)),
        None => {
            let t = match mods_toml {
                Some(c) => mods_toml_info(c),
                None => None,
            };
            match t {
                Some(i) => Some(i),
                None => match mcmod {
                    Some(list) => if list.len() > 0 {
                        Some(described(list[0].modid@, list[0].name, list[0].version, list[0].description))
                    } else {
                        None
                    },
                    None => None,
                },
            }
        },
    }
}

pub struct LocalModManager;

impl LocalModManager {
    /// What a mod jar says about itself, given the decoded `fabric.mod.json`,
    /// the text of `META-INF/mods.toml` and the decoded `mcmod.info` that
    /// could be read from it.
    pub fn jar_metadata(
        fabric: &Option<FabricModMetadata>,
        mods_toml: &Option<String>,
        mcmod: &Option<Vec<McModInfoEntry>>,
    ) -> (r: Option<ModInfo>)
        ensures
            match jar_info(
                *fabric,
                opt_view(*mods_toml),
                match mcmod {
                    Some(l) => Some(l@),
                    None => None,
                },
            ) {
                None => r is None,
                Some(i) => r matches Some(m) && info_view(m) == i,
            },
    {
        if let Some(f) = fabric {
            return Some(describe(&f.id, &f.name, &f.version, &f.description));
        }
        if let Some(c) = mods_toml {
            if let Some(m) = parse_mods_toml(c.as_str()) {
                return Some(m);
            }
        }
        if let Some(list) = mcmod {
            if list.len() > 0 {
                let e = &list[0];
                return Some(describe(&e.modid, &e.name, &e.version, &e.description));
            }
        }
        None
    }
}

/// The name of a mod whose jar says nothing: the file name without its
/// `.disabled` and `.jar` endings.
pub open spec fn fallback_name(filename: Seq<char>) -> Seq<char> {
    text::strip_suffix_all(text::strip_suffix_all(filename, ".disabled"@), ".jar"@)
}

/// A file is a mod when it ends in `.jar` (switched on) or `.jar.disabled`
/// (switched off).
pub open spec fn is_mod_name(filename: Seq<char>) -> bool {
    text::has_suffix(filename, ".jar"@) || text::has_suffix(filename, ".jar.disabled"@)
}

/// The entry of a mods folder file, given what its jar says about itself.
pub open spec fn local_mod_view(
    filename: Seq<char>,
    path: Seq<char>,
    file_size: u64,
    info: Option<(Seq<char>, Seq<char>, Seq<char>, Seq<char>)>,
) -> (Seq<char>, Seq<char>, Seq<char>, Seq<char>, Seq<char>, Seq<char>, bool, u64) {
    let i = match info {
        Some(i) => i,
        None => (fallback_name(filename), fallback_name(filename), "unknown"@, seq![]),
    };
    (filename, path, i.0, i.1, i.2, i.3, text::has_suffix(filename, ".jar"@), file_size)
}

impl View for LocalMod {
    type V = (Seq<char>, Seq<char>, Seq<char>, Seq<char>, Seq<char>, Seq<char>, bool, u64);

    open spec fn view(&self) -> Self::V {
        (
            self.filename@,
            self.path@,
            self.name@,
            self.id@,
            self.version@,
            self.description@,
            self.enabled,
            self.file_size,
        )
    }
}

/// The key mods are listed by: the lower-case name.
pub open spec fn name_key(m: LocalMod) -> Seq<char> {
    text::unicode_lowercase(m.name@)
}

/// Mods listed by lower-case name.
pub open spec fn sorted_by_name(s: Seq<LocalMod>) -> bool {
    forall|i: int, j: int|
        0 <= i < j < s.len() ==> text::lex_le(#[trigger] name_key(s[i]), #[trigger] name_key(s[j]))
}

/// Whether a mod's lower-case name is `k`.
pub open spec fn key_is(k: Seq<char>) -> spec_fn(LocalMod) -> bool {
    |m: LocalMod| name_key(m) == k
}

/// The mods of a list whose lower-case name is `k`, in list order.
pub open spec fn with_key(s: Seq<LocalMod>, k: Seq<char>) -> Seq<LocalMod> {
    s.filter(key_is(k))
}

/// Whether a mod, taken by its view, has the lower-case name `k`.
pub open spec fn view_key_is(k: Seq<char>) -> spec_fn(
    (Seq<char>, Seq<char>, Seq<char>, Seq<char>, Seq<char>, Seq<char>, bool, u64),
) -> bool {
    |v: (Seq<char>, Seq<char>, Seq<char>, Seq<char>, Seq<char>, Seq<char>, bool, u64)|
        text::unicode_lowercase(v.2) == k
}

/// Mods, taken by their views, whose lower-case name is `k`, in list order.
pub open spec fn with_view_key(
    s: Seq<(Seq<char>, Seq<char>, Seq<char>, Seq<char>, Seq<char>, Seq<char>, bool, u64)>,
    k: Seq<char>,
) -> Seq<(Seq<char>, Seq<char>, Seq<char>, Seq<char>, Seq<char>, Seq<char>, bool, u64)> {
    s.filter(view_key_is(k))
}

/// A file of a mods folder, with what could be read from it.
#[derive(Debug, Clone)]
pub struct ScannedFile {
    pub filename: String,
    pub path: String,
    pub file_size: u64,
    pub info: Option<ModInfo>,
}

pub open spec fn opt_info_view(o: Option<ModInfo>) -> Option<(Seq<char>, Seq<char>, Seq<char>, Seq<char>)> {
    match o {
        Some(m) => Some(info_view(m)),
        None => None,
    }
}

/// The mods among scanned files, in scan order.
pub open spec fn mods_of(files: Seq<ScannedFile>) -> Seq<(Seq<char>, Seq<char>, Seq<char>, Seq<char>, Seq<char>, Seq<char>, bool, u64)>
    decreases files.len(),
{
    if files.len() == 0 {
        seq![]
    } else {
        let r = mods_of(files.drop_last());
        let f = files.last();
        if is_mod_name(f.filename@) {
            r.push(local_mod_view(f.filename@, f.path@, f.file_size, opt_info_view(f.info)))
        } else {
            r
        }
    }
}

/// Where a mod goes when it is switched on or off.
pub open spec fn toggled(path: Seq<char>) -> Result<Seq<char>, Seq<char>> {
    toggled_in(paths::parent_dir(path), paths::file_name(path))
}

/// Where the mod file `name` of the folder `parent` goes when it is switched
/// on or off.
pub open spec fn toggled_in(parent: Seq<char>, name: Seq<char>) -> Result<Seq<char>, Seq<char>> {
    if name.len() == 0 {
        Err("Invalid mod filename"@)
    } else if text::has_suffix(name, ".jar"@) {
        Ok(paths::path_join(parent, name + ".disabled"@))
    } else if text::has_suffix(name, ".jar.disabled"@) {
        Ok(paths::path_join(parent, text::strip_suffix_all(name, ".disabled"@)))
    } else {
        Err("File is not a recognized mod"@)
    }
}

impl LocalModManager {
    /// Whether a file name is that of a mod.
    pub fn is_mod_file(filename: &str) -> (r: bool)
        ensures
            r == is_mod_name(filename@),
    {
        proof {
            reveal_strlit(".jar");
            reveal_strlit(".jar.disabled");
        }
        text::ends_with(filename, ".jar") || text::ends_with(filename, ".jar.disabled")
    }

    /// The entry of a mods folder file; `None` when it is not a mod.
    pub fn mod_entry(filename: &str, path: &str, file_size: u64, info: Option<ModInfo>) -> (r: Option<
        LocalMod,
    >)
        ensures
            !is_mod_name(filename@) ==> r is None,
            is_mod_name(filename@) ==> (r matches Some(m) && m@ == local_mod_view(
                filename@,
                path@,
                file_size,
                opt_info_view(info),
            )),
    {
        if !Self::is_mod_file(filename) {
            return None;
        }
        proof {
            reveal_strlit(".jar");
            reveal_strlit(".disabled");
            reveal_strlit("unknown");
            reveal_strlit("");
        }
        let enabled = text::ends_with(filename, ".jar");
        let (name, id, version, description) = match info {
            Some(m) => m,
            None => {
                let a = text::trim_end_matches(filename, ".disabled");
                let fallback = text::trim_end_matches(a.as_str(), ".jar");
                (text::owned(fallback.as_str()), fallback, text::owned("unknown"), String::new())
            },
        };
        Some(
            LocalMod {
                filename: text::owned(filename),
                path: text::owned(path),
                name,
                id,
                version,
                description,
                enabled,
                file_size,
            },
        )
    }

    /// The mods among the scanned files of a mods folder, listed by
    /// lower-case name (files with equal keys in scan order).
    pub fn collect_mods(files: Vec<ScannedFile>) -> (r: Vec<LocalMod>)
        ensures
            r@.map_values(|m: LocalMod| m@).to_multiset() == mods_of(files@).to_multiset(),
            sorted_by_name(r@),
            forall|k: Seq<char>|
                with_view_key(r@.map_values(|m: LocalMod| m@), k) == #[trigger] with_view_key(
                    mods_of(files@),
                    k,
                ),
    {
        let mut found: Vec<LocalMod> = Vec::new();
        let n: usize = files.len();
        let mut i: usize = 0;
        while i < n
            invariant
                n == files@.len(),
                i <= n,
                found@.map_values(|m: LocalMod| m@) == mods_of(files@.subrange(0, i as int)),
            decreases n - i,
        {
            let f = &files[i];
            let ghost before = found@;
            assert(files@.subrange(0, i + 1).drop_last() =~= files@.subrange(0, i as int));
            assert(files@.subrange(0, i + 1).last() == files@[i as int]);
            let info = match &f.info {
                Some(m) => Some(
                    (
                        text::owned(m.0.as_str()),
                        text::owned(m.1.as_str()),
                        text::owned(m.2.as_str()),
                        text::owned(m.3.as_str()),
                    ),
                ),
                None => None,
            };
            assert(opt_info_view(info) == opt_info_view(f.info));
            match Self::mod_entry(f.filename.as_str(), f.path.as_str(), f.file_size, info) {
                Some(m) => {
                    found.push(m);
                    assert(found@.map_values(|m: LocalMod| m@) =~= before.map_values(
                        |m: LocalMod| m@,
                    ).push(m@));
                },
                None => {},
            }
            i = i + 1;
        }
        assert(files@.subrange(0, n as int) =~= files@);
        let ghost all = found@;
        let r = sort_by_name(found);
        proof {
            lemma_map_multiset(r@, all, |m: LocalMod| m@);
            assert forall|k: Seq<char>|
                with_view_key(r@.map_values(|m: LocalMod| m@), k) == #[trigger] with_view_key(
                    mods_of(files@),
                    k,
                ) by {
                assert(with_key(r@, k) == with_key(all, k));
                vstd::seq_lib::lemma_filter_view_commute(r@, key_is(k), view_key_is(k));
                vstd::seq_lib::lemma_filter_view_commute(all, key_is(k), view_key_is(k));
                assert(r@.map_values(|m: LocalMod| m@) =~= r@.map_values(|x: LocalMod| x.view()));
                assert(all.map_values(|m: LocalMod| m@) =~= all.map_values(|x: LocalMod| x.view()));
                assert(with_key(r@, k).map_values(|x: LocalMod| x.view()) == with_key(
                    all,
                    k,
                ).map_values(|x: LocalMod| x.view()));
            }
        }
        r
    }

    /// Where a mod goes when it is switched on (`.jar.disabled` to `.jar`)
    /// or off (`.jar` to `.jar.disabled`).
    pub fn toggled_path(path: &str) -> (r: Result<String, LauncherError>)
        ensures
            match toggled(path@) {
                Ok(p) => r matches Ok(q) && q@ == p,
                Err(m) => r matches Err(LauncherError::Custom(e)) && e@ == m,
            },
    {
        proof {
            reveal_strlit("Invalid mod filename");
            reveal_strlit(".jar");
            reveal_strlit(".disabled");
            reveal_strlit(".jar.disabled");
            reveal_strlit("File is not a recognized mod");
        }
        let name = paths::file_name_of(path);
        let parent = paths::parent(path);
        if name.as_str().is_empty() {
            return Err(LauncherError::Custom(text::owned("Invalid mod filename")));
        }
        if text::ends_with(name.as_str(), ".jar") {
            let renamed = text::concat2(name.as_str(), ".disabled");
            Ok(paths::join(parent.as_str(), renamed.as_str()))
        } else if text::ends_with(name.as_str(), ".jar.disabled") {
            let renamed = text::trim_end_matches(name.as_str(), ".disabled");
            Ok(paths::join(parent.as_str(), renamed.as_str()))
        } else {
            Err(LauncherError::Custom(text::owned("File is not a recognized mod")))
        }
    }

    /// Where an imported mod is copied: its file name below the mods folder.
    pub fn import_destination(source: &str, mods_dir: &str) -> (r: Result<String, LauncherError>)
        ensures
            paths::file_name(source@).len() == 0 ==> (r matches Err(LauncherError::Custom(e)) && e@
                == "Invalid source file"@),
            paths::file_name(source@).len() > 0 ==> (r matches Ok(d) && d@ == paths::path_join(
                mods_dir@,
                paths::file_name(source@),
            )),
    {
        let name = paths::file_name_of(source);
        if name.as_str().is_empty() {
            proof {
                reveal_strlit("Invalid source file");
            }
            return Err(LauncherError::Custom(text::owned("Invalid source file")));
        }
        Ok(paths::join(mods_dir, name.as_str()))
    }
}

/// Mapping a function over two sequences with equal multisets gives
/// sequences with equal multisets.
proof fn lemma_map_multiset<A, B>(a: Seq<A>, b: Seq<A>, f: spec_fn(A) -> B)
    requires
        a.to_multiset() == b.to_multiset(),
    ensures
        a.map_values(f).to_multiset() == b.map_values(f).to_multiset(),
    decreases a.len(),
{
    broadcast use vstd::seq_lib::to_multiset_build, vstd::seq_lib::to_multiset_insert,
        vstd::seq_lib::to_multiset_remove, vstd::seq_lib::to_multiset_len,
        vstd::seq_lib::to_multiset_contains, vstd::multiset::group_multiset_axioms;

    if a.len() == 0 {
        assert(a.to_multiset().len() == 0);
        assert(b.to_multiset().len() == 0);
        assert(b.len() == 0);
        assert(a.map_values(f) =~= b.map_values(f));
    } else {
        let x = a.last();
        let a2 = a.drop_last();
        assert(a =~= a2.push(x));
        assert(a.to_multiset().count(x) > 0);
        assert(b.contains(x));
        let k = choose|k: int| 0 <= k < b.len() && b[k] == x;
        let b2 = b.remove(k);
        assert(a2.to_multiset() =~= b2.to_multiset());
        lemma_map_multiset(a2, b2, f);
        assert(a.map_values(f) =~= a2.map_values(f).push(f(x)));
        assert(b.map_values(f) =~= b2.map_values(f).insert(k, f(x)));
    }
}

/// Filtering a sequence none of whose items passes gives the empty sequence.
proof fn lemma_filter_none<A>(s: Seq<A>, pred: spec_fn(A) -> bool)
    requires
        forall|i: int| 0 <= i < s.len() ==> !pred(#[trigger] s[i]),
    ensures
        s.filter(pred) =~= Seq::<A>::empty(),
    decreases s.len(),
{
    reveal(Seq::filter);
    if s.len() > 0 {
        lemma_filter_none(s.drop_last(), pred);
    }
}

/// Filtering a one-item sequence.
proof fn lemma_filter_single<A>(x: A, pred: spec_fn(A) -> bool)
    ensures
        seq![x].filter(pred) =~= (if pred(x) {
            seq![x]
        } else {
            Seq::<A>::empty()
        }),
{
    reveal_with_fuel(Seq::filter, 2);
    assert(seq![x].drop_last() =~= Seq::<A>::empty());
}

/// Inserting a mod in front of every mod that shares its key, behind mods
/// of other keys only, puts it first among the mods of its key and leaves the
/// other keys' mods as they were.
proof fn lemma_insert_first_of_key(old_out: Seq<LocalMod>, p: int, m: LocalMod, k: Seq<char>)
    requires
        0 <= p <= old_out.len(),
        forall|t: int| 0 <= t < p ==> name_key(#[trigger] old_out[t]) != name_key(m),
    ensures
        with_key(old_out.insert(p, m), k) == (if name_key(m) == k {
            seq![m] + with_key(old_out, k)
        } else {
            with_key(old_out, k)
        }),
{
    let pred = key_is(k);
    let a = old_out.subrange(0, p);
    let b = old_out.subrange(p, old_out.len() as int);
    assert(old_out.insert(p, m) =~= a + seq![m] + b);
    assert(old_out =~= a + b);
    Seq::filter_distributes_over_add(a + seq![m], b, pred);
    Seq::filter_distributes_over_add(a, seq![m], pred);
    Seq::filter_distributes_over_add(a, b, pred);
    lemma_filter_single(m, pred);
    if name_key(m) == k {
        lemma_filter_none(a, pred);
        assert(with_key(old_out.insert(p, m), k) =~= seq![m] + with_key(old_out, k));
    } else {
        assert(with_key(old_out.insert(p, m), k) =~= with_key(old_out, k));
    }
}

/// Mods listed by lower-case name; mods with equal keys keep their order.
pub fn sort_by_name(mods: Vec<LocalMod>) -> (r: Vec<LocalMod>)
    ensures
        r@.to_multiset() == mods@.to_multiset(),
        sorted_by_name(r@),
        forall|k: Seq<char>| #[trigger] with_key(r@, k) == with_key(mods@, k),
{
    broadcast use vstd::seq_lib::to_multiset_build, vstd::seq_lib::to_multiset_insert,
        vstd::seq_lib::to_multiset_len, vstd::multiset::group_multiset_axioms,
        vstd::multiset::lemma_multiset_empty_len;

    let ghost orig = mods@;
    let mut rest = mods;
    let mut out: Vec<LocalMod> = Vec::new();
    let mut keys: Vec<Vec<char>> = Vec::new();
    assert(out@.to_multiset().len() == 0);
    assert(out@.to_multiset().add(rest@.to_multiset()) =~= orig.to_multiset());
    assert forall|k: Seq<char>|
        #[trigger] with_key(out@, k) == with_key(orig.subrange(rest@.len() as int, orig.len() as int), k) by {
        reveal(Seq::filter);
        assert(orig.subrange(rest@.len() as int, orig.len() as int) =~= Seq::<LocalMod>::empty());
    }
    while rest.len() > 0
        invariant
            rest@.len() <= orig.len(),
            rest@ =~= orig.subrange(0, rest@.len() as int),
            forall|k: Seq<char>|
                #[trigger] with_key(out@, k) == with_key(
                    orig.subrange(rest@.len() as int, orig.len() as int),
                    k,
                ),
            out@.to_multiset().add(rest@.to_multiset()) == orig.to_multiset(),
            keys@.len() == out@.len(),
            forall|t: int| 0 <= t < keys@.len() ==> #[trigger] keys@[t]@ == name_key(out@[t]),
            sorted_by_name(out@),
        decreases rest@.len(),
    {
        let ghost rest_before = rest@;
        let m = rest.pop().unwrap();
        assert(rest_before == rest@.push(m));
        let lower = text::to_lowercase(m.name.as_str());
        let key = text::chars_of(lower.as_str());
        // Goes before the first mod whose key is not smaller.
        let mut p: usize = 0;
        while p < keys.len() && !text::lex_le_chars(&key, &keys[p])
            invariant
                p <= keys@.len(),
                keys@.len() == out@.len(),
                forall|t: int| 0 <= t < keys@.len() ==> #[trigger] keys@[t]@ == name_key(out@[t]),
                forall|t: int| 0 <= t < p ==> !text::lex_le(key@, #[trigger] name_key(out@[t])),
            decreases keys@.len() - p,
        {
            p = p + 1;
        }
        let ghost old_out = out@;
        let ghost old_len = rest_before.len();
        proof {
            text::lemma_lex_total(key@, key@);
            assert forall|t: int| 0 <= t < p implies name_key(#[trigger] old_out[t]) != key@ by {
                assert(!text::lex_le(key@, name_key(old_out[t])));
            }
            assert forall|t: int| 0 <= t < p implies text::lex_le(
                #[trigger] name_key(old_out[t]),
                key@,
            ) by {
                text::lemma_lex_total(key@, name_key(old_out[t]));
            }
            assert forall|t: int| p <= t < old_out.len() implies text::lex_le(
                key@,
                #[trigger] name_key(old_out[t]),
            ) by {
                if t > p {
                    text::lemma_lex_trans(key@, name_key(old_out[p as int]), name_key(old_out[t]));
                }
            }
        }
        out.insert(p, m);
        keys.insert(p, key);
        assert(out@ == old_out.insert(p as int, m));
        proof {
            assert(m == orig[old_len - 1]);
            let tail = orig.subrange(old_len as int, orig.len() as int);
            assert(orig.subrange(old_len - 1, orig.len() as int) =~= seq![m] + tail);
            assert forall|k: Seq<char>|
                #[trigger] with_key(out@, k) == with_key(
                    orig.subrange(rest@.len() as int, orig.len() as int),
                    k,
                ) by {
                lemma_insert_first_of_key(old_out, p as int, m, k);
                tail.lemma_filter_prepend(m, key_is(k));
                assert(with_key(old_out, k) == with_key(tail, k));
            }
            vstd::seq_lib::to_multiset_insert(old_out, p as int, m);
            vstd::seq_lib::to_multiset_build(rest@, m);
        }
        assert(out@.to_multiset().add(rest@.to_multiset()) =~= old_out.to_multiset().add(
            rest_before.to_multiset(),
        ));
        assert(sorted_by_name(out@)) by {
            assert forall|i: int, j: int| 0 <= i < j < out@.len() implies text::lex_le(
                #[trigger] name_key(out@[i]),
                #[trigger] name_key(out@[j]),
            ) by {
                if i < p && j == p {
                } else if i < p && j > p {
                    assert(out@[j] == old_out[j - 1]);
                    text::lemma_lex_trans(name_key(out@[i]), key@, name_key(out@[j]));
                } else if i == p {
                    assert(out@[j] == old_out[j - 1]);
                } else if j < p {
                } else {
                    assert(out@[i] == old_out[i - 1]);
                    assert(out@[j] == old_out[j - 1]);
                }
            }
        }
    }
    assert(rest@.to_multiset().len() == 0);
    assert(rest@.to_multiset() =~= vstd::multiset::Multiset::empty());
    assert(out@.to_multiset() =~= orig.to_multiset());
    assert(orig.subrange(0, orig.len() as int) =~= orig);
    out
}

/// A path written the way `PathBuf` writes one: its folder joined with its
/// file name.
pub open spec fn normal_path(p: Seq<char>) -> bool {
    p == paths::path_join(paths::parent_dir(p), paths::file_name(p))
}

/// The name a `.jar` mod is switched off under: it ends in `.jar.disabled`,
/// and taking `.disabled` off gives the name back.
proof fn lemma_switch_off_name(name: Seq<char>)
    requires
        text::has_suffix(name, ".jar"@),
        forall|i: int| 0 <= i < name.len() ==> name[i] != '/',
    ensures
        paths::plain_name(name + ".disabled"@),
        !text::has_suffix(name + ".disabled"@, ".jar"@),
        text::has_suffix(name + ".disabled"@, ".jar.disabled"@),
        text::strip_suffix_all(name + ".disabled"@, ".disabled"@) == name,
{
    reveal_strlit(".jar");
    reveal_strlit(".disabled");
    reveal_strlit(".jar.disabled");
    reveal_strlit(".");
    reveal_strlit("..");
    let dis = ".disabled"@;
    let n2 = name + dis;
    assert forall|i: int| 0 <= i < n2.len() implies n2[i] != '/' by {
        if i >= name.len() {
            assert(n2[i] == dis[i - name.len()]);
        } else {
            assert(n2[i] == name[i]);
        }
    }
    assert(n2 != "."@ && n2 != ".."@) by {
        assert(n2.len() > 2);
    }
    assert(n2.last() == 'd');
    assert(!text::has_suffix(n2, ".jar"@)) by {
        if text::has_suffix(n2, ".jar"@) {
            assert(n2.subrange(n2.len() - 4, n2.len() as int)[3] == 'r');
        }
    }
    assert(n2.subrange(n2.len() - 13, n2.len() as int) =~= name.subrange(
        name.len() - 4,
        name.len() as int,
    ) + dis);
    assert(".jar.disabled"@ =~= ".jar"@ + dis);
    assert(name.subrange(name.len() - 4, name.len() as int) == ".jar"@);
    assert(text::has_suffix(n2, ".jar.disabled"@));
    assert(n2.subrange(n2.len() - 9, n2.len() as int) =~= dis);
    assert(n2.subrange(0, n2.len() - 9) =~= name);
    assert(!text::has_suffix(name, dis)) by {
        if text::has_suffix(name, dis) {
            assert(name.subrange(name.len() - 4, name.len() as int)[3] == 'r');
            assert(name.last() == 'r');
            assert(name.subrange(name.len() - 9, name.len() as int).last() == 'd');
        }
    }
    assert(text::strip_suffix_all(name, dis) == name);
    assert(text::strip_suffix_all(n2, dis) == name);
}

/// The name a `.jar.disabled` mod is switched on under: it ends in `.jar`,
/// and adding `.disabled` gives the name back.
proof fn lemma_switch_on_name(name: Seq<char>)
    requires
        text::has_suffix(name, ".jar.disabled"@),
        forall|i: int| 0 <= i < name.len() ==> name[i] != '/',
    ensures
        paths::plain_name(text::strip_suffix_all(name, ".disabled"@)),
        text::has_suffix(text::strip_suffix_all(name, ".disabled"@), ".jar"@),
        text::strip_suffix_all(name, ".disabled"@) + ".disabled"@ == name,
{
    reveal_strlit(".jar");
    reveal_strlit(".disabled");
    reveal_strlit(".jar.disabled");
    reveal_strlit(".");
    reveal_strlit("..");
    let dis = ".disabled"@;
    let x = name.subrange(0, name.len() - 9);
    assert(name.subrange(name.len() - 9, name.len() as int) =~= dis) by {
        assert(name.subrange(name.len() - 9, name.len() as int) =~= name.subrange(
            name.len() - 13,
            name.len() as int,
        ).subrange(4, 13));
    }
    assert(text::has_suffix(name, dis));
    assert(x.subrange(x.len() - 4, x.len() as int) =~= ".jar"@) by {
        assert(x.subrange(x.len() - 4, x.len() as int) =~= name.subrange(
            name.len() - 13,
            name.len() as int,
        ).subrange(0, 4));
    }
    assert(!text::has_suffix(x, dis)) by {
        if text::has_suffix(x, dis) {
            assert(x.subrange(x.len() - 4, x.len() as int)[3] == 'r');
            assert(x.last() == 'r');
            assert(x.subrange(x.len() - 9, x.len() as int).last() == 'd');
        }
    }
    assert(text::strip_suffix_all(x, dis) == x);
    assert(text::strip_suffix_all(name, dis) == x);
    assert forall|i: int| 0 <= i < x.len() implies x[i] != '/' by {
        assert(x[i] == name[i]);
    }
    assert(name.len() >= 13);
    assert(x[x.len() - 1] == x.subrange(x.len() - 4, x.len() as int)[3]);
    assert(x.len() >= 4 && x[x.len() - 1] == 'r');
    assert(x != "."@ && x != ".."@) by {
        if x == "."@ || x == ".."@ {
            assert(x[x.len() - 1] == '.');
        }
    }
    assert(text::has_suffix(x, ".jar"@));
    assert(x + dis =~= name);
}

/// Switching a mod off and then on again (or on and then off) gives its
/// path back: its folder joined with its file name, which is the path itself
/// when it is written the way `PathBuf` writes one.
pub proof fn toggle_twice_restores(p: Seq<char>)
    requires
        toggled(p) is Ok,
    ensures
        toggled(toggled(p)->Ok_0) == Ok::<Seq<char>, Seq<char>>(
            paths::path_join(paths::parent_dir(p), paths::file_name(p)),
        ),
        normal_path(p) ==> toggled(toggled(p)->Ok_0) == Ok::<Seq<char>, Seq<char>>(p),
{
    let name = paths::file_name(p);
    let parent = paths::parent_dir(p);
    // The file name holds no separator, and the folder is trimmed.
    paths::lemma_component_no_sep(paths::trim_path(p));
    paths::lemma_parent_trimmed(p);
    assert forall|i: int| 0 <= i < name.len() implies name[i] != '/' by {
        assert(name[i] == paths::last_component(paths::trim_path(p))[i]);
    }
    assert(toggled(p) == toggled_in(parent, name));
    if text::has_suffix(name, ".jar"@) {
        let n2 = name + ".disabled"@;
        lemma_switch_off_name(name);
        paths::lemma_join_plain(parent, n2);
        let q = paths::path_join(parent, n2);
        assert(toggled(p) == Ok::<Seq<char>, Seq<char>>(q));
        assert(toggled(q) == toggled_in(parent, n2));
    } else {
        let x = text::strip_suffix_all(name, ".disabled"@);
        lemma_switch_on_name(name);
        paths::lemma_join_plain(parent, x);
        let q = paths::path_join(parent, x);
        assert(toggled(p) == Ok::<Seq<char>, Seq<char>>(q));
        assert(toggled(q) == toggled_in(parent, x));
    }
}

} // verus!
