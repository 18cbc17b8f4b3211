//! Version metadata: libraries and where they come from, the Java a version
//! needs, merging a loader profile with the version it inherits from, and
//! which files of a natives jar are extracted.

use vstd::prelude::*;
use crate::download;
use crate::download::DownloadItem;
use crate::paths;
use crate::rules;
use crate::rules::{Platform, HostArch, HostOs, Rule};
use crate::text;

verus! {

#[derive(Debug, Clone)]
pub struct FileDownload {
    pub sha1: Option<String>,
    pub size: Option<u64>,
    pub url: String,
    pub path: Option<String>,
}

#[derive(Debug, Clone)]
pub struct VersionDownloads {
    pub client: Option<FileDownload>,
    pub server: Option<FileDownload>,
    pub client_mappings: Option<FileDownload>,
}

#[derive(Debug, Clone)]
pub struct AssetIndexRef {
    pub id: String,
    pub sha1: String,
    pub size: u64,
    pub total_size: Option<u64>,
    pub url: String,
}

#[derive(Debug, Clone)]
pub struct JavaVersionInfo {
    pub component: Option<String>,
    pub major_version: u32,
}

/// A library's downloads; `classifiers` maps a classifier to its file.
#[derive(Debug, Clone)]
pub struct LibraryDownloads {
    pub artifact: Option<FileDownload>,
    pub classifiers: Option<Vec<(String, FileDownload)>>,
}

/// A library of a version; `natives` maps an operating system name to the
/// classifier of its native files.
#[derive(Debug, Clone)]
pub struct Library {
    pub name: String,
    pub downloads: Option<LibraryDownloads>,
    pub rules: Option<Vec<Rule>>,
    pub natives: Option<Vec<(String, String)>>,
    pub url: Option<String>,
}

/// An argument of the modern `arguments` lists: a plain text or values
/// guarded by rules.
#[derive(Debug, Clone)]
pub enum ArgumentValue {
    Simple(String),
    Complex { rules: Option<Vec<Rule>>, value: ArgumentValueNested },
}

#[derive(Debug, Clone)]
pub enum ArgumentValueNested {
    Single(String),
    Multiple(Vec<String>),
}

#[derive(Debug, Clone)]
pub struct VersionArguments {
    pub game: Vec<ArgumentValue>,
    pub jvm: Vec<ArgumentValue>,
}

/// A version's JSON as the launcher reads it.
#[derive(Debug, Clone)]
pub struct VersionDetails {
    pub id: String,
    pub downloads: Option<VersionDownloads>,
    pub asset_index: Option<AssetIndexRef>,
    pub libraries: Vec<Library>,
    pub main_class: String,
    pub arguments: Option<VersionArguments>,
    pub minecraft_arguments: Option<String>,
    pub java_version: Option<JavaVersionInfo>,
    pub inherits_from: Option<String>,
}

// ---------------------------------------------------------------------------
// Keyed lists
// ---------------------------------------------------------------------------

/// The value of the first entry with key `key`.
pub open spec fn lookup<T>(entries: Seq<(String, T)>, key: Seq<char>) -> Option<T>
    decreases entries.len(),
{
    if entries.len() == 0 {
        None
    } else if entries[0].0@ == key {
        Some(entries[0].1)
    } else {
        lookup(entries.drop_first(), key)
    }
}

/// Index of the first entry with key `key`.
pub fn find_key<T>(entries: &Vec<(String, T)>, key: &str) -> (r: Option<usize>)
    ensures
        match r {
            Some(i) => i < entries@.len() && lookup(entries@, key@) == Some(entries@[i as int].1),
            None => lookup(entries@, key@) is None,
        },
{
    let mut i: usize = 0;
    assert(entries@.subrange(0, entries@.len() as int) =~= entries@);
    while i < entries.len()
        invariant
            i <= entries@.len(),
            lookup(entries@, key@) == lookup(entries@.subrange(i as int, entries@.len() as int), key@),
        decreases entries@.len() - i,
    {
        let ghost rest = entries@.subrange(i as int, entries@.len() as int);
        assert(rest[0] == entries@[i as int]);
        if text::str_eq(entries[i].0.as_str(), key) {
            return Some(i);
        }
        assert(rest.drop_first() =~= entries@.subrange(i + 1, entries@.len() as int));
        i = i + 1;
    }
    None
}

// ---------------------------------------------------------------------------
// Maven coordinates
// ---------------------------------------------------------------------------

/// The repository path of a Maven coordinate `group:artifact:version[:classifier]`:
/// `group/with/slashes/artifact/version/artifact-version[-classifier].jar`;
/// a name with fewer than three parts is its own path.
pub open spec fn maven_path(name: Seq<char>) -> Seq<char> {
    let parts = text::split_char(name, ':');
    if parts.len() < 3 {
        name
    } else {
        text::map_char(parts[0], '.', '/') + "/"@ + parts[1] + "/"@ + parts[2] + "/"@ + parts[1]
            + "-"@ + parts[2] + (if parts.len() >= 4 {
            "-"@ + parts[3]
        } else {
            Seq::<char>::empty()
        }) + ".jar"@
    }
}

/// The item that fetches `f` for the library named `name` into `dir`.
pub open spec fn file_item(f: FileDownload, name: Seq<char>, dir: Seq<char>) -> (
    Seq<char>,
    Seq<char>,
    Option<Seq<char>>,
    Option<u64>,
) {
    (
        f.url@,
        paths::path_join(
            dir,
            match f.path {
                Some(p) => p@,
                None => maven_path(name),
            },
        ),
        download::opt_view(f.sha1),
        f.size,
    )
}

/// `64` on 64-bit x86, `32` elsewhere: what replaces `${arch}` in a natives
/// classifier.
pub open spec fn arch_bits(arch: HostArch) -> Seq<char> {
    if arch == HostArch::X86_64 {
        "64"@
    } else {
        "32"@
    }
}

/// The classifier of a library's native files on `platform`.
pub open spec fn native_key(lib: Library, platform: Platform) -> Seq<char> {
    match lib.natives {
        Some(ns) => match lookup(ns@, rules::os_name(platform.os)) {
            Some(v) => text::replace_all(v@, "${arch}"@, arch_bits(platform.arch)),
            None => "natives-"@ + rules::os_name(platform.os),
        },
        None => "natives-"@ + rules::os_name(platform.os),
    }
}

/// The item for a library with a custom Maven repository.
pub open spec fn maven_item(lib: Library, dir: Seq<char>) -> Option<
    (Seq<char>, Seq<char>, Option<Seq<char>>, Option<u64>),
> {
    match lib.url {
        Some(u) => Some(
            (
                paths::strip_trailing_slashes(u@) + "/"@ + maven_path(lib.name@),
                paths::path_join(dir, maven_path(lib.name@)),
                None,
                None,
            ),
        ),
        None => None,
    }
}

/// How a library is fetched into `dir` on `platform`: its artifact, else its
/// native classifier's file, else from its Maven repository; `None` when it
/// has none of them.
pub open spec fn library_item(lib: Library, dir: Seq<char>, platform: Platform) -> Option<
    (Seq<char>, Seq<char>, Option<Seq<char>>, Option<u64>),
> {
    let from_downloads = match lib.downloads {
        Some(d) => match d.artifact {
            Some(a) => Some(file_item(a, lib.name@, dir)),
            None => match d.classifiers {
                Some(cl) => match lookup(cl@, native_key(lib, platform)) {
                    Some(f) => Some(file_item(f, lib.name@, dir)),
                    None => None,
                },
                None => None,
            },
        },
        None => None,
    };
    match from_downloads {
        Some(i) => Some(i),
        None => maven_item(lib, dir),
    }
}

fn make_file_item(f: &FileDownload, name: &str, dir: &str) -> (r: DownloadItem)
    ensures
        r@ == file_item(*f, name@, dir@),
{
    let rel = match &f.path {
        Some(p) => p.clone(),
        None => Library::maven_to_path(name),
    };
    let dest = paths::join(dir, rel.as_str());
    let mut item = DownloadItem::new(f.url.as_str(), dest.as_str());
    match &f.sha1 {
        Some(s) => {
            item = item.with_sha1(s.as_str());
        },
        None => {},
    }
    match f.size {
        Some(s) => {
            item = item.with_size(s);
        },
        None => {},
    }
    item
}

impl Library {
    /// Whether the library is used on `platform` with `features`.
    pub fn is_allowed(&self, features: &Vec<(String, bool)>, platform: Platform) -> (r: bool)
        ensures
            r == rules::rules_allow(
                match self.rules {
                    Some(rs) => Some(rs@),
                    None => None,
                },
                features@,
                platform,
            ),
    {
        match &self.rules {
            Some(rs) => rules::allows(Some(rs), features, platform),
            None => rules::allows(None, features, platform),
        }
    }

    /// The repository path of a Maven coordinate.
    pub fn maven_to_path(name: &str) -> (r: String)
        ensures
            r@ == maven_path(name@),
    {
        let v = text::chars_of(name);
        let parts = text::split_chars(&v, ':');
        let ghost ps = parts@.map_values(|p: Vec<char>| p@);
        if parts.len() < 3 {
            return text::owned(name);
        }
        assert(ps[0] == parts@[0]@ && ps[1] == parts@[1]@ && ps[2] == parts@[2]@);
        let group = text::replace_char(&parts[0], '.', '/');
        let mut out = String::new();
        text::push_chars(&mut out, &group);
        out.append("/");
        text::push_chars(&mut out, &parts[1]);
        out.append("/");
        text::push_chars(&mut out, &parts[2]);
        out.append("/");
        text::push_chars(&mut out, &parts[1]);
        out.append("-");
        text::push_chars(&mut out, &parts[2]);
        if parts.len() >= 4 {
            assert(ps[3] == parts@[3]@);
            out.append("-");
            text::push_chars(&mut out, &parts[3]);
        }
        out.append(".jar");
        assert(out@ =~= maven_path(name@));
        out
    }

    /// The classifier of this library's native files on `platform`.
    pub fn native_classifier(&self, platform: Platform) -> (r: String)
        ensures
            r@ == native_key(*self, platform),
    {
        let os = rules::current_os(platform);
        let found = match &self.natives {
            Some(ns) => match find_key(ns, os) {
                Some(i) => {
                    let bits = if platform.arch == HostArch::X86_64 {
                        "64"
                    } else {
                        "32"
                    };
                    proof {
                        reveal_strlit("${arch}");
                    }
                    Some(text::replace(ns[i].1.as_str(), "${arch}", bits))
                },
                None => None,
            },
            None => None,
        };
        match found {
            Some(k) => k,
            None => text::concat2("natives-", os),
        }
    }

    /// The download that puts this library below `libraries_dir`, if the
    /// library says where it comes from.
    pub fn to_download_item(&self, libraries_dir: &str, platform: Platform) -> (r: Option<
        DownloadItem,
    >)
        ensures
            match r {
                Some(i) => library_item(*self, libraries_dir@, platform) == Some(i@),
                None => library_item(*self, libraries_dir@, platform) is None,
            },
    {
        match &self.downloads {
            Some(d) => {
                match &d.artifact {
                    Some(a) => {
                        return Some(make_file_item(a, self.name.as_str(), libraries_dir));
                    },
                    None => {},
                }
                match &d.classifiers {
                    Some(cl) => {
                        let key = self.native_classifier(platform);
                        match find_key(cl, key.as_str()) {
                            Some(i) => {
                                return Some(
                                    make_file_item(&cl[i].1, self.name.as_str(), libraries_dir),
                                );
                            },
                            None => {},
                        }
                    },
                    None => {},
                }
            },
            None => {},
        }
        match &self.url {
            Some(base) => {
                let rel = Library::maven_to_path(self.name.as_str());
                let trimmed = paths::trim_trailing_slashes(base.as_str());
                let full = text::concat3(trimmed.as_str(), "/", rel.as_str());
                let dest = paths::join(libraries_dir, rel.as_str());
                Some(DownloadItem::new(full.as_str(), dest.as_str()))
            },
            None => None,
        }
    }
}

// ---------------------------------------------------------------------------
// Java
// ---------------------------------------------------------------------------

/// The Java major version a version runs on: the one its metadata names,
/// else 21 for 1.20/1.21, 17 for 1.17 to 1.19, 8 before.
pub open spec fn java_major_for(java: Option<JavaVersionInfo>, id: Seq<char>) -> u32 {
    match java {
        Some(j) => j.major_version,
        None => if text::has_prefix(id, "1.20"@) || text::has_prefix(id, "1.21"@) {
            21
        } else if text::has_prefix(id, "1.17"@) || text::has_prefix(id, "1.18"@) || text::has_prefix(
            id,
            "1.19"@,
        ) {
            17
        } else {
            8
        },
    }
}

// ---------------------------------------------------------------------------
// Inheritance
// ---------------------------------------------------------------------------

/// The Java a version needs: the major its metadata names; without
/// metadata, Java 21 for ids starting with `1.20` or `1.21`, Java 17 for
/// `1.17` to `1.19`, and Java 8 for every other id.
pub proof fn java_major_by_version(java: Option<JavaVersionInfo>, id: Seq<char>)
    ensures
        java matches Some(j) ==> java_major_for(java, id) == j.major_version,
        java is None && (text::has_prefix(id, "1.20"@) || text::has_prefix(id, "1.21"@))
            ==> java_major_for(java, id) == 21,
        java is None && (text::has_prefix(id, "1.17"@) || text::has_prefix(id, "1.18"@)
            || text::has_prefix(id, "1.19"@)) ==> java_major_for(java, id) == 17,
        java is None && !(text::has_prefix(id, "1.17"@) || text::has_prefix(id, "1.18"@)
            || text::has_prefix(id, "1.19"@) || text::has_prefix(id, "1.20"@) || text::has_prefix(
            id,
            "1.21"@,
        )) ==> java_major_for(java, id) == 8,
{
    reveal_strlit("1.17");
    reveal_strlit("1.18");
    reveal_strlit("1.19");
    reveal_strlit("1.20");
    reveal_strlit("1.21");
    if java is None && (text::has_prefix(id, "1.17"@) || text::has_prefix(id, "1.18"@)
        || text::has_prefix(id, "1.19"@)) {
        assert(id.subrange(0, 4)[2] == id[2] && id.subrange(0, 4)[3] == id[3]);
        assert(!text::has_prefix(id, "1.20"@)) by {
            if text::has_prefix(id, "1.20"@) {
                assert(id.subrange(0, 4)[2] == '2');
            }
        }
        assert(!text::has_prefix(id, "1.21"@)) by {
            if text::has_prefix(id, "1.21"@) {
                assert(id.subrange(0, 4)[2] == '2');
            }
        }
    }
}

/// Inheriting a field keeps the version's own value when it has one and
/// takes the parent's only where it has none: a legacy loader profile keeps
/// its own downloads, asset index, Java and `minecraftArguments` (with its
/// `--tweakClass`), whatever the vanilla parent has.
pub proof fn inherit_keeps_own<T>(own: Option<T>, parent: Option<T>)
    ensures
        own matches Some(o) ==> inherit(own, parent) == Some(o),
        own is None ==> inherit(own, parent) == parent,
{
}

/// Names of a list of libraries.
pub open spec fn lib_names(libs: Seq<Library>) -> Seq<Seq<char>> {
    libs.map_values(|l: Library| l.name@)
}

/// `existing` followed by each library of `parent` whose name is not yet
/// present, in order.
pub open spec fn merge_libraries(existing: Seq<Library>, parent: Seq<Library>) -> Seq<Library>
    decreases parent.len(),
{
    if parent.len() == 0 {
        existing
    } else {
        let before = merge_libraries(existing, parent.drop_last());
        if lib_names(before).contains(parent.last().name@) {
            before
        } else {
            before.push(parent.last())
        }
    }
}

/// A field of the child, or the parent's when the child has none.
pub open spec fn inherit<T>(own: Option<T>, parent: Option<T>) -> Option<T> {
    if own is None {
        parent
    } else {
        own
    }
}

/// Argument lists after inheriting: the parent's before the child's.
pub open spec fn merge_arguments(own: Option<VersionArguments>, parent: Option<VersionArguments>) -> Option<(Seq<ArgumentValue>, Seq<ArgumentValue>)> {
    match parent {
        Some(p) => match own {
            Some(o) => Some((p.game@ + o.game@, p.jvm@ + o.jvm@)),
            None => Some((p.game@, p.jvm@)),
        },
        None => match own {
            Some(o) => Some((o.game@, o.jvm@)),
            None => None,
        },
    }
}

/// Merged argument lists put the parent's arguments first and the
/// version's own after them; a side without arguments adds nothing.
pub proof fn parent_arguments_come_first(
    own: Option<VersionArguments>,
    parent: Option<VersionArguments>,
)
    ensures
        own is Some && parent is Some ==> merge_arguments(own, parent) == Some(
            (parent->0.game@ + own->0.game@, parent->0.jvm@ + own->0.jvm@),
        ),
        own is Some && parent is None ==> merge_arguments(own, parent) == Some(
            (own->0.game@, own->0.jvm@),
        ),
        own is None && parent is Some ==> merge_arguments(own, parent) == Some(
            (parent->0.game@, parent->0.jvm@),
        ),
        own is None && parent is None ==> merge_arguments(own, parent) is None,
{
}

pub open spec fn arguments_view(a: Option<VersionArguments>) -> Option<(Seq<ArgumentValue>, Seq<ArgumentValue>)> {
    match a {
        Some(x) => Some((x.game@, x.jvm@)),
        None => None,
    }
}

fn has_library_named(libs: &Vec<Library>, name: &str) -> (r: bool)
    ensures
        r == lib_names(libs@).contains(name@),
{
    let mut i: usize = 0;
    while i < libs.len()
        invariant
            i <= libs@.len(),
            forall|j: int| 0 <= j < i ==> libs@[j].name@ != name@,
        decreases libs@.len() - i,
    {
        if text::str_eq(libs[i].name.as_str(), name) {
            assert(lib_names(libs@)[i as int] == name@);
            return true;
        }
        i = i + 1;
    }
    assert(!lib_names(libs@).contains(name@)) by {
        if lib_names(libs@).contains(name@) {
            let j = choose|j: int| 0 <= j < lib_names(libs@).len() && lib_names(libs@)[j] == name@;
            assert(libs@[j].name@ == name@);
        }
    }
    false
}

fn append_values(dst: &mut Vec<ArgumentValue>, src: Vec<ArgumentValue>)
    ensures
        final(dst)@ == old(dst)@ + src@,
{
    let mut s = src;
    dst.append(&mut s);
}

impl VersionDetails {
    /// The Java major version this version runs on.
    pub fn required_java_major(&self) -> (r: u32)
        ensures
            r == java_major_for(self.java_version, self.id@),
    {
        match &self.java_version {
            Some(j) => j.major_version,
            None => {
                let id = self.id.as_str();
                if text::starts_with(id, "1.20") || text::starts_with(id, "1.21") {
                    21
                } else if text::starts_with(id, "1.17") || text::starts_with(id, "1.18")
                    || text::starts_with(id, "1.19") {
                    17
                } else {
                    8
                }
            },
        }
    }

    /// Completes this version with the one it inherits from: missing
    /// downloads, asset index, Java and legacy arguments come from the parent;
    /// the parent's argument lists go before this version's; the parent's
    /// libraries are appended unless a library of that name is already there.
    #[verifier::loop_isolation(false)]
    pub fn merge_parent(&mut self, parent: VersionDetails)
        ensures
            final(self).id == old(self).id,
            final(self).main_class == old(self).main_class,
            final(self).inherits_from == old(self).inherits_from,
            final(self).downloads == inherit(old(self).downloads, parent.downloads),
            final(self).asset_index == inherit(old(self).asset_index, parent.asset_index),
            final(self).java_version == inherit(old(self).java_version, parent.java_version),
            final(self).minecraft_arguments == inherit(
                old(self).minecraft_arguments,
                parent.minecraft_arguments,
            ),
            old(self).downloads is Some ==> final(self).downloads == old(self).downloads,
            old(self).asset_index is Some ==> final(self).asset_index == old(self).asset_index,
            old(self).java_version is Some ==> final(self).java_version == old(self).java_version,
            old(self).minecraft_arguments is Some ==> final(self).minecraft_arguments == old(
                self,
            ).minecraft_arguments,
            old(self).downloads is None ==> final(self).downloads == parent.downloads,
            old(self).asset_index is None ==> final(self).asset_index == parent.asset_index,
            old(self).java_version is None ==> final(self).java_version == parent.java_version,
            old(self).minecraft_arguments is None ==> final(self).minecraft_arguments
                == parent.minecraft_arguments,
            arguments_view(final(self).arguments) == merge_arguments(
                old(self).arguments,
                parent.arguments,
            ),
            final(self).libraries@ == merge_libraries(old(self).libraries@, parent.libraries@),
    {
        let VersionDetails {
            id: _,
            downloads: p_downloads,
            asset_index: p_asset_index,
            libraries: p_libraries,
            main_class: _,
            arguments: p_arguments,
            minecraft_arguments: p_minecraft_arguments,
            java_version: p_java_version,
            inherits_from: _,
        } = parent;
        if self.downloads.is_none() {
            self.downloads = p_downloads;
        }
        if self.asset_index.is_none() {
            self.asset_index = p_asset_index;
        }
        if self.java_version.is_none() {
            self.java_version = p_java_version;
        }
        if self.minecraft_arguments.is_none() {
            self.minecraft_arguments = p_minecraft_arguments;
        }
        match p_arguments {
            Some(pa) => {
                let own = self.arguments.take();
                match own {
                    Some(mine) => {
                        let VersionArguments { game: mut game, jvm: mut jvm } = pa;
                        append_values(&mut game, mine.game);
                        append_values(&mut jvm, mine.jvm);
                        self.arguments = Some(VersionArguments { game, jvm });
                    },
                    None => {
                        self.arguments = Some(pa);
                    },
                }
            },
            None => {},
        }
        let ghost existing = self.libraries@;
        let ghost snap = *self;
        let ghost parent_libs = p_libraries@;
        let total: usize = p_libraries.len();
        let mut rest = p_libraries;
        let mut k: usize = 0;
        while rest.len() > 0
            invariant
                total == parent_libs.len(),
                self.id == snap.id,
                self.main_class == snap.main_class,
                self.inherits_from == snap.inherits_from,
                self.downloads == snap.downloads,
                self.asset_index == snap.asset_index,
                self.java_version == snap.java_version,
                self.minecraft_arguments == snap.minecraft_arguments,
                self.arguments == snap.arguments,
                k + rest@.len() == parent_libs.len(),
                rest@ == parent_libs.subrange(k as int, parent_libs.len() as int),
                self.libraries@ == merge_libraries(existing, parent_libs.subrange(0, k as int)),
            decreases rest@.len(),
        {
            let lib = rest.remove(0);
            proof {
                assert(parent_libs.subrange(0, k + 1).drop_last() =~= parent_libs.subrange(0, k as int));
                assert(parent_libs.subrange(0, k + 1).last() == lib);
            }
            if !has_library_named(&self.libraries, lib.name.as_str()) {
                self.libraries.push(lib);
            }
            k = k + 1;
            assert(rest@ =~= parent_libs.subrange(k as int, parent_libs.len() as int));
        }
        assert(parent_libs.subrange(0, parent_libs.len() as int) =~= parent_libs);
    }
}

/// Merging never drops or reorders the child's libraries, takes a parent
/// library exactly when no library of that name came before it, and so
/// leaves every name once when the child's names were distinct.
pub proof fn merge_libraries_laws(existing: Seq<Library>, parent: Seq<Library>)
    ensures
        merge_libraries(existing, parent).len() >= existing.len(),
        merge_libraries(existing, parent).subrange(0, existing.len() as int) == existing,
        forall|n: Seq<char>|
            lib_names(merge_libraries(existing, parent)).contains(n) <==> (lib_names(
                existing,
            ).contains(n) || lib_names(parent).contains(n)),
        lib_names(existing).no_duplicates() ==> lib_names(
            merge_libraries(existing, parent),
        ).no_duplicates(),
    decreases parent.len(),
{
    if parent.len() == 0 {
        assert(existing.subrange(0, existing.len() as int) =~= existing);
    } else {
        let pre = parent.drop_last();
        let last = parent.last();
        merge_libraries_laws(existing, pre);
        let before = merge_libraries(existing, pre);
        assert(lib_names(before.push(last)) =~= lib_names(before).push(last.name@));
        assert(lib_names(parent) =~= lib_names(pre).push(last.name@));
        if !lib_names(before).contains(last.name@) {
            assert(before.push(last).subrange(0, existing.len() as int) =~= before.subrange(
                0,
                existing.len() as int,
            ));
        }
        assert forall|n: Seq<char>|
            lib_names(merge_libraries(existing, parent)).contains(n) <==> (lib_names(
                existing,
            ).contains(n) || lib_names(parent).contains(n)) by {
            if lib_names(parent).contains(n) && !lib_names(pre).contains(n) {
                let j = choose|j: int| 0 <= j < lib_names(parent).len() && lib_names(parent)[j] == n;
                if j < pre.len() {
                    assert(lib_names(pre)[j] == n);
                }
                assert(n == last.name@);
            }
            if lib_names(pre).contains(n) {
                let j = choose|j: int| 0 <= j < lib_names(pre).len() && lib_names(pre)[j] == n;
                assert(lib_names(parent)[j] == n);
            }
            if lib_names(before.push(last)).contains(n) && !lib_names(before).contains(n) {
                let j = choose|j: int|
                    0 <= j < lib_names(before.push(last)).len() && lib_names(before.push(last))[j]
                        == n;
                if j < before.len() {
                    assert(lib_names(before)[j] == n);
                }
                assert(n == last.name@);
                assert(lib_names(parent)[parent.len() - 1] == n);
            }
            if lib_names(before).contains(n) && !lib_names(before).contains(last.name@) {
                let j = choose|j: int| 0 <= j < lib_names(before).len() && lib_names(before)[j] == n;
                assert(lib_names(before.push(last))[j] == n);
            }
            if n == last.name@ && !lib_names(before).contains(last.name@) {
                assert(lib_names(before.push(last))[before.len() as int] == n);
            }
        }
        if lib_names(existing).no_duplicates() && !lib_names(before).contains(last.name@) {
            assert forall|a: int, b: int|
                0 <= a < lib_names(before.push(last)).len() && 0 <= b < lib_names(
                    before.push(last),
                ).len() && a != b implies lib_names(before.push(last))[a] != lib_names(
                before.push(last),
            )[b] by {
                if a == before.len() {
                    assert(lib_names(before)[b] == lib_names(before.push(last))[b]);
                } else if b == before.len() {
                    assert(lib_names(before)[a] == lib_names(before.push(last))[a]);
                } else {
                    assert(lib_names(before)[a] == lib_names(before.push(last))[a]);
                    assert(lib_names(before)[b] == lib_names(before.push(last))[b]);
                }
            }
        }
    }
}

// ---------------------------------------------------------------------------
// Natives
// ---------------------------------------------------------------------------

/// The extension of a file name (`Path::extension`): what follows its last
/// `.`, unless that dot starts the name.
pub open spec fn extension(name: Seq<char>) -> Seq<char> {
    match paths::last_index_of(name, '.') {
        Some(k) => if k > 0 {
            name.subrange(k + 1, name.len() as int)
        } else {
            Seq::<char>::empty()
        },
        None => Seq::<char>::empty(),
    }
}

/// Whether a file with extension `ext` is a native library on `os`.
pub open spec fn is_native_ext(ext: Seq<char>, os: HostOs) -> bool {
    match os {
        HostOs::Windows => ext == "dll"@,
        HostOs::MacOs => ext == "dylib"@ || ext == "jnilib"@,
        HostOs::Linux => ext == "so"@,
    }
}

/// The file name under which a natives-jar entry is extracted, or `None`
/// when the entry is skipped: metadata (`META-INF…`), hidden entries and
/// files that are not native libraries of `platform`.
pub open spec fn native_target(entry: Seq<char>, platform: Platform) -> Option<Seq<char>> {
    if text::has_prefix(entry, "META-INF"@) || text::has_prefix(entry, "."@) {
        None
    } else if is_native_ext(extension(paths::file_name(entry)), platform.os) {
        Some(paths::file_name(entry))
    } else {
        None
    }
}

impl VersionDetails {
    /// The file name a natives-jar entry is extracted under, if it is.
    pub fn native_entry_target(entry_name: &str, platform: Platform) -> (r: Option<String>)
        ensures
            match r {
                Some(n) => native_target(entry_name@, platform) == Some(n@),
                None => native_target(entry_name@, platform) is None,
            },
    {
        if text::starts_with(entry_name, "META-INF") || text::starts_with(entry_name, ".") {
            return None;
        }
        let name = paths::file_name_of(entry_name);
        let nv = text::chars_of(name.as_str());
        let ghost ext_spec = extension(name@);
        proof {
            paths::lemma_last_index(nv@, '.');
        }
        let ext: String = match paths::last_index_in(&nv, '.') {
            Some(k) => if k > 0 {
                text::slice_string(&nv, k + 1, nv.len())
            } else {
                String::new()
            },
            None => String::new(),
        };
        assert(ext@ =~= ext_spec);
        let e = ext.as_str();
        let native = match platform.os {
            HostOs::Windows => text::str_eq(e, "dll"),
            HostOs::MacOs => text::str_eq(e, "dylib") || text::str_eq(e, "jnilib"),
            HostOs::Linux => text::str_eq(e, "so"),
        };
        if native {
            Some(name)
        } else {
            None
        }
    }
}

} // verus!
