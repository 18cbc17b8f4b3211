//! Modrinth: the search and version queries the launcher sends, and how the
//! replies become search results and the file to download.

use vstd::prelude::*;
use crate::download::{opt_view, owned_opt};
use crate::error::LauncherError;
use crate::mods::{ModCategory, ModDownloadFile, ModSearchResult, ModSource};
use crate::text;

verus! {

pub open spec fn api_base() -> Seq<char> {
    "https://api.modrinth.com/v2"@
}

/// How `serde_json` writes one character inside a string: `"` and `\`
/// behind a backslash, the short escapes for backspace, tab, line feed, form
/// feed and carriage return, other control characters as `\u00xx` with
/// lower-case hex digits, and every other character as it is.
pub open spec fn json_escape(c: char) -> Seq<char> {
    if c == '"' {
        seq!['\\', '"']
    } else if c == '\\' {
        seq!['\\', '\\']
    } else if (c as u32) == 8 {
        seq!['\\', 'b']
    } else if (c as u32) == 9 {
        seq!['\\', 't']
    } else if (c as u32) == 10 {
        seq!['\\', 'n']
    } else if (c as u32) == 12 {
        seq!['\\', 'f']
    } else if (c as u32) == 13 {
        seq!['\\', 'r']
    } else if (c as u32) < 32 {
        seq![
            '\\',
            'u',
            '0',
            '0',
            text::hex_char(((c as u32) / 16) as nat),
            text::hex_char(((c as u32) % 16) as nat),
        ]
    } else {
        seq![c]
    }
}

/// A JSON string: the characters escaped, between double quotes.
pub open spec fn json_string(s: Seq<char>) -> Seq<char> {
    seq!['"'] + s.map_values(|c: char| json_escape(c)).flatten() + seq!['"']
}

/// JSON values separated by commas.
pub open spec fn json_join(items: Seq<Seq<char>>) -> Seq<char>
    decreases items.len(),
{
    if items.len() == 0 {
        seq![]
    } else if items.len() == 1 {
        items[0]
    } else {
        json_join(items.drop_last()) + seq![','] + items.last()
    }
}

/// A JSON array of the given values, with no spaces.
pub open spec fn json_array(items: Seq<Seq<char>>) -> Seq<char> {
    seq!['['] + json_join(items) + seq![']']
}

/// The JSON text `serde_json::to_string` makes of a list of lists of
/// strings: an array of arrays of strings, written compactly.
pub open spec fn json_of_facets(f: Seq<Seq<Seq<char>>>) -> Seq<char> {
    json_array(f.map_values(|g: Seq<Seq<char>>| json_array(g.map_values(|s: Seq<char>| json_string(s)))))
}

pub open spec fn facet_texts(f: Seq<Vec<String>>) -> Seq<Seq<Seq<char>>> {
    f.map_values(|g: Vec<String>| g@.map_values(|s: String| s@))
}

/// The facets encoded as JSON with `serde_json::to_string` (its compact
/// formatter: `[`, `,` and `]` with no spaces, and its string escapes);
/// serialising strings cannot fail.
#[verifier::external_body]
fn facets_json(facets: &Vec<Vec<String>>) -> (r: String)
    ensures
        r@ == json_of_facets(facet_texts(facets@)),
{
    serde_json::to_string(facets).unwrap_or_default()
}

/// An optional filter that is given and not empty.
pub open spec fn given(o: Option<Seq<char>>) -> bool {
    o matches Some(s) && s.len() > 0
}

pub open spec fn opt_str(o: Option<&str>) -> Option<Seq<char>> {
    match o {
        Some(s) => Some(s@),
        None => None,
    }
}

/// The search facets: mods only, then the loader's category and the game
/// version when they are given.
pub open spec fn search_facets(loader: Option<Seq<char>>, mc_version: Option<Seq<char>>) -> Seq<
    Seq<Seq<char>>,
> {
    let base = seq![seq!["project_type:mod"@]];
    let with_loader = if given(loader) {
        base.push(seq!["categories:"@ + text::unicode_lowercase(loader.unwrap())])
    } else {
        base
    };
    if given(mc_version) {
        with_loader.push(seq!["versions:"@ + mc_version.unwrap()])
    } else {
        with_loader
    }
}

/// The query parameters of a search.
pub open spec fn search_params(
    query: Seq<char>,
    loader: Option<Seq<char>>,
    mc_version: Option<Seq<char>>,
    limit: usize,
) -> Seq<(Seq<char>, Seq<char>)> {
    seq![
        ("query"@, query),
        ("facets"@, json_of_facets(search_facets(loader, mc_version))),
        ("limit"@, text::decimal(limit as nat)),
        ("index"@, "relevance"@),
    ]
}

pub open spec fn pair_texts(p: Seq<(String, String)>) -> Seq<(Seq<char>, Seq<char>)> {
    p.map_values(|q: (String, String)| (q.0@, q.1@))
}

/// One search hit as Modrinth sends it.
#[derive(Debug, Clone)]
pub struct SearchHit {
    pub slug: String,
    pub title: String,
    pub author: String,
    pub downloads: u64,
    pub description: String,
    pub icon_url: Option<String>,
}

/// A file of a project version.
#[derive(Debug, Clone)]
pub struct VersionFile {
    pub url: String,
    pub filename: String,
    pub primary: bool,
    pub size: u64,
    pub sha1: Option<String>,
}

/// A version of a project with its files.
#[derive(Debug, Clone)]
pub struct ProjectVersion {
    pub version_number: String,
    pub files: Vec<VersionFile>,
}

/// `r` is the search result made of hit `h`.
pub open spec fn result_of_hit(h: SearchHit, r: ModSearchResult) -> bool {
    &&& r.source == ModSource::Modrinth
    &&& r.id@ == h.slug@
    &&& r.title@ == h.title@
    &&& r.author@ == h.author@
    &&& r.downloads == h.downloads
    &&& r.description@ == h.description@
    &&& opt_view(r.icon_url) == opt_view(h.icon_url)
    &&& r.category == ModCategory::Mod
}

/// The query parameters of the version list of a project.
pub open spec fn version_params(loader: Option<Seq<char>>, mc_version: Option<Seq<char>>) -> Seq<
    Seq<char>,
> {
    let a = if given(mc_version) {
        seq!["game_versions=[\""@ + mc_version.unwrap() + "\"]"@]
    } else {
        seq![]
    };
    if given(loader) {
        a.push("loaders=[\""@ + text::unicode_lowercase(loader.unwrap()) + "\"]"@)
    } else {
        a
    }
}

/// Texts joined by `&`.
pub open spec fn joined_amp(p: Seq<Seq<char>>) -> Seq<char>
    decreases p.len(),
{
    if p.len() == 0 {
        seq![]
    } else if p.len() == 1 {
        p[0]
    } else {
        joined_amp(p.drop_last()) + "&"@ + p.last()
    }
}

/// The version list of a project, filtered by game version and loader.
pub open spec fn versions_url(slug: Seq<char>, loader: Option<Seq<char>>, mc_version: Option<Seq<char>>) -> Seq<
    char,
> {
    let base = api_base() + "/project/"@ + slug + "/version"@;
    let p = version_params(loader, mc_version);
    if p.len() == 0 {
        base
    } else {
        base + "?"@ + joined_amp(p)
    }
}

/// `k` is the file taken from a version: its first primary file, or its
/// first file when none is primary.
pub open spec fn chosen_file(files: Seq<VersionFile>, k: int) -> bool {
    &&& 0 <= k < files.len()
    &&& (files[k].primary && forall|j: int| 0 <= j < k ==> !#[trigger] files[j].primary) || (k
        == 0 && forall|j: int| 0 <= j < files.len() ==> !#[trigger] files[j].primary)
}

/// The download described by file `f` of a version numbered `number`.
pub open spec fn download_of(f: VersionFile, number: Seq<char>, d: ModDownloadFile) -> bool {
    &&& d.filename@ == f.filename@
    &&& d.url@ == f.url@
    &&& d.version@ == number
    &&& opt_view(d.sha1) == opt_view(f.sha1)
    &&& d.size == Some(f.size)
}

fn lowercase_opt(o: Option<&str>) -> (r: Option<String>)
    ensures
        match o {
            Some(s) => r matches Some(t) && t@ == text::unicode_lowercase(s@),
            None => r is None,
        },
{
    match o {
        Some(s) => Some(text::to_lowercase(s)),
        None => None,
    }
}

fn is_given(o: Option<&str>) -> (r: bool)
    ensures
        r == given(opt_str(o)),
{
    match o {
        Some(s) => !s.is_empty(),
        None => false,
    }
}

fn single(s: String) -> (r: Vec<String>)
    ensures
        r@.map_values(|x: String| x@) == seq![s@],
{
    let mut v: Vec<String> = Vec::new();
    v.push(s);
    assert(v@.map_values(|x: String| x@) =~= seq![s@]);
    v
}

/// The search and version queries of Modrinth.
pub struct ModrinthQueries;

impl ModrinthQueries {
    /// The search endpoint.
    pub fn search_url() -> (r: String)
        ensures
            r@ == api_base() + "/search"@,
    {
        proof {
            reveal_strlit("https://api.modrinth.com/v2");
            reveal_strlit("/search");
        }
        text::concat2("https://api.modrinth.com/v2", "/search")
    }

    /// The facets of a search.
    pub fn facets(loader: Option<&str>, mc_version: Option<&str>) -> (r: Vec<Vec<String>>)
        ensures
            facet_texts(r@) == search_facets(opt_str(loader), opt_str(mc_version)),
    {
        proof {
            reveal_strlit("project_type:mod");
            reveal_strlit("categories:");
            reveal_strlit("versions:");
        }
        let mut f: Vec<Vec<String>> = Vec::new();
        f.push(single(text::owned("project_type:mod")));
        let ghost base = facet_texts(f@);
        assert(base =~= seq![seq!["project_type:mod"@]]);
        if is_given(loader) {
            let l = lowercase_opt(loader).unwrap();
            let ghost before = f@;
            f.push(single(text::concat2("categories:", l.as_str())));
            assert(facet_texts(f@) =~= facet_texts(before).push(
                seq!["categories:"@ + text::unicode_lowercase(opt_str(loader).unwrap())],
            ));
        }
        if is_given(mc_version) {
            let v = mc_version.unwrap();
            let ghost before = f@;
            f.push(single(text::concat2("versions:", v)));
            assert(facet_texts(f@) =~= facet_texts(before).push(seq!["versions:"@ + v@]));
        }
        f
    }

    /// The query parameters of a search.
    pub fn search_params(query: &str, loader: Option<&str>, mc_version: Option<&str>, limit: usize) -> (r:
        Vec<(String, String)>)
        ensures
            pair_texts(r@) == search_params(query@, opt_str(loader), opt_str(mc_version), limit),
    {
        proof {
            reveal_strlit("query");
            reveal_strlit("facets");
            reveal_strlit("limit");
            reveal_strlit("index");
            reveal_strlit("relevance");
        }
        let f = Self::facets(loader, mc_version);
        let json = facets_json(&f);
        let mut p: Vec<(String, String)> = Vec::new();
        p.push((text::owned("query"), text::owned(query)));
        p.push((text::owned("facets"), json));
        p.push((text::owned("limit"), text::decimal_string(limit as u64)));
        p.push((text::owned("index"), text::owned("relevance")));
        assert(pair_texts(p@) =~= search_params(query@, opt_str(loader), opt_str(mc_version), limit));
        p
    }

    /// The search results made of the hits, in order.
    pub fn results_from_hits(hits: &Vec<SearchHit>) -> (r: Vec<ModSearchResult>)
        ensures
            r@.len() == hits@.len(),
            forall|i: int| 0 <= i < hits@.len() ==> result_of_hit(hits@[i], #[trigger] r@[i]),
    {
        let mut out: Vec<ModSearchResult> = Vec::new();
        let n: usize = hits.len();
        let mut i: usize = 0;
        while i < n
            invariant
                n == hits@.len(),
                i <= n,
                out@.len() == i,
                forall|j: int| 0 <= j < i ==> result_of_hit(hits@[j], #[trigger] out@[j]),
            decreases n - i,
        {
            let h = &hits[i];
            out.push(
                ModSearchResult {
                    source: ModSource::Modrinth,
                    id: text::owned(h.slug.as_str()),
                    title: text::owned(h.title.as_str()),
                    author: text::owned(h.author.as_str()),
                    downloads: h.downloads,
                    description: text::owned(h.description.as_str()),
                    icon_url: owned_opt(&h.icon_url),
                    category: ModCategory::Mod,
                },
            );
            i = i + 1;
        }
        out
    }

    /// The version list of a project, filtered by game version and loader.
    pub fn versions_url(slug_or_id: &str, loader: Option<&str>, mc_version: Option<&str>) -> (r:
        String)
        ensures
            r@ == versions_url(slug_or_id@, opt_str(loader), opt_str(mc_version)),
    {
        proof {
            reveal_strlit("https://api.modrinth.com/v2");
            reveal_strlit("/project/");
            reveal_strlit("/version");
            reveal_strlit("game_versions=[\"");
            reveal_strlit("\"]");
            reveal_strlit("loaders=[\"");
            reveal_strlit("?");
            reveal_strlit("&");
        }
        let mut url = text::owned("https://api.modrinth.com/v2");
        url.append("/project/");
        url.append(slug_or_id);
        url.append("/version");
        let ghost p = version_params(opt_str(loader), opt_str(mc_version));
        let mut q = String::new();
        let mut count: usize = 0;
        if is_given(mc_version) {
            q.append("game_versions=[\"");
            q.append(mc_version.unwrap());
            q.append("\"]");
            count = 1;
        }
        if is_given(loader) {
            if count > 0 {
                q.append("&");
            }
            let l = lowercase_opt(loader).unwrap();
            q.append("loaders=[\"");
            q.append(l.as_str());
            q.append("\"]");
            count = count + 1;
        }
        assert(count == p.len());
        proof {
            if p.len() == 1 {
                assert(q@ =~= p[0]);
            } else if p.len() == 2 {
                assert(p.drop_last() =~= seq![p[0]]);
                assert(joined_amp(p.drop_last()) == p[0]);
                assert(q@ =~= p[0] + "&"@ + p[1]);
            }
        }
        if count > 0 {
            url.append("?");
            url.append(q.as_str());
        }
        url
    }

    /// The file to download: the first version's primary file (or its first
    /// file).
    pub fn download_from_versions(versions: &Vec<ProjectVersion>) -> (r: Result<
        ModDownloadFile,
        LauncherError,
    >)
        ensures
            versions@.len() == 0 ==> (r matches Err(LauncherError::Custom(m)) && m@
                == "No compatible mod version found"@),
            versions@.len() > 0 && versions@[0].files@.len() == 0 ==> (r matches Err(
                LauncherError::Custom(m),
            ) && m@ == "Mod version has no files"@),
            versions@.len() > 0 && versions@[0].files@.len() > 0 ==> (r matches Ok(d) && exists|
                k: int,
            |
                chosen_file(versions@[0].files@, k) && download_of(
                    #[trigger] versions@[0].files@[k],
                    versions@[0].version_number@,
                    d,
                )),
    {
        proof {
            reveal_strlit("No compatible mod version found");
            reveal_strlit("Mod version has no files");
        }
        if versions.len() == 0 {
            return Err(LauncherError::Custom(text::owned("No compatible mod version found")));
        }
        let ver = &versions[0];
        let files = &ver.files;
        if files.len() == 0 {
            return Err(LauncherError::Custom(text::owned("Mod version has no files")));
        }
        let n: usize = files.len();
        let mut k: usize = 0;
        while k < n && !files[k].primary
            invariant
                n == files@.len(),
                k <= n,
                forall|j: int| 0 <= j < k ==> !#[trigger] files@[j].primary,
            decreases n - k,
        {
            k = k + 1;
        }
        if k == n {
            k = 0;
        }
        let f = &files[k];
        let d = ModDownloadFile {
            filename: text::owned(f.filename.as_str()),
            url: text::owned(f.url.as_str()),
            version: text::owned(ver.version_number.as_str()),
            sha1: owned_opt(&f.sha1),
            size: Some(f.size),
        };
        assert(chosen_file(files@, k as int));
        Ok(d)
    }
}

} // verus!
