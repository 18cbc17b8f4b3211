//! CurseForge (through the curse.tools proxy): the search and file queries
//! the launcher sends, and how the replies become search results and the
//! file to download.

use vstd::prelude::*;
use crate::download::{opt_view, owned_opt};
use crate::error::LauncherError;
use crate::modrinth::{given, opt_str};
use crate::mods::{ModCategory, ModDownloadFile, ModSearchResult, ModSource};
use crate::text;

verus! {

pub open spec fn api_base() -> Seq<char> {
    "https://api.curse.tools/v1/cf"@
}

/// CurseForge's id of the game.
pub const GAME_ID: u32 = 432;

/// CurseForge's id of a mod loader, by name in any case.
pub open spec fn loader_id(loader: Seq<char>) -> Option<u32> {
    let l = text::unicode_lowercase(loader);
    if l == "forge"@ {
        Some(1)
    } else if l == "fabric"@ {
        Some(4)
    } else if l == "quilt"@ {
        Some(5)
    } else if l == "neoforge"@ {
        Some(6)
    } else {
        None
    }
}

/// CurseForge's loader ids: Forge 1, Fabric 4, Quilt 5, NeoForge 6, by the
/// lower-case name; other loaders have none; and two loaders with an id have
/// the same id only when their names agree.
pub proof fn loader_ids(a: Seq<char>, b: Seq<char>)
    ensures
        text::unicode_lowercase(a) == "forge"@ ==> loader_id(a) == Some(1u32),
        text::unicode_lowercase(a) == "fabric"@ ==> loader_id(a) == Some(4u32),
        text::unicode_lowercase(a) == "quilt"@ ==> loader_id(a) == Some(5u32),
        text::unicode_lowercase(a) == "neoforge"@ ==> loader_id(a) == Some(6u32),
        !(text::unicode_lowercase(a) == "forge"@ || text::unicode_lowercase(a) == "fabric"@
            || text::unicode_lowercase(a) == "quilt"@ || text::unicode_lowercase(a) == "neoforge"@)
            ==> loader_id(a) is None,
        loader_id(a) is Some && loader_id(a) == loader_id(b) ==> text::unicode_lowercase(a)
            == text::unicode_lowercase(b),
{
    reveal_strlit("forge");
    reveal_strlit("fabric");
    reveal_strlit("quilt");
    reveal_strlit("neoforge");
    let la = text::unicode_lowercase(a);
    assert("forge"@ != "fabric"@) by {
        assert("forge"@.len() != "fabric"@.len());
    }
    assert("forge"@ != "quilt"@) by {
        assert("forge"@[0] != "quilt"@[0]);
    }
    assert("forge"@ != "neoforge"@) by {
        assert("forge"@.len() != "neoforge"@.len());
    }
    assert("fabric"@ != "quilt"@) by {
        assert("fabric"@.len() != "quilt"@.len());
    }
    assert("fabric"@ != "neoforge"@) by {
        assert("fabric"@.len() != "neoforge"@.len());
    }
    assert("quilt"@ != "neoforge"@) by {
        assert("quilt"@.len() != "neoforge"@.len());
    }
}

/// The filters appended to a query: the loader when CurseForge knows it,
/// the game version when it is given.
pub open spec fn filters(loader: Option<Seq<char>>, mc_version: Option<Seq<char>>) -> Seq<char> {
    let l = match loader {
        Some(n) => match loader_id(n) {
            Some(id) => "&modLoaderType="@ + text::decimal(id as nat),
            None => seq![],
        },
        None => seq![],
    };
    let v = if given(mc_version) {
        "&gameVersion="@ + mc_version.unwrap()
    } else {
        seq![]
    };
    l + v
}

pub open spec fn search_url(
    query: Seq<char>,
    loader: Option<Seq<char>>,
    mc_version: Option<Seq<char>>,
    page_size: usize,
) -> Seq<char> {
    api_base() + "/mods/search?gameId="@ + text::decimal(GAME_ID as nat) + "&pageSize="@ + text::decimal(
        page_size as nat,
    ) + "&searchFilter="@ + query + filters(loader, mc_version)
}

pub open spec fn files_url(mod_id: Seq<char>, loader: Option<Seq<char>>, mc_version: Option<Seq<char>>) -> Seq<
    char,
> {
    api_base() + "/mods/"@ + mod_id + "/files?pageSize=20"@ + filters(loader, mc_version)
}

/// One search hit as CurseForge sends it; `authors` holds the authors'
/// names and `logo` the logo's URL.
#[derive(Debug, Clone)]
pub struct SearchItem {
    pub id: u64,
    pub name: String,
    pub downloads: u64,
    pub summary: String,
    pub authors: Vec<String>,
    pub logo: Option<String>,
}

/// One file of a mod.
#[derive(Debug, Clone)]
pub struct FileItem {
    pub id: u64,
    pub file_name: String,
    pub download_url: Option<String>,
}

/// `r` is the search result made of item `h`.
pub open spec fn result_of_item(h: SearchItem, r: ModSearchResult) -> bool {
    &&& r.source == ModSource::CurseForge
    &&& r.id@ == text::decimal(h.id as nat)
    &&& r.title@ == h.name@
    &&& r.author@ == (if h.authors@.len() > 0 {
        h.authors@[0]@
    } else {
        "Unknown"@
    })
    &&& r.downloads == h.downloads
    &&& r.description@ == h.summary@
    &&& opt_view(r.icon_url) == opt_view(h.logo)
    &&& r.category == ModCategory::Mod
}

/// The search and file queries of CurseForge.
pub struct CurseForgeQueries;

impl CurseForgeQueries {
    /// CurseForge's id of a mod loader.
    pub fn loader_to_id(loader: &str) -> (r: Option<u32>)
        ensures
            r == loader_id(loader@),
    {
        proof {
            reveal_strlit("forge");
            reveal_strlit("fabric");
            reveal_strlit("quilt");
            reveal_strlit("neoforge");
        }
        let l = text::to_lowercase(loader);
        if text::str_eq(l.as_str(), "forge") {
            Some(1)
        } else if text::str_eq(l.as_str(), "fabric") {
            Some(4)
        } else if text::str_eq(l.as_str(), "quilt") {
            Some(5)
        } else if text::str_eq(l.as_str(), "neoforge") {
            Some(6)
        } else {
            None
        }
    }

    fn push_filters(url: &mut String, loader: Option<&str>, mc_version: Option<&str>)
        ensures
            final(url)@ == old(url)@ + filters(opt_str(loader), opt_str(mc_version)),
    {
        proof {
            reveal_strlit("&modLoaderType=");
            reveal_strlit("&gameVersion=");
        }
        let ghost start = url@;
        if let Some(l) = loader {
            if let Some(id) = Self::loader_to_id(l) {
                url.append("&modLoaderType=");
                text::push_decimal(url, id as u64);
            }
        }
        if let Some(v) = mc_version {
            if !v.is_empty() {
                url.append("&gameVersion=");
                url.append(v);
            }
        }
        assert(url@ =~= start + filters(opt_str(loader), opt_str(mc_version)));
    }

    /// The search query.
    pub fn search_url(query: &str, loader: Option<&str>, mc_version: Option<&str>, page_size: usize) -> (r:
        String)
        ensures
            r@ == search_url(query@, opt_str(loader), opt_str(mc_version), page_size),
    {
        proof {
            reveal_strlit("https://api.curse.tools/v1/cf");
            reveal_strlit("/mods/search?gameId=");
            reveal_strlit("&pageSize=");
            reveal_strlit("&searchFilter=");
        }
        let mut url = text::owned("https://api.curse.tools/v1/cf");
        url.append("/mods/search?gameId=");
        text::push_decimal(&mut url, GAME_ID as u64);
        url.append("&pageSize=");
        text::push_decimal(&mut url, page_size as u64);
        url.append("&searchFilter=");
        url.append(query);
        Self::push_filters(&mut url, loader, mc_version);
        url
    }

    /// The search results made of the items, in order.
    pub fn results_from_items(items: &Vec<SearchItem>) -> (r: Vec<ModSearchResult>)
        ensures
            r@.len() == items@.len(),
            forall|i: int| 0 <= i < items@.len() ==> result_of_item(items@[i], #[trigger] r@[i]),
    {
        proof {
            reveal_strlit("Unknown");
        }
        let mut out: Vec<ModSearchResult> = Vec::new();
        let n: usize = items.len();
        let mut i: usize = 0;
        while i < n
            invariant
                n == items@.len(),
                i <= n,
                out@.len() == i,
                forall|j: int| 0 <= j < i ==> result_of_item(items@[j], #[trigger] out@[j]),
            decreases n - i,
        {
            let h = &items[i];
            let author = if h.authors.len() > 0 {
                text::owned(h.authors[0].as_str())
            } else {
                text::owned("Unknown")
            };
            out.push(
                ModSearchResult {
                    source: ModSource::CurseForge,
                    id: text::decimal_string(h.id),
                    title: text::owned(h.name.as_str()),
                    author,
                    downloads: h.downloads,
                    description: text::owned(h.summary.as_str()),
                    icon_url: owned_opt(&h.logo),
                    category: ModCategory::Mod,
                },
            );
            i = i + 1;
        }
        out
    }

    /// The file list of a mod.
    pub fn files_url(mod_id: &str, loader: Option<&str>, mc_version: Option<&str>) -> (r: String)
        ensures
            r@ == files_url(mod_id@, opt_str(loader), opt_str(mc_version)),
    {
        proof {
            reveal_strlit("https://api.curse.tools/v1/cf");
            reveal_strlit("/mods/");
            reveal_strlit("/files?pageSize=20");
        }
        let mut url = text::owned("https://api.curse.tools/v1/cf");
        url.append("/mods/");
        url.append(mod_id);
        url.append("/files?pageSize=20");
        Self::push_filters(&mut url, loader, mc_version);
        url
    }

    /// The first file listed; none is an error.
    pub fn first_file(files: Vec<FileItem>) -> (r: Result<FileItem, LauncherError>)
        ensures
            files@.len() == 0 ==> (r matches Err(LauncherError::Custom(m)) && m@
                == "No files for this Minecraft version"@),
            files@.len() > 0 ==> r == Ok::<FileItem, LauncherError>(files@[0]),
    {
        proof {
            reveal_strlit("No files for this Minecraft version");
        }
        let mut files = files;
        if files.len() == 0 {
            return Err(LauncherError::Custom(text::owned("No files for this Minecraft version")));
        }
        Ok(files.remove(0))
    }

    /// Where to ask for the download URL of a file that lists none.
    pub fn alternative_url(mod_id: &str, file_id: u64) -> (r: String)
        ensures
            r@ == api_base() + "/mods/"@ + mod_id@ + "/files/"@ + text::decimal(file_id as nat)
                + "/download-url"@,
    {
        proof {
            reveal_strlit("https://api.curse.tools/v1/cf");
            reveal_strlit("/mods/");
            reveal_strlit("/files/");
            reveal_strlit("/download-url");
        }
        let mut url = text::owned("https://api.curse.tools/v1/cf");
        url.append("/mods/");
        url.append(mod_id);
        url.append("/files/");
        text::push_decimal(&mut url, file_id);
        url.append("/download-url");
        url
    }

    /// The download of a file: its own URL, else the one the alternative
    /// query gave; with neither the author has disabled distribution.
    pub fn download_file(file: FileItem, alternative: Option<String>) -> (r: Result<
        ModDownloadFile,
        LauncherError,
    >)
        ensures
            match (file.download_url, alternative) {
                (Some(u), _) => r matches Ok(d) && d.url@ == u@,
                (None, Some(u)) => r matches Ok(d) && d.url@ == u@,
                (None, None) => r matches Err(LauncherError::Custom(m)) && m@
                    == "Mod author disabled external distribution"@,
            },
            r matches Ok(d) ==> d.filename@ == file.file_name@ && d.version@ == "latest"@
                && d.sha1 is None && d.size is None,
    {
        proof {
            reveal_strlit("Mod author disabled external distribution");
            reveal_strlit("latest");
        }
        let url = match file.download_url {
            Some(u) => u,
            None => match alternative {
                Some(u) => u,
                None => {
                    return Err(
                        LauncherError::Custom(text::owned("Mod author disabled external distribution")),
                    );
                },
            },
        };
        Ok(
            ModDownloadFile {
                filename: file.file_name,
                url,
                version: text::owned("latest"),
                sha1: None,
                size: None,
            },
        )
    }
}

} // verus!
