//! The mods page: installed mods, the search on a mod site, and which search
//! results are being downloaded or are already installed.

use vstd::prelude::*;
use crate::mods::{LocalMod, ModSearchResult, ModSource};
use crate::text;

verus! {

/// The part of the page that is shown.
#[derive(Debug, Clone, Copy, PartialEq, Eq, Structural)]
pub enum ModsSubTab {
    Local,
    Search,
}

impl Default for ModsSubTab {
    fn default() -> (r: Self)
        ensures
            r == ModsSubTab::Local,
    {
        ModsSubTab::Local
    }
}

/// The state of the mods page. `installing_ids` and `installed_titles` are
/// sets: no text occurs twice in either.
#[derive(Debug, Clone)]
pub struct ModsPage {
    pub sub_tab: ModsSubTab,
    pub search_provider: ModSource,
    pub search_query: String,
    pub is_searching: bool,
    pub search_results: Vec<ModSearchResult>,
    pub local_mods: Vec<LocalMod>,
    pub installing_ids: Vec<String>,
    pub installed_titles: Vec<String>,
    pub status_message: Option<(String, bool)>,
}

/// The texts of a list of strings.
pub open spec fn texts(v: Seq<String>) -> Seq<Seq<char>> {
    v.map_values(|s: String| s@)
}

/// No text occurs twice.
pub open spec fn distinct(v: Seq<String>) -> bool {
    forall|i: int, j: int| 0 <= i < j < v.len() ==> #[trigger] v[i]@ != #[trigger] v[j]@
}

/// Whether a search result is shown as downloading, installed, or ready to
/// download.
#[derive(Debug, Clone, Copy, PartialEq, Eq, Structural)]
pub enum InstallState {
    Downloading,
    Installed,
    Available,
}

/// A search result counts as installed: its lower-case title was installed
/// from the page, or an installed mod's lower-case name is or contains it.
pub open spec fn installed(page: ModsPage, item: ModSearchResult) -> bool {
    let t = text::unicode_lowercase(item.title@);
    ||| texts(page.installed_titles@).contains(t)
    ||| exists|k: int|
        0 <= k < page.local_mods@.len() && ({
            let n = text::unicode_lowercase(#[trigger] page.local_mods@[k].name@);
            n == t || text::contains_seq(n, t)
        })
}

pub open spec fn install_state(page: ModsPage, item: ModSearchResult) -> InstallState {
    if texts(page.installing_ids@).contains(item.id@) {
        InstallState::Downloading
    } else if installed(page, item) {
        InstallState::Installed
    } else {
        InstallState::Available
    }
}

/// The search tab's label for a mod site.
pub open spec fn search_label_text(p: ModSource) -> Seq<char> {
    match p {
        ModSource::Modrinth => "ПОИСК (MODRINTH)"@,
        ModSource::CurseForge => "ПОИСК (CURSEFORGE)"@,
        ModSource::Local => "ПОИСК МОДОВ"@,
    }
}

/// The search field's hint for a mod site.
pub open spec fn search_hint_text(p: ModSource) -> Seq<char> {
    match p {
        ModSource::Modrinth => "🔍 Поиск в Modrinth..."@,
        ModSource::CurseForge => "🔍 Поиск в CurseForge..."@,
        ModSource::Local => "🔍 Поиск модов..."@,
    }
}

/// The name of a mod site.
pub open spec fn source_name(p: ModSource) -> Seq<char> {
    match p {
        ModSource::Modrinth => "Modrinth"@,
        ModSource::CurseForge => "CurseForge"@,
        ModSource::Local => "Local"@,
    }
}

/// Whether `v` holds `s`.
fn holds(v: &Vec<String>, s: &str) -> (r: bool)
    ensures
        r == texts(v@).contains(s@),
{
    let n: usize = v.len();
    let mut i: usize = 0;
    while i < n
        invariant
            n == v@.len(),
            i <= n,
            forall|j: int| 0 <= j < i ==> v@[j]@ != s@,
        decreases n - i,
    {
        if text::str_eq(v[i].as_str(), s) {
            assert(texts(v@)[i as int] == s@);
            return true;
        }
        i = i + 1;
    }
    proof {
        if texts(v@).contains(s@) {
            let j = choose|j: int| 0 <= j < texts(v@).len() && texts(v@)[j] == s@;
            assert(v@[j]@ == s@);
        }
    }
    false
}

impl Default for ModsPage {
    fn default() -> (r: Self)
        ensures
            r.sub_tab == ModsSubTab::Local,
            r.search_provider == ModSource::Modrinth,
            r.search_query@.len() == 0,
            !r.is_searching,
            r.search_results@.len() == 0,
            r.local_mods@.len() == 0,
            r.installing_ids@.len() == 0,
            r.installed_titles@.len() == 0,
            r.status_message is None,
    {
        ModsPage {
            sub_tab: ModsSubTab::Local,
            search_provider: ModSource::Modrinth,
            search_query: String::new(),
            is_searching: false,
            search_results: Vec::new(),
            local_mods: Vec::new(),
            installing_ids: Vec::new(),
            installed_titles: Vec::new(),
            status_message: None,
        }
    }
}

impl ModsPage {
    /// Whether a search result counts as installed.
    pub fn is_installed(&self, item: &ModSearchResult) -> (r: bool)
        ensures
            r == installed(*self, *item),
    {
        let t = text::to_lowercase(item.title.as_str());
        if holds(&self.installed_titles, t.as_str()) {
            return true;
        }
        let n: usize = self.local_mods.len();
        let mut k: usize = 0;
        while k < n
            invariant
                n == self.local_mods@.len(),
                k <= n,
                t@ == text::unicode_lowercase(item.title@),
                !texts(self.installed_titles@).contains(t@),
                forall|j: int|
                    0 <= j < k ==> {
                        let m = text::unicode_lowercase(#[trigger] self.local_mods@[j].name@);
                        !(m == t@ || text::contains_seq(m, t@))
                    },
            decreases n - k,
        {
            let name = text::to_lowercase(self.local_mods[k].name.as_str());
            if text::str_eq(name.as_str(), t.as_str()) || text::contains(name.as_str(), t.as_str()) {
                return true;
            }
            k = k + 1;
        }
        false
    }

    /// How a search result is shown.
    pub fn install_state(&self, item: &ModSearchResult) -> (r: InstallState)
        ensures
            r == install_state(*self, *item),
    {
        if holds(&self.installing_ids, item.id.as_str()) {
            InstallState::Downloading
        } else if self.is_installed(item) {
            InstallState::Installed
        } else {
            InstallState::Available
        }
    }

    /// Marks a search result as downloading.
    pub fn start_install(&mut self, item: &ModSearchResult)
        requires
            distinct(old(self).installing_ids@),
        ensures
            distinct(final(self).installing_ids@),
            texts(final(self).installing_ids@).to_set() == texts(old(self).installing_ids@).to_set().insert(
                item.id@,
            ),
            final(self).installed_titles == old(self).installed_titles,
            final(self).local_mods == old(self).local_mods,
            final(self).search_results == old(self).search_results,
    {
        let ghost before = self.installing_ids@;
        if holds(&self.installing_ids, item.id.as_str()) {
            assert(texts(before).to_set() =~= texts(before).to_set().insert(item.id@));
            return;
        }
        self.installing_ids.push(text::owned(item.id.as_str()));
        assert(texts(self.installing_ids@) =~= texts(before).push(item.id@));
        assert forall|a: Seq<char>| #[trigger] texts(self.installing_ids@).contains(a) <==> (texts(
            before,
        ).contains(a) || a == item.id@) by {
            if texts(self.installing_ids@).contains(a) {
                let j = choose|j: int|
                    0 <= j < texts(self.installing_ids@).len() && texts(self.installing_ids@)[j] == a;
                if j < before.len() {
                    assert(texts(before)[j] == a);
                }
            }
            if texts(before).contains(a) {
                let j = choose|j: int| 0 <= j < texts(before).len() && texts(before)[j] == a;
                assert(texts(self.installing_ids@)[j] == a);
            }
            if a == item.id@ {
                assert(texts(self.installing_ids@)[before.len() as int] == a);
            }
        }
        assert(texts(self.installing_ids@).to_set() =~= texts(before).to_set().insert(item.id@));
        assert forall|i: int, j: int| 0 <= i < j < self.installing_ids@.len() implies #[trigger] self.installing_ids@[i]@
            != #[trigger] self.installing_ids@[j]@ by {
            if j == before.len() {
                assert(texts(before)[i] == before[i]@);
            }
        }
    }

    /// Records that an installed mod was switched on or off and moved to
    /// `new_path`.
    pub fn toggle_applied(&mut self, idx: usize, new_path: String)
        requires
            idx < old(self).local_mods@.len(),
        ensures
            final(self).local_mods@.len() == old(self).local_mods@.len(),
            forall|k: int|
                0 <= k < old(self).local_mods@.len() && k != idx ==> #[trigger] final(self).local_mods@[k]
                    == old(self).local_mods@[k],
            final(self).local_mods@[idx as int] == (LocalMod {
                path: new_path,
                enabled: !old(self).local_mods@[idx as int].enabled,
                ..old(self).local_mods@[idx as int]
            }),
    {
        let enabled = self.local_mods[idx].enabled;
        self.local_mods[idx].path = new_path;
        self.local_mods[idx].enabled = !enabled;
    }

    /// Forgets an installed mod that was deleted.
    pub fn remove_local(&mut self, idx: usize)
        requires
            idx < old(self).local_mods@.len(),
        ensures
            final(self).local_mods@ == old(self).local_mods@.remove(idx as int),
    {
        self.local_mods.remove(idx);
    }
}

/// The search tab's label.
pub fn search_label(p: ModSource) -> (r: &'static str)
    ensures
        r@ == search_label_text(p),
{
    match p {
        ModSource::Modrinth => "ПОИСК (MODRINTH)",
        ModSource::CurseForge => "ПОИСК (CURSEFORGE)",
        ModSource::Local => "ПОИСК МОДОВ",
    }
}

/// The search field's hint.
pub fn search_hint(p: ModSource) -> (r: &'static str)
    ensures
        r@ == search_hint_text(p),
{
    match p {
        ModSource::Modrinth => "🔍 Поиск в Modrinth...",
        ModSource::CurseForge => "🔍 Поиск в CurseForge...",
        ModSource::Local => "🔍 Поиск модов...",
    }
}

/// The name of a mod site.
pub fn source_tag(p: ModSource) -> (r: &'static str)
    ensures
        r@ == source_name(p),
{
    match p {
        ModSource::Modrinth => "Modrinth",
        ModSource::CurseForge => "CurseForge",
        ModSource::Local => "Local",
    }
}

} // verus!
