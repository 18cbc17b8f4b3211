//! The home page: the list of game versions, filtered by channel and by
//! the search text, newest or oldest first, and the featured server.

use vstd::prelude::*;
use crate::i18n::Language;
use crate::ids;
use crate::server::ServerStatus;
use crate::text;
use crate::types::{GameVersion, ReleaseType};

verus! {

/// Which channel of versions is listed.
#[derive(Debug, Clone, Copy, PartialEq, Eq, Structural)]
pub enum FilterTab {
    All,
    Releases,
    Snapshots,
    Betas,
    Alphas,
    Old,
}

impl Default for FilterTab {
    fn default() -> (r: Self)
        ensures
            r == FilterTab::Releases,
    {
        FilterTab::Releases
    }
}

/// Which versions come first.
#[derive(Debug, Clone, Copy, PartialEq, Eq, Structural)]
pub enum SortOrder {
    Newest,
    Oldest,
}

impl Default for SortOrder {
    fn default() -> (r: Self)
        ensures
            r == SortOrder::Newest,
    {
        SortOrder::Newest
    }
}

/// The state of the home page.
#[derive(Debug, Clone)]
pub struct HomePage {
    pub search_query: String,
    pub active_filter: FilterTab,
    pub sort_order: SortOrder,
    pub featured_server: Option<ServerStatus>,
    pub is_pinging: bool,
}

impl Default for HomePage {
    fn default() -> (r: Self)
        ensures
            r.search_query@.len() == 0,
            r.active_filter == FilterTab::Releases,
            r.sort_order == SortOrder::Newest,
            r.featured_server is None,
            !r.is_pinging,
    {
        HomePage {
            search_query: String::new(),
            active_filter: FilterTab::Releases,
            sort_order: SortOrder::Newest,
            featured_server: None,
            is_pinging: false,
        }
    }
}

/// A version belongs to the listed channel.
pub open spec fn in_channel(tab: FilterTab, t: ReleaseType) -> bool {
    match tab {
        FilterTab::All => true,
        FilterTab::Releases => t == ReleaseType::Release,
        FilterTab::Snapshots => t == ReleaseType::Snapshot,
        FilterTab::Betas => t == ReleaseType::Beta,
        FilterTab::Alphas => t == ReleaseType::Alpha,
        FilterTab::Old => t == ReleaseType::Old,
    }
}

/// A version is listed: it is in the channel and, unless the search text is
/// blank, its lower-case id contains the lower-case search text.
pub open spec fn listed(tab: FilterTab, query: Seq<char>, v: GameVersion) -> bool {
    &&& in_channel(tab, v.release_type)
    &&& (text::trim(query).len() == 0 || text::contains_seq(
        text::unicode_lowercase(v.id@),
        text::unicode_lowercase(query),
    ))
}

/// Version `i` is shown before version `j`: by release time in the chosen
/// order, the earlier entry first among equal times.
pub open spec fn shown_before(versions: Seq<GameVersion>, order: SortOrder, i: int, j: int) -> bool {
    let a = versions[i].release_time;
    let b = versions[j].release_time;
    match order {
        SortOrder::Oldest => a < b || (a == b && i < j),
        SortOrder::Newest => a > b || (a == b && i < j),
    }
}

/// The icon of a channel.
pub open spec fn channel_icon(t: ReleaseType) -> Seq<char> {
    match t {
        ReleaseType::Release => "📦"@,
        ReleaseType::Snapshot => "🧪"@,
        ReleaseType::Beta => "⚙"@,
        ReleaseType::Alpha => "🔨"@,
        ReleaseType::Old => "📜"@,
    }
}

/// What the page says while the version list is still loading.
pub open spec fn loading_text(lang: Language) -> Seq<char> {
    match lang {
        Language::English => "Fetching Minecraft versions from Mojang..."@,
        Language::Russian => "Загрузка списка версий от Mojang..."@,
        Language::Ukrainian => "Завантаження списку версій від Mojang..."@,
    }
}

/// The featured server's line: a green or red dot, the host and the ping.
pub open spec fn server_text(s: ServerStatus) -> Seq<char> {
    (if s.is_online {
        "🟢"@
    } else {
        "🔴"@
    }) + " "@ + s.host@ + " • "@ + text::decimal(s.ping_ms as nat) + " мс"@
}

impl HomePage {
    /// Switches between newest first and oldest first.
    pub fn toggle_sort(&mut self)
        ensures
            final(self).sort_order == (match old(self).sort_order {
                SortOrder::Newest => SortOrder::Oldest,
                SortOrder::Oldest => SortOrder::Newest,
            }),
            final(self).search_query == old(self).search_query,
            final(self).active_filter == old(self).active_filter,
            final(self).is_pinging == old(self).is_pinging,
    {
        self.sort_order = match self.sort_order {
            SortOrder::Newest => SortOrder::Oldest,
            SortOrder::Oldest => SortOrder::Newest,
        };
    }

    /// Whether a version is listed.
    pub fn is_listed(&self, v: &GameVersion) -> (r: bool)
        ensures
            r == listed(self.active_filter, self.search_query@, *v),
    {
        let channel = match self.active_filter {
            FilterTab::All => true,
            FilterTab::Releases => v.release_type == ReleaseType::Release,
            FilterTab::Snapshots => v.release_type == ReleaseType::Snapshot,
            FilterTab::Betas => v.release_type == ReleaseType::Beta,
            FilterTab::Alphas => v.release_type == ReleaseType::Alpha,
            FilterTab::Old => v.release_type == ReleaseType::Old,
        };
        if !channel {
            return false;
        }
        let t = text::trimmed(self.search_query.as_str());
        if t.as_str().is_empty() {
            return true;
        }
        let id = text::to_lowercase(v.id.as_str());
        let q = text::to_lowercase(self.search_query.as_str());
        text::contains(id.as_str(), q.as_str())
    }

    /// The positions in `versions` of the listed versions, in the order they
    /// are shown.
    pub fn visible_versions(&self, versions: &Vec<GameVersion>) -> (r: Vec<usize>)
        ensures
            forall|k: int|
                0 <= k < r@.len() ==> #[trigger] r@[k] < versions@.len() && listed(
                    self.active_filter,
                    self.search_query@,
                    versions@[r@[k] as int],
                ),
            forall|i: int|
                0 <= i < versions@.len() && listed(
                    self.active_filter,
                    self.search_query@,
                    #[trigger] versions@[i],
                ) ==> r@.contains(i as usize),
            forall|a: int, b: int|
                0 <= a < b < r@.len() ==> shown_before(
                    versions@,
                    self.sort_order,
                    #[trigger] r@[a] as int,
                    #[trigger] r@[b] as int,
                ),
    {
        let mut out: Vec<usize> = Vec::new();
        let n: usize = versions.len();
        let mut i: usize = 0;
        while i < n
            invariant
                n == versions@.len(),
                i <= n,
                forall|k: int|
                    0 <= k < out@.len() ==> #[trigger] out@[k] < i && listed(
                        self.active_filter,
                        self.search_query@,
                        versions@[out@[k] as int],
                    ),
                forall|t: int|
                    0 <= t < i && listed(self.active_filter, self.search_query@, #[trigger] versions@[t])
                        ==> out@.contains(t as usize),
                forall|a: int, b: int|
                    0 <= a < b < out@.len() ==> shown_before(
                        versions@,
                        self.sort_order,
                        #[trigger] out@[a] as int,
                        #[trigger] out@[b] as int,
                    ),
            decreases n - i,
        {
            if self.is_listed(&versions[i]) {
                let key = versions[i].release_time;
                // Goes before the first shown version it is to be shown before.
                let mut p: usize = 0;
                while p < out.len() && !comes_first(self.sort_order, key, versions[out[p]].release_time)
                    invariant
                        p <= out@.len(),
                        forall|k: int| 0 <= k < out@.len() ==> #[trigger] out@[k] < i,
                        forall|k: int| 0 <= k < p ==> shown_before(versions@, self.sort_order, #[trigger] out@[k] as int, i as int),
                        n == versions@.len(),
                        i < n,
                        key == versions@[i as int].release_time,
                    decreases out@.len() - p,
                {
                    p = p + 1;
                }
                let ghost old_out = out@;
                proof {
                    assert forall|k: int| p <= k < old_out.len() implies shown_before(
                        versions@,
                        self.sort_order,
                        i as int,
                        #[trigger] old_out[k] as int,
                    ) by {
                        if k > p {
                            assert(shown_before(versions@, self.sort_order, old_out[p as int] as int, old_out[k] as int));
                        }
                    }
                }
                out.insert(p, i);
                assert(out@ == old_out.insert(p as int, i));
                proof {
                    assert forall|t: int|
                        0 <= t < i + 1 && listed(self.active_filter, self.search_query@, #[trigger] versions@[t])
                        implies out@.contains(t as usize) by {
                        if t < i {
                            let k = choose|k: int| 0 <= k < old_out.len() && old_out[k] == t as usize;
                            if k < p {
                                assert(out@[k] == t as usize);
                            } else {
                                assert(out@[k + 1] == t as usize);
                            }
                        } else {
                            assert(out@[p as int] == i);
                        }
                    }
                    assert forall|a: int, b: int| 0 <= a < b < out@.len() implies shown_before(
                        versions@,
                        self.sort_order,
                        #[trigger] out@[a] as int,
                        #[trigger] out@[b] as int,
                    ) by {
                        if a < p && b == p {
                        } else if a < p && b > p {
                            assert(out@[b] == old_out[b - 1]);
                        } else if a == p {
                            assert(out@[b] == old_out[b - 1]);
                        } else if b < p {
                        } else {
                            assert(out@[a] == old_out[a - 1]);
                            assert(out@[b] == old_out[b - 1]);
                        }
                    }
                }
            }
            i = i + 1;
        }
        out
    }

    /// The featured server's line.
    pub fn server_label(status: &ServerStatus) -> (r: String)
        ensures
            r@ == server_text(*status),
    {
        let mut s = if status.is_online {
            text::owned("🟢")
        } else {
            text::owned("🔴")
        };
        s.append(" ");
        s.append(status.host.as_str());
        s.append(" • ");
        text::push_decimal(&mut s, status.ping_ms);
        s.append(" мс");
        s
    }
}

/// A release time is shown strictly before another in the given order.
fn comes_first(order: SortOrder, a: i64, b: i64) -> (r: bool)
    ensures
        r == (match order {
            SortOrder::Oldest => a < b,
            SortOrder::Newest => a > b,
        }),
{
    match order {
        SortOrder::Oldest => a < b,
        SortOrder::Newest => a > b,
    }
}

/// The release date shown beside a version: day, month and year as
/// `chrono` writes them (`%d.%m.%Y`); empty for an instant `chrono` cannot
/// hold.
pub fn release_date_label(release_time: i64) -> (r: String)
    ensures
        r@ == (match ids::date_dmy(release_time) {
            Some(t) => t,
            None => seq![],
        }),
{
    match ids::format_date_dmy(release_time) {
        Some(t) => t,
        None => String::new(),
    }
}

/// The icon of a channel.
pub fn release_icon(t: ReleaseType) -> (r: &'static str)
    ensures
        r@ == channel_icon(t),
{
    match t {
        ReleaseType::Release => "📦",
        ReleaseType::Snapshot => "🧪",
        ReleaseType::Beta => "⚙",
        ReleaseType::Alpha => "🔨",
        ReleaseType::Old => "📜",
    }
}

/// What the page says while the version list is still loading.
pub fn loading_message(lang: Language) -> (r: &'static str)
    ensures
        r@ == loading_text(lang),
{
    match lang {
        Language::English => "Fetching Minecraft versions from Mojang...",
        Language::Russian => "Загрузка списка версий от Mojang...",
        Language::Ukrainian => "Завантаження списку версій від Mojang...",
    }
}

} // verus!
