//! The instances page: which instances match the search text, how their
//! play time reads, and creating and editing an instance.

use vstd::prelude::*;
use crate::download::{opt_view, owned_opt};
use crate::text;
use crate::types::{Instance, LoaderType};

verus! {

/// What happened on the instances page.
#[derive(Debug, Clone)]
pub enum InstanceAction {
    /// Nothing happened.
    NoAction,
    Created(Instance),
    Updated(Instance),
    Deleted(u128),
    Selected(u128),
    Launch(u128),
}

/// The state of the instances page and of its create and edit windows.
#[derive(Debug, Clone)]
pub struct InstancesPage {
    pub search_query: String,
    pub show_create_modal: bool,
    pub new_instance_name: String,
    pub new_instance_version: String,
    pub new_instance_loader: LoaderType,
    pub new_instance_ram: u32,
    pub show_edit_modal: bool,
    pub edit_instance_id: Option<u128>,
    pub edit_instance_name: String,
    pub edit_instance_version: String,
    pub edit_instance_loader: LoaderType,
    pub edit_instance_ram: u32,
}

impl Default for InstancesPage {
    fn default() -> (r: Self)
        ensures
            r.search_query@.len() == 0,
            !r.show_create_modal,
            r.new_instance_name@ == "Новая сборка"@,
            r.new_instance_version@ == "1.20.1"@,
            r.new_instance_loader == LoaderType::Fabric,
            r.new_instance_ram == 4096,
            !r.show_edit_modal,
            r.edit_instance_id is None,
            r.edit_instance_name@.len() == 0,
            r.edit_instance_version@.len() == 0,
            r.edit_instance_loader == LoaderType::Vanilla,
            r.edit_instance_ram == 4096,
    {
        InstancesPage {
            search_query: String::new(),
            show_create_modal: false,
            new_instance_name: text::owned("Новая сборка"),
            new_instance_version: text::owned("1.20.1"),
            new_instance_loader: LoaderType::Fabric,
            new_instance_ram: 4096,
            show_edit_modal: false,
            edit_instance_id: None,
            edit_instance_name: String::new(),
            edit_instance_version: String::new(),
            edit_instance_loader: LoaderType::Vanilla,
            edit_instance_ram: 4096,
        }
    }
}

/// An instance matches a search text: the text is blank, or the lower-case
/// name, game version or loader name contains the lower-case trimmed text.
pub open spec fn matches_search(query: Seq<char>, inst: Instance) -> bool {
    let q = text::unicode_lowercase(text::trim(query));
    ||| q.len() == 0
    ||| text::contains_seq(text::unicode_lowercase(inst.name@), q)
    ||| text::contains_seq(text::unicode_lowercase(inst.game_version@), q)
    ||| text::contains_seq(text::unicode_lowercase(inst.loader.name()), q)
}

/// The positions of the matching instances, in order.
pub open spec fn matching(query: Seq<char>, instances: Seq<Instance>) -> Seq<usize>
    decreases instances.len(),
{
    if instances.len() == 0 {
        seq![]
    } else {
        let rest = matching(query, instances.drop_last());
        if matches_search(query, instances.last()) {
            rest.push((instances.len() - 1) as usize)
        } else {
            rest
        }
    }
}

/// How long an instance has been played.
pub open spec fn play_time_text(minutes: u64) -> Seq<char> {
    if minutes == 0 {
        "Не запускалась"@
    } else if minutes < 60 {
        text::decimal(minutes as nat) + " мин"@
    } else {
        text::decimal((minutes / 60) as nat) + " ч "@ + text::decimal((minutes % 60) as nat) + " мин"@
    }
}

/// The icon of a loader.
pub open spec fn loader_icon_text(l: LoaderType) -> Seq<char> {
    match l {
        LoaderType::Vanilla => "🟩"@,
        LoaderType::Fabric => "🧵"@,
        LoaderType::Quilt => "🪡"@,
        LoaderType::Forge => "🔨"@,
        LoaderType::NeoForge => "⚡"@,
        LoaderType::OptiFine => "✨"@,
    }
}

/// `b` holds the same values as `a`.
pub open spec fn same_instance(a: Instance, b: Instance) -> bool {
    &&& b.id == a.id
    &&& b.name@ == a.name@
    &&& b.game_version@ == a.game_version@
    &&& b.loader == a.loader
    &&& opt_view(b.loader_version) == opt_view(a.loader_version)
    &&& opt_view(b.custom_dir) == opt_view(a.custom_dir)
    &&& b.ram_mb == a.ram_mb
    &&& b.created_at == a.created_at
    &&& b.last_played == a.last_played
    &&& b.total_played_minutes == a.total_played_minutes
}

fn copy_instance(a: &Instance) -> (r: Instance)
    ensures
        same_instance(*a, r),
{
    Instance {
        id: a.id,
        name: text::owned(a.name.as_str()),
        game_version: text::owned(a.game_version.as_str()),
        loader: a.loader,
        loader_version: owned_opt(&a.loader_version),
        custom_dir: owned_opt(&a.custom_dir),
        ram_mb: a.ram_mb,
        created_at: a.created_at,
        last_played: a.last_played,
        total_played_minutes: a.total_played_minutes,
    }
}

impl InstancesPage {
    /// Whether an instance matches the search text.
    pub fn is_match(&self, inst: &Instance) -> (r: bool)
        ensures
            r == matches_search(self.search_query@, *inst),
    {
        let t = text::trimmed(self.search_query.as_str());
        let q = text::to_lowercase(t.as_str());
        if q.as_str().is_empty() {
            return true;
        }
        let name = text::to_lowercase(inst.name.as_str());
        let version = text::to_lowercase(inst.game_version.as_str());
        let loader = text::to_lowercase(inst.loader.as_str());
        text::contains(name.as_str(), q.as_str()) || text::contains(version.as_str(), q.as_str())
            || text::contains(loader.as_str(), q.as_str())
    }

    /// The positions of the instances that match the search text.
    pub fn filtered_indices(&self, instances: &Vec<Instance>) -> (r: Vec<usize>)
        ensures
            r@ == matching(self.search_query@, instances@),
    {
        let mut out: Vec<usize> = Vec::new();
        let n: usize = instances.len();
        let mut i: usize = 0;
        while i < n
            invariant
                n == instances@.len(),
                i <= n,
                out@ == matching(self.search_query@, instances@.subrange(0, i as int)),
            decreases n - i,
        {
            assert(instances@.subrange(0, i + 1).drop_last() =~= instances@.subrange(0, i as int));
            assert(instances@.subrange(0, i + 1).last() == instances@[i as int]);
            if self.is_match(&instances[i]) {
                out.push(i);
            }
            i = i + 1;
        }
        assert(instances@.subrange(0, n as int) =~= instances@);
        out
    }

    /// Opens the edit window for an instance.
    pub fn begin_edit(&mut self, inst: &Instance)
        ensures
            final(self).edit_instance_id == Some(inst.id),
            final(self).edit_instance_name@ == inst.name@,
            final(self).edit_instance_version@ == inst.game_version@,
            final(self).edit_instance_loader == inst.loader,
            final(self).edit_instance_ram == (match inst.ram_mb {
                Some(r) => r,
                None => 4096u32,
            }),
            final(self).show_edit_modal,
            final(self).search_query == old(self).search_query,
    {
        self.edit_instance_id = Some(inst.id);
        self.edit_instance_name = text::owned(inst.name.as_str());
        self.edit_instance_version = text::owned(inst.game_version.as_str());
        self.edit_instance_loader = inst.loader;
        self.edit_instance_ram = match inst.ram_mb {
            Some(r) => r,
            None => 4096,
        };
        self.show_edit_modal = true;
    }

    /// Creates the instance described in the create window and closes it.
    pub fn create(&mut self) -> (r: Instance)
        ensures
            r.name@ == old(self).new_instance_name@,
            r.game_version@ == old(self).new_instance_version@,
            r.loader == old(self).new_instance_loader,
            r.ram_mb == Some(old(self).new_instance_ram),
            r.loader_version is None,
            r.custom_dir is None,
            r.last_played is None,
            r.total_played_minutes == 0,
            !final(self).show_create_modal,
    {
        let mut inst = Instance::new(
            self.new_instance_name.as_str(),
            self.new_instance_version.as_str(),
            self.new_instance_loader,
        );
        inst.ram_mb = Some(self.new_instance_ram);
        self.show_create_modal = false;
        inst
    }

    /// Saves the edit window into the instance being edited (when it still
    /// exists) and closes the window.
    #[verifier::loop_isolation(false)]
    pub fn save_edit(&mut self, instances: &mut Vec<Instance>) -> (r: InstanceAction)
        ensures
            !final(self).show_edit_modal,
            final(instances)@.len() == old(instances)@.len(),
            match old(self).edit_instance_id {
                None => r is NoAction && final(instances)@ == old(instances)@,
                Some(id) => if exists|k: int|
                    0 <= k < old(instances)@.len() && #[trigger] old(instances)@[k].id == id {
                    exists|k: int|
                        0 <= k < old(instances)@.len() && #[trigger] old(instances)@[k].id == id && (
                        forall|j: int| 0 <= j < k ==> old(instances)@[j].id != id) && {
                            let u = final(instances)@[k];
                            &&& u.id == id
                            &&& u.name@ == old(self).edit_instance_name@
                            &&& u.game_version@ == old(self).edit_instance_version@
                            &&& u.loader == old(self).edit_instance_loader
                            &&& u.ram_mb == Some(old(self).edit_instance_ram)
                            &&& u.created_at == old(instances)@[k].created_at
                            &&& u.total_played_minutes == old(instances)@[k].total_played_minutes
                            &&& u.loader_version == old(instances)@[k].loader_version
                            &&& u.custom_dir == old(instances)@[k].custom_dir
                            &&& u.last_played == old(instances)@[k].last_played
                            &&& (forall|j: int|
                                0 <= j < old(instances)@.len() && j != k ==> final(instances)@[j]
                                    == old(instances)@[j])
                            &&& r matches InstanceAction::Updated(v) && same_instance(u, v)
                        }
                } else {
                    r is NoAction && final(instances)@ == old(instances)@
                },
            },
    {
        self.show_edit_modal = false;
        let id = match self.edit_instance_id {
            None => {
                return InstanceAction::NoAction;
            },
            Some(id) => id,
        };
        let n: usize = instances.len();
        let mut k: usize = 0;
        assert(instances@ == old(instances)@);
        while k < n
            invariant
                n == instances@.len(),
                k <= n,
                instances@ == old(instances)@,
                forall|j: int| 0 <= j < k ==> instances@[j].id != id,
            decreases n - k,
        {
            if instances[k].id == id {
                let ghost before = instances@;
                instances[k].name = text::owned(self.edit_instance_name.as_str());
                instances[k].game_version = text::owned(self.edit_instance_version.as_str());
                instances[k].loader = self.edit_instance_loader;
                instances[k].ram_mb = Some(self.edit_instance_ram);
                let v = copy_instance(&instances[k]);
                assert(forall|j: int| 0 <= j < before.len() && j != k ==> instances@[j] == before[j]);
                assert(before[k as int].id == id);
                assert(forall|j: int| 0 <= j < k ==> old(instances)@[j].id != id);
                assert(instances@[k as int].name@ == old(self).edit_instance_name@);
                assert(same_instance(instances@[k as int], v));
                return InstanceAction::Updated(v);
            }
            k = k + 1;
        }
        InstanceAction::NoAction
    }
}

/// How long an instance has been played.
pub fn play_time_label(minutes: u64) -> (r: String)
    ensures
        r@ == play_time_text(minutes),
{
    if minutes == 0 {
        return text::owned("Не запускалась");
    }
    if minutes < 60 {
        let mut s = text::decimal_string(minutes);
        s.append(" мин");
        return s;
    }
    let mut s = text::decimal_string(minutes / 60);
    s.append(" ч ");
    text::push_decimal(&mut s, minutes % 60);
    s.append(" мин");
    s
}

/// The icon of a loader.
pub fn loader_icon(l: LoaderType) -> (r: &'static str)
    ensures
        r@ == loader_icon_text(l),
{
    match l {
        LoaderType::Vanilla => "🟩",
        LoaderType::Fabric => "🧵",
        LoaderType::Quilt => "🪡",
        LoaderType::Forge => "🔨",
        LoaderType::NeoForge => "⚡",
        LoaderType::OptiFine => "✨",
    }
}

} // verus!
