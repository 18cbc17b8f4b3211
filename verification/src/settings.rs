//! The settings page: its tabs, the JVM argument list the player edits (by
//! hand or from a garbage collector preset), and the Java path shown.

use vstd::prelude::*;
use crate::download::opt_view;
use crate::i18n::Language;
use crate::text;
use crate::types::LaunchOptions;

verus! {

/// The part of the settings page that is shown.
#[derive(Debug, Clone, Copy, PartialEq, Eq, Structural)]
pub enum SettingsSubTab {
    General,
    Java,
    Accounts,
}

impl Default for SettingsSubTab {
    fn default() -> (r: Self)
        ensures
            r == SettingsSubTab::General,
    {
        SettingsSubTab::General
    }
}

/// The state of the settings page.
#[derive(Debug, Clone)]
pub struct SettingsPage {
    pub sub_tab: SettingsSubTab,
    pub custom_jvm_arg_input: String,
}

impl Default for SettingsPage {
    fn default() -> (r: Self)
        ensures
            r.sub_tab == SettingsSubTab::General,
            r.custom_jvm_arg_input@.len() == 0,
    {
        SettingsPage { sub_tab: SettingsSubTab::General, custom_jvm_arg_input: String::new() }
    }
}

pub open spec fn texts(v: Seq<String>) -> Seq<Seq<char>> {
    v.map_values(|s: String| s@)
}

/// The flags of the G1 preset.
pub open spec fn g1gc_preset() -> Seq<Seq<char>> {
    seq![
        "-XX:+UseG1GC"@,
        "-XX:+ParallelRefProcEnabled"@,
        "-XX:MaxGCPauseMillis=200"@,
        "-XX:+UnlockExperimentalVMOptions"@,
        "-XX:+DisableExplicitGC"@,
        "-XX:+AlwaysPreTouch"@,
        "-XX:G1NewSizePercent=30"@,
        "-XX:G1MaxNewSizePercent=40"@,
        "-XX:G1ReservePercent=20"@,
        "-XX:G1HeapWastePercent=5"@,
    ]
}

/// The flags of the ZGC preset.
pub open spec fn zgc_preset() -> Seq<Seq<char>> {
    seq!["-XX:+UseZGC"@, "-XX:+AlwaysPreTouch"@, "-XX:+UnlockExperimentalVMOptions"@]
}

/// What the Java path line says: the chosen binary, or automatic detection.
pub open spec fn java_path_text(java_path: Option<Seq<char>>, lang: Language) -> Seq<char> {
    let shown = match java_path {
        Some(p) => p,
        None => match lang {
            Language::English => "Auto-detect (Adoptium OpenJDK 8 / 17 / 21)"@,
            Language::Russian => "Автоопределение (Adoptium OpenJDK 8 / 17 / 21)"@,
            Language::Ukrainian => "Автовизначення (Adoptium OpenJDK 8 / 17 / 21)"@,
        },
    };
    match lang {
        Language::English => "Current path: "@ + shown,
        Language::Russian => "Текущий путь: "@ + shown,
        Language::Ukrainian => "Поточний шлях: "@ + shown,
    }
}

fn owned_all(v: &Vec<&str>) -> (r: Vec<String>)
    ensures
        texts(r@) == v@.map_values(|s: &str| s@),
{
    let mut out: Vec<String> = Vec::new();
    let n: usize = v.len();
    let mut i: usize = 0;
    while i < n
        invariant
            n == v@.len(),
            i <= n,
            texts(out@) == v@.subrange(0, i as int).map_values(|s: &str| s@),
        decreases n - i,
    {
        let ghost before = out@;
        out.push(text::owned(v[i]));
        assert(v@.subrange(0, i + 1) =~= v@.subrange(0, i as int).push(v@[i as int]));
        assert(texts(out@) =~= texts(before).push(v@[i as int]@));
        i = i + 1;
        assert(texts(out@) =~= v@.subrange(0, i as int).map_values(|s: &str| s@));
    }
    assert(v@.subrange(0, n as int) =~= v@);
    out
}

impl SettingsPage {
    /// Shows another tab.
    pub fn select_tab(&mut self, tab: SettingsSubTab)
        ensures
            final(self).sub_tab == tab,
            final(self).custom_jvm_arg_input == old(self).custom_jvm_arg_input,
    {
        self.sub_tab = tab;
    }

    /// Adds the typed JVM argument (trimmed) and empties the field; a blank
    /// argument changes nothing.
    pub fn add_jvm_arg(&mut self, options: &mut LaunchOptions)
        ensures
            text::trim(old(self).custom_jvm_arg_input@).len() == 0 ==> *final(options) == *old(options)
                && *final(self) == *old(self),
            text::trim(old(self).custom_jvm_arg_input@).len() > 0 ==> texts(
                final(options).custom_jvm_args@,
            ) == texts(old(options).custom_jvm_args@).push(
                text::trim(old(self).custom_jvm_arg_input@),
            ) && final(self).custom_jvm_arg_input@.len() == 0,
            final(options).memory_min_mb == old(options).memory_min_mb,
            final(options).memory_max_mb == old(options).memory_max_mb,
            final(options).java_path == old(options).java_path,
            final(self).sub_tab == old(self).sub_tab,
    {
        let t = text::trimmed(self.custom_jvm_arg_input.as_str());
        if t.as_str().is_empty() {
            return;
        }
        let ghost before = options.custom_jvm_args@;
        options.custom_jvm_args.push(t);
        assert(texts(options.custom_jvm_args@) =~= texts(before).push(
            text::trim(self.custom_jvm_arg_input@),
        ));
        self.custom_jvm_arg_input = String::new();
    }
}

/// Removes one JVM argument.
pub fn remove_jvm_arg(options: &mut LaunchOptions, idx: usize)
    requires
        idx < old(options).custom_jvm_args@.len(),
    ensures
        final(options).custom_jvm_args@ == old(options).custom_jvm_args@.remove(idx as int),
        final(options).memory_min_mb == old(options).memory_min_mb,
        final(options).memory_max_mb == old(options).memory_max_mb,
        final(options).java_path == old(options).java_path,
{
    options.custom_jvm_args.remove(idx);
}

/// Replaces the JVM arguments with the G1 preset.
pub fn apply_g1gc_preset(options: &mut LaunchOptions)
    ensures
        texts(final(options).custom_jvm_args@) == g1gc_preset(),
        final(options).memory_min_mb == old(options).memory_min_mb,
        final(options).memory_max_mb == old(options).memory_max_mb,
        final(options).java_path == old(options).java_path,
{
    let flags: Vec<&str> = vec![
        "-XX:+UseG1GC",
        "-XX:+ParallelRefProcEnabled",
        "-XX:MaxGCPauseMillis=200",
        "-XX:+UnlockExperimentalVMOptions",
        "-XX:+DisableExplicitGC",
        "-XX:+AlwaysPreTouch",
        "-XX:G1NewSizePercent=30",
        "-XX:G1MaxNewSizePercent=40",
        "-XX:G1ReservePercent=20",
        "-XX:G1HeapWastePercent=5",
    ];
    let args = owned_all(&flags);
    assert(flags@.map_values(|s: &str| s@) =~= g1gc_preset());
    options.custom_jvm_args = args;
}

/// Replaces the JVM arguments with the ZGC preset.
pub fn apply_zgc_preset(options: &mut LaunchOptions)
    ensures
        texts(final(options).custom_jvm_args@) == zgc_preset(),
        final(options).memory_min_mb == old(options).memory_min_mb,
        final(options).memory_max_mb == old(options).memory_max_mb,
        final(options).java_path == old(options).java_path,
{
    let flags: Vec<&str> = vec!["-XX:+UseZGC", "-XX:+AlwaysPreTouch", "-XX:+UnlockExperimentalVMOptions"];
    let args = owned_all(&flags);
    assert(flags@.map_values(|s: &str| s@) =~= zgc_preset());
    options.custom_jvm_args = args;
}

/// Removes every JVM argument.
pub fn reset_jvm_args(options: &mut LaunchOptions)
    ensures
        final(options).custom_jvm_args@.len() == 0,
        final(options).memory_min_mb == old(options).memory_min_mb,
        final(options).memory_max_mb == old(options).memory_max_mb,
        final(options).java_path == old(options).java_path,
{
    options.custom_jvm_args.clear();
}

/// The Java path line of the settings page.
pub fn java_path_label(options: &LaunchOptions, lang: Language) -> (r: String)
    ensures
        r@ == java_path_text(opt_view(options.java_path), lang),
{
    match &options.java_path {
        Some(p) => lang.settings_java_path(p.as_str()),
        None => lang.settings_java_path(lang.settings_java_auto()),
    }
}

} // verus!
