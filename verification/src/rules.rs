//! Mojang's library and argument rules: a list of allow/disallow rules, each
//! restricted to an operating system, an architecture or a set of launcher
//! features; the last rule that applies decides.

use vstd::prelude::*;
use crate::text;

verus! {

/// The operating system the launcher runs on.
#[derive(Debug, Clone, Copy, PartialEq, Eq, Structural)]
pub enum HostOs {
    Windows,
    MacOs,
    Linux,
}

/// The processor architecture the launcher runs on.
#[derive(Debug, Clone, Copy, PartialEq, Eq, Structural)]
pub enum HostArch {
    X86_64,
    X86,
    Aarch64,
    Other,
}

/// Where the launcher runs.
#[derive(Debug, Clone, Copy, PartialEq, Eq, Structural)]
pub struct Platform {
    pub os: HostOs,
    pub arch: HostArch,
}

/// The operating system's name in version metadata.
pub open spec fn os_name(os: HostOs) -> Seq<char> {
    match os {
        HostOs::Windows => "windows"@,
        HostOs::MacOs => "osx"@,
        HostOs::Linux => "linux"@,
    }
}

/// The architecture's name in version metadata.
pub open spec fn arch_name(arch: HostArch) -> Seq<char> {
    match arch {
        HostArch::X86_64 => "x86_64"@,
        HostArch::X86 => "x86"@,
        HostArch::Aarch64 => "arm64"@,
        HostArch::Other => "unknown"@,
    }
}

/// The name of the operating system in version metadata.
pub fn current_os(platform: Platform) -> (r: &'static str)
    ensures
        r@ == os_name(platform.os),
{
    match platform.os {
        HostOs::Windows => "windows",
        HostOs::MacOs => "osx",
        HostOs::Linux => "linux",
    }
}

/// The name of the architecture in version metadata.
pub fn current_arch(platform: Platform) -> (r: &'static str)
    ensures
        r@ == arch_name(platform.arch),
{
    match platform.arch {
        HostArch::X86_64 => "x86_64",
        HostArch::X86 => "x86",
        HostArch::Aarch64 => "arm64",
        HostArch::Other => "unknown",
    }
}

#[derive(Debug, Clone, Copy, PartialEq, Eq, Structural)]
pub enum RuleAction {
    Allow,
    Disallow,
}

/// The operating-system condition of a rule.
#[derive(Debug, Clone)]
pub struct OsRule {
    pub name: Option<String>,
    pub arch: Option<String>,
    pub version: Option<String>,
}

/// One rule: an action and the conditions under which it applies.
#[derive(Debug, Clone)]
pub struct Rule {
    pub action: RuleAction,
    pub os: Option<OsRule>,
    pub features: Option<Vec<(String, bool)>>,
}

/// The value of feature `key` among the launcher's `features` (the first
/// entry for that key; absent features are off).
pub open spec fn feature_on(features: Seq<(String, bool)>, key: Seq<char>) -> bool
    decreases features.len(),
{
    if features.len() == 0 {
        false
    } else if features[0].0@ == key {
        features[0].1
    } else {
        feature_on(features.drop_first(), key)
    }
}

/// Whether the operating-system condition holds on `platform` (its version
/// pattern is not checked).
pub open spec fn os_matches(o: Option<OsRule>, platform: Platform) -> bool {
    match o {
        None => true,
        Some(r) => (match r.name {
            None => true,
            Some(n) => n@ == os_name(platform.os),
        }) && (match r.arch {
            None => true,
            Some(a) => a@ == arch_name(platform.arch),
        }),
    }
}

/// Whether every feature the rule names has the required value.
pub open spec fn features_match(
    required: Option<Vec<(String, bool)>>,
    features: Seq<(String, bool)>,
) -> bool {
    match required {
        None => true,
        Some(req) => forall|i: int|
            0 <= i < req@.len() ==> feature_on(features, #[trigger] req@[i].0@) == req@[i].1,
    }
}

/// Whether a rule applies.
pub open spec fn rule_applies(rule: Rule, features: Seq<(String, bool)>, platform: Platform) -> bool {
    os_matches(rule.os, platform) && features_match(rule.features, features)
}

/// The verdict after the rules `rules`: the action of the last rule that
/// applies, disallowed when none does.
pub open spec fn rules_verdict(
    rules: Seq<Rule>,
    features: Seq<(String, bool)>,
    platform: Platform,
) -> bool
    decreases rules.len(),
{
    if rules.len() == 0 {
        false
    } else if rule_applies(rules.last(), features, platform) {
        rules.last().action == RuleAction::Allow
    } else {
        rules_verdict(rules.drop_last(), features, platform)
    }
}

/// Whether something guarded by `rules` is allowed: always without rules,
/// else by the last applicable rule.
pub open spec fn rules_allow(
    rules: Option<Seq<Rule>>,
    features: Seq<(String, bool)>,
    platform: Platform,
) -> bool {
    match rules {
        None => true,
        Some(rs) => rs.len() == 0 || rules_verdict(rs, features, platform),
    }
}

fn lookup_feature(features: &Vec<(String, bool)>, key: &str) -> (r: bool)
    ensures
        r == feature_on(features@, key@),
{
    let mut i: usize = 0;
    assert(features@.subrange(0, features@.len() as int) =~= features@);
    while i < features.len()
        invariant
            i <= features@.len(),
            feature_on(features@, key@) == feature_on(features@.subrange(i as int, features@.len() as int), key@),
        decreases features@.len() - i,
    {
        let ghost rest = features@.subrange(i as int, features@.len() as int);
        assert(rest[0] == features@[i as int]);
        if text::str_eq(features[i].0.as_str(), key) {
            return features[i].1;
        }
        assert(rest.drop_first() =~= features@.subrange(i + 1, features@.len() as int));
        i = i + 1;
    }
    false
}

fn opt_eq(o: &Option<String>, expected: &str) -> (r: bool)
    ensures
        r == (match o {
            None => true,
            Some(n) => n@ == expected@,
        }),
{
    match o {
        None => true,
        Some(n) => text::str_eq(n.as_str(), expected),
    }
}

/// Whether `rule` applies on `platform` with `features`.
#[verifier::loop_isolation(false)]
pub fn rule_matches(rule: &Rule, features: &Vec<(String, bool)>, platform: Platform) -> (r: bool)
    ensures
        r == rule_applies(*rule, features@, platform),
{
    let os_ok = match &rule.os {
        None => true,
        Some(o) => opt_eq(&o.name, current_os(platform)) && opt_eq(&o.arch, current_arch(platform)),
    };
    if !os_ok {
        return false;
    }
    match &rule.features {
        None => true,
        Some(req) => {
            let mut i: usize = 0;
            while i < req.len()
                invariant
                    i <= req@.len(),
                    forall|j: int|
                        0 <= j < i ==> feature_on(features@, #[trigger] req@[j].0@) == req@[j].1,
                decreases req@.len() - i,
            {
                if lookup_feature(features, req[i].0.as_str()) != req[i].1 {
                    assert(feature_on(features@, req@[i as int].0@) != req@[i as int].1);
                    return false;
                }
                i = i + 1;
            }
            true
        },
    }
}

/// Whether something guarded by `rules` is allowed on `platform` with the
/// launcher's `features`.
#[verifier::loop_isolation(false)]
pub fn allows(rules: Option<&Vec<Rule>>, features: &Vec<(String, bool)>, platform: Platform) -> (r:
    bool)
    ensures
        r == rules_allow(
            match rules {
                None => None,
                Some(rs) => Some(rs@),
            },
            features@,
            platform,
        ),
{
    match rules {
        None => true,
        Some(rs) => {
            if rs.len() == 0 {
                return true;
            }
            let mut i: usize = rs.len();
            assert(rs@.subrange(0, i as int) =~= rs@);
            while i > 0
                invariant
                    i <= rs@.len(),
                    rs@.len() > 0,
                    rules_verdict(rs@, features@, platform) == rules_verdict(
                        rs@.subrange(0, i as int),
                        features@,
                        platform,
                    ),
                decreases i,
            {
                let ghost pre = rs@.subrange(0, i as int);
                assert(pre.last() == rs@[i - 1]);
                if rule_matches(&rs[i - 1], features, platform) {
                    let allowed = match rs[i - 1].action {
                        RuleAction::Allow => true,
                        RuleAction::Disallow => false,
                    };
                    return allowed;
                }
                assert(pre.drop_last() =~= rs@.subrange(0, i - 1));
                i = i - 1;
            }
            false
        },
    }
}

} // verus!
