//! The rules of a version manifest that decide whether a library or an
//! argument applies on the host: operating system, architecture, OS version
//! range and launch features.

use std::cmp::Ordering;
use vstd::prelude::*;
use crate::text::str_eq;
use crate::version::{compare_versions, version_comparison};
use crate::numeric::{parsed_version, version_order, lemma_version_order_values};

verus! {

/// The `os` part of a rule.
pub struct OsRule {
    pub name: Option<String>,
    pub arch: Option<String>,
    pub version_range: Option<VersionRange>,
}

/// A range of OS versions: `min` inclusive, `max` exclusive.
pub struct VersionRange {
    pub min: Option<String>,
    pub max: Option<String>,
}

/// The `features` part of a rule: each present entry must equal the
/// corresponding launch feature.
pub struct Features {
    pub is_demo_user: Option<bool>,
    pub has_custom_resolution: Option<bool>,
    pub has_quick_plays_support: Option<bool>,
    pub is_quick_play_singleplayer: Option<bool>,
    pub is_quick_play_multiplayer: Option<bool>,
    pub is_quick_play_realms: Option<bool>,
}

/// One rule: an action (`"allow"` or anything else) with its conditions.
pub struct Rules {
    pub action: String,
    pub os: Option<OsRule>,
    pub features: Option<Features>,
}

/// The features that a launch turns on.
#[derive(Clone, Copy)]
pub struct LaunchFeatures {
    pub is_demo_user: bool,
    pub has_custom_resolution: bool,
    pub has_quick_plays_support: bool,
    pub is_quick_play_singleplayer: bool,
    pub is_quick_play_multiplayer: bool,
    pub is_quick_play_realms: bool,
}

impl LaunchFeatures {
    /// A launch with every feature off.
    pub open spec fn none_on(self) -> bool {
        &&& !self.is_demo_user
        &&& !self.has_custom_resolution
        &&& !self.has_quick_plays_support
        &&& !self.is_quick_play_singleplayer
        &&& !self.is_quick_play_multiplayer
        &&& !self.is_quick_play_realms
    }
}

impl Default for LaunchFeatures {
    fn default() -> (r: Self)
        ensures
            r.none_on(),
    {
        LaunchFeatures {
            is_demo_user: false,
            has_custom_resolution: false,
            has_quick_plays_support: false,
            is_quick_play_singleplayer: false,
            is_quick_play_multiplayer: false,
            is_quick_play_realms: false,
        }
    }
}

/// What the rules are evaluated against: the host as the manifests name it,
/// its OS version if known, and the launch features.
pub struct CompatibilityContext {
    pub os: String,
    pub arch: String,
    pub os_version: Option<String>,
    pub features: LaunchFeatures,
}

/// The abstract context: the views of the host names and version, and the
/// launch features.
pub struct ContextView {
    pub os: Seq<char>,
    pub arch: Seq<char>,
    pub os_version: Option<Seq<char>>,
    pub features: LaunchFeatures,
}

impl View for CompatibilityContext {
    type V = ContextView;

    open spec fn view(&self) -> ContextView {
        ContextView {
            os: self.os@,
            arch: self.arch@,
            os_version: opt_view(self.os_version),
            features: self.features,
        }
    }
}

/// The context in which the rules are evaluated on a host whose operating
/// system, architecture and OS version Rust reports as `os`, `arch` and
/// `os_version`, for a launch with the given features.
pub open spec fn host_context(
    os: Seq<char>,
    arch: Seq<char>,
    os_version: Option<Seq<char>>,
    features: LaunchFeatures,
) -> ContextView {
    ContextView { os: manifest_os_name(os), arch, os_version, features }
}

/// What the launcher learns about the host: the operating system and
/// architecture as Rust names them, and the OS version when it could be read.
pub struct HostInfo {
    pub os: String,
    pub arch: String,
    pub os_version: Option<String>,
}

/// The rule context on `host` for a launch with `features`.
pub open spec fn context_on(host: HostInfo, features: LaunchFeatures) -> ContextView {
    host_context(host.os@, host.arch@, opt_view(host.os_version), features)
}

/// A launch with every feature off.
pub open spec fn no_features() -> LaunchFeatures {
    LaunchFeatures {
        is_demo_user: false,
        has_custom_resolution: false,
        has_quick_plays_support: false,
        is_quick_play_singleplayer: false,
        is_quick_play_multiplayer: false,
        is_quick_play_realms: false,
    }
}

/// The view of an optional string.
pub open spec fn opt_view(s: Option<String>) -> Option<Seq<char>> {
    match s {
        Some(x) => Some(x@),
        None => None,
    }
}

/// The name that manifests use for the operating system that Rust calls `os`.
pub open spec fn manifest_os_name(os: Seq<char>) -> Seq<char> {
    if os == "macos"@ {
        "osx"@
    } else {
        os
    }
}

/// An optional requirement on a name: absent, or equal to `actual`.
pub open spec fn name_matches(required: Option<String>, actual: Seq<char>) -> bool {
    match required {
        None => true,
        Some(n) => n@ == actual,
    }
}

/// An optional requirement on a feature: absent, or equal to `actual`.
pub open spec fn feature_matches(required: Option<bool>, actual: bool) -> bool {
    match required {
        None => true,
        Some(b) => b == actual,
    }
}

/// Whether the version `current` lies in `range`: at least `min` and below
/// `max`.  A range without bounds admits anything, even an unknown version;
/// a bounded range admits no unknown or unparsable version.
pub open spec fn in_version_range(current: Option<Seq<char>>, range: VersionRange) -> bool {
    if range.min is None && range.max is None {
        true
    } else {
        match current {
            None => false,
            Some(c) => {
                &&& match range.min {
                    None => true,
                    Some(m) => match version_comparison(c, m@) {
                        Some(Ordering::Equal) | Some(Ordering::Greater) => true,
                        _ => false,
                    },
                }
                &&& match range.max {
                    None => true,
                    Some(m) => version_comparison(c, m@) == Some(Ordering::Less),
                }
            },
        }
    }
}

/// Whether the `os` part of a rule holds in `ctx`.
pub open spec fn os_rule_matches(os_rule: Option<OsRule>, ctx: ContextView) -> bool {
    match os_rule {
        None => true,
        Some(r) => {
            &&& name_matches(r.name, ctx.os)
            &&& name_matches(r.arch, ctx.arch)
            &&& match r.version_range {
                None => true,
                Some(range) => in_version_range(ctx.os_version, range),
            }
        },
    }
}

/// Whether the `features` part of a rule holds for the launch features `f`.
pub open spec fn feature_rule_matches(rule: Option<Features>, f: LaunchFeatures) -> bool {
    match rule {
        None => true,
        Some(r) => {
            &&& feature_matches(r.is_demo_user, f.is_demo_user)
            &&& feature_matches(r.has_custom_resolution, f.has_custom_resolution)
            &&& feature_matches(r.has_quick_plays_support, f.has_quick_plays_support)
            &&& feature_matches(r.is_quick_play_singleplayer, f.is_quick_play_singleplayer)
            &&& feature_matches(r.is_quick_play_multiplayer, f.is_quick_play_multiplayer)
            &&& feature_matches(r.is_quick_play_realms, f.is_quick_play_realms)
        },
    }
}

/// Whether all the conditions of `rule` hold in `ctx`.
pub open spec fn rule_applies(rule: Rules, ctx: ContextView) -> bool {
    os_rule_matches(rule.os, ctx) && feature_rule_matches(rule.features, ctx.features)
}

/// Whether the action of `rule` is `allow`.
pub open spec fn is_allow(rule: Rules) -> bool {
    rule.action@ == "allow"@
}

/// The verdict of a list of rules: the action of the last rule that
/// applies, or a refusal when none applies.
pub open spec fn rules_verdict(rules: Seq<Rules>, ctx: ContextView) -> bool
    decreases rules.len(),
{
    if rules.len() == 0 {
        false
    } else if rule_applies(rules.last(), ctx) {
        is_allow(rules.last())
    } else {
        rules_verdict(rules.drop_last(), ctx)
    }
}

/// Whether something guarded by `rules` applies in `ctx`: always when there
/// are no rules, else by the verdict of the rules.
pub open spec fn compatible(rules: Option<Seq<Rules>>, ctx: ContextView) -> bool {
    match rules {
        None => true,
        Some(rs) => rs.len() == 0 || rules_verdict(rs, ctx),
    }
}

/// The verdict of rules that look at the OS name alone: the last rule that
/// has no `os` part, or whose `os` names `os`, decides; refusal when none.
pub open spec fn os_only_verdict(rules: Seq<Rules>, os: Seq<char>) -> bool
    decreases rules.len(),
{
    if rules.len() == 0 {
        false
    } else {
        let r = rules.last();
        match r.os {
            None => is_allow(r),
            Some(o) => match o.name {
                Some(n) if n@ == os => is_allow(r),
                _ => os_only_verdict(rules.drop_last(), os),
            },
        }
    }
}

/// The view of optional borrowed rules.
pub open spec fn rules_view(rules: Option<&[Rules]>) -> Option<Seq<Rules>> {
    match rules {
        Some(s) => Some(s@),
        None => None,
    }
}

fn opt_str_matches(required: &Option<String>, actual: &str) -> (r: bool)
    ensures
        r == name_matches(*required, actual@),
{
    match required {
        None => true,
        Some(n) => str_eq(n.as_str(), actual),
    }
}

fn action_is_allow(rule: &Rules) -> (r: bool)
    ensures
        r == is_allow(*rule),
{
    str_eq(rule.action.as_str(), "allow")
}

/// The context for rule evaluation on a host whose operating system Rust
/// names `os` (`macos` is called `osx` in manifests) with architecture `arch`.
pub fn create_compatibility_context(
    os: &str,
    arch: &str,
    features: LaunchFeatures,
    os_version: Option<String>,
) -> (r: CompatibilityContext)
    ensures
        r@ == host_context(os@, arch@, opt_view(os_version), features),
{
    let name = if str_eq(os, "macos") {
        "osx".to_owned()
    } else {
        os.to_owned()
    };
    CompatibilityContext { os: name, arch: arch.to_owned(), os_version, features }
}

/// The rule context on `host` for a launch with `features`.
pub fn context_for(host: &HostInfo, features: LaunchFeatures) -> (r: CompatibilityContext)
    ensures
        r@ == context_on(*host, features),
{
    let version = match &host.os_version {
        Some(v) => Some(v.clone()),
        None => None,
    };
    create_compatibility_context(host.os.as_str(), host.arch.as_str(), features, version)
}

/// Whether `current_version` lies in `range` (see [`in_version_range`]).
pub fn check_version_range(current_version: Option<&str>, range: &VersionRange) -> (r: bool)
    ensures
        r == in_version_range(
            match current_version {
                Some(s) => Some(s@),
                None => None,
            },
            *range,
        ),
{
    if range.min.is_none() && range.max.is_none() {
        return true;
    }
    let current = match current_version {
        Some(c) => c,
        None => {
            return false;
        },
    };
    if let Some(min) = &range.min {
        match compare_versions(current, min.as_str()) {
            Some(Ordering::Less) | None => {
                return false;
            },
            _ => {},
        }
    }
    if let Some(max) = &range.max {
        match compare_versions(current, max.as_str()) {
            Some(Ordering::Less) => {},
            Some(_) | None => {
                return false;
            },
        }
    }
    true
}

/// Whether the `os` part of a rule holds in `context`.
pub fn check_os_rule(os_rule: Option<&OsRule>, context: &CompatibilityContext) -> (r: bool)
    ensures
        r == os_rule_matches(
            match os_rule {
                Some(x) => Some(*x),
                None => None,
            },
            context@,
        ),
{
    let os_rule = match os_rule {
        Some(x) => x,
        None => {
            return true;
        },
    };
    let name_ok = opt_str_matches(&os_rule.name, context.os.as_str());
    let arch_ok = opt_str_matches(&os_rule.arch, context.arch.as_str());
    let version_ok = match &os_rule.version_range {
        None => true,
        Some(range) => {
            let current = match &context.os_version {
                Some(v) => Some(v.as_str()),
                None => None,
            };
            check_version_range(current, range)
        },
    };
    name_ok && arch_ok && version_ok
}

fn feature_ok(required: Option<bool>, actual: bool) -> (r: bool)
    ensures
        r == feature_matches(required, actual),
{
    match required {
        Some(b) => b == actual,
        None => true,
    }
}

/// Whether the `features` part of a rule holds for the launch features `actual`.
pub fn check_feature_rule(rule: Option<&Features>, actual: &LaunchFeatures) -> (r: bool)
    ensures
        r == feature_rule_matches(
            match rule {
                Some(x) => Some(*x),
                None => None,
            },
            *actual,
        ),
{
    let rule = match rule {
        Some(x) => x,
        None => {
            return true;
        },
    };
    if !feature_ok(rule.is_demo_user, actual.is_demo_user) {
        return false;
    }
    if !feature_ok(rule.has_custom_resolution, actual.has_custom_resolution) {
        return false;
    }
    if !feature_ok(rule.has_quick_plays_support, actual.has_quick_plays_support) {
        return false;
    }
    if !feature_ok(rule.is_quick_play_singleplayer, actual.is_quick_play_singleplayer) {
        return false;
    }
    if !feature_ok(rule.is_quick_play_multiplayer, actual.is_quick_play_multiplayer) {
        return false;
    }
    if !feature_ok(rule.is_quick_play_realms, actual.is_quick_play_realms) {
        return false;
    }
    true
}

/// Whether something guarded by `rules` applies in `context`: no rules or an
/// empty list admit it; otherwise the last rule whose conditions hold decides
/// by its action, and nothing is admitted when no rule's conditions hold.
pub fn is_compatible(rules: Option<&[Rules]>, context: &CompatibilityContext) -> (r: bool)
    ensures
        r == compatible(rules_view(rules), context@),
{
    let rules = match rules {
        Some(rs) => rs,
        None => {
            return true;
        },
    };
    if rules.len() == 0 {
        return true;
    }
    let mut verdict = false;
    let n = rules.len();
    assert(rules@.take(0) =~= Seq::<Rules>::empty());
    for i in 0..n
        invariant
            n == rules@.len(),
            verdict == rules_verdict(rules@.take(i as int), context@),
    {
        let rule = &rules[i];
        let os_matches = check_os_rule(
            match &rule.os {
                Some(o) => Some(o),
                None => None,
            },
            context,
        );
        let feature_matches = check_feature_rule(
            match &rule.features {
                Some(f) => Some(f),
                None => None,
            },
            &context.features,
        );
        assert(rules@.take(i + 1).drop_last() =~= rules@.take(i as int));
        assert(rules@.take(i + 1).last() == rules@[i as int]);
        if os_matches && feature_matches {
            verdict = action_is_allow(rule);
        }
    }
    assert(rules@.take(n as int) =~= rules@);
    verdict
}

/// A library check by OS name alone: no rules admit; otherwise the last
/// rule that has no `os` part, or whose `os` names `os_name`, decides by its
/// action, and nothing is admitted when there is no such rule (an empty list
/// included).
pub fn is_compatible_os(rules: Option<&[Rules]>, os_name: &str) -> (r: bool)
    ensures
        r == match rules_view(rules) {
            None => true,
            Some(rs) => os_only_verdict(rs, os_name@),
        },
{
    let rules = match rules {
        Some(rs) => rs,
        None => {
            return true;
        },
    };
    let mut verdict = false;
    let n = rules.len();
    assert(rules@.take(0) =~= Seq::<Rules>::empty());
    for i in 0..n
        invariant
            n == rules@.len(),
            verdict == os_only_verdict(rules@.take(i as int), os_name@),
    {
        let rule = &rules[i];
        assert(rules@.take(i + 1).drop_last() =~= rules@.take(i as int));
        assert(rules@.take(i + 1).last() == rules@[i as int]);
        match &rule.os {
            None => {
                verdict = action_is_allow(rule);
            },
            Some(o) => {
                match &o.name {
                    Some(name) => {
                        if str_eq(name.as_str(), os_name) {
                            verdict = action_is_allow(rule);
                        }
                    },
                    None => {},
                }
            },
        }
    }
    assert(rules@.take(n as int) =~= rules@);
    verdict
}

/// The last rule whose conditions hold decides: when rule `i` applies and no
/// later rule does, the rules admit exactly when rule `i` allows.
pub proof fn lemma_last_applicable_rule_decides(rules: Seq<Rules>, ctx: ContextView, i: int)
    requires
        0 <= i < rules.len(),
        rule_applies(rules[i], ctx),
        forall|j: int| i < j < rules.len() ==> !rule_applies(#[trigger] rules[j], ctx),
    ensures
        compatible(Some(rules), ctx) == is_allow(rules[i]),
    decreases rules.len(),
{
    if i < rules.len() - 1 {
        let d = rules.drop_last();
        assert forall|j: int| i < j < d.len() implies !rule_applies(#[trigger] d[j], ctx) by {
            assert(d[j] == rules[j]);
        }
        lemma_last_applicable_rule_decides(d, ctx, i);
        assert(d[i] == rules[i]);
        assert(!rule_applies(rules[rules.len() - 1], ctx));
    }
}

/// Something without rules, or with an empty list of rules, always applies.
pub proof fn lemma_no_rules_admit(ctx: ContextView)
    ensures
        compatible(None, ctx),
        compatible(Some(Seq::<Rules>::empty()), ctx),
{
}

/// When no rule's conditions hold, a non-empty list of rules admits nothing.
pub proof fn lemma_no_applicable_rule_refuses(rules: Seq<Rules>, ctx: ContextView)
    requires
        rules.len() > 0,
        forall|j: int| 0 <= j < rules.len() ==> !rule_applies(#[trigger] rules[j], ctx),
    ensures
        !compatible(Some(rules), ctx),
    decreases rules.len(),
{
    lemma_no_rule_applies_verdict(rules, ctx);
}

proof fn lemma_no_rule_applies_verdict(rules: Seq<Rules>, ctx: ContextView)
    requires
        forall|j: int| 0 <= j < rules.len() ==> !rule_applies(#[trigger] rules[j], ctx),
    ensures
        !rules_verdict(rules, ctx),
    decreases rules.len(),
{
    if rules.len() > 0 {
        let d = rules.drop_last();
        assert forall|j: int| 0 <= j < d.len() implies !rule_applies(#[trigger] d[j], ctx) by {
            assert(d[j] == rules[j]);
        }
        lemma_no_rule_applies_verdict(d, ctx);
        assert(!rule_applies(rules[rules.len() - 1], ctx));
    }
}

/// A feature rule holds exactly when every feature it names has the value
/// it asks for; a feature it leaves out does not matter.
pub proof fn lemma_feature_rule_per_field(r: Features, f: LaunchFeatures)
    ensures
        feature_rule_matches(None, f),
        feature_rule_matches(Some(r), f) <==> {
            &&& (r.is_demo_user matches Some(b) ==> b == f.is_demo_user)
            &&& (r.has_custom_resolution matches Some(b) ==> b == f.has_custom_resolution)
            &&& (r.has_quick_plays_support matches Some(b) ==> b == f.has_quick_plays_support)
            &&& (r.is_quick_play_singleplayer matches Some(b) ==> b == f.is_quick_play_singleplayer)
            &&& (r.is_quick_play_multiplayer matches Some(b) ==> b == f.is_quick_play_multiplayer)
            &&& (r.is_quick_play_realms matches Some(b) ==> b == f.is_quick_play_realms)
        },
{
}

/// An OS rule holds exactly when the name it gives is the host's, the
/// architecture it gives is the host's, and the host's version lies in the
/// range it gives; absent parts do not matter.
pub proof fn lemma_os_rule_per_field(r: OsRule, ctx: ContextView)
    ensures
        os_rule_matches(None, ctx),
        os_rule_matches(Some(r), ctx) <==> {
            &&& (r.name matches Some(n) ==> n@ == ctx.os)
            &&& (r.arch matches Some(a) ==> a@ == ctx.arch)
            &&& (r.version_range matches Some(range) ==> in_version_range(ctx.os_version, range))
        },
{
}

/// A version range admits a version exactly when it has no bounds, or the
/// version and every bound parse, the version is not older than `min` and
/// older than `max`.
pub proof fn lemma_version_range_bounds(current: Option<Seq<char>>, range: VersionRange)
    ensures
        in_version_range(current, range) <==> {
            ||| (range.min is None && range.max is None)
            ||| (current matches Some(c) && {
                &&& parsed_version(c) is Some
                &&& (range.min matches Some(m) ==> parsed_version(m@) is Some && version_order(
                    parsed_version(c)->0,
                    parsed_version(m@)->0,
                ) >= 0)
                &&& (range.max matches Some(x) ==> parsed_version(x@) is Some && version_order(
                    parsed_version(c)->0,
                    parsed_version(x@)->0,
                ) < 0)
            })
        },
{
    if let Some(c) = current {
        if parsed_version(c) is Some {
            if let Some(m) = range.min {
                if parsed_version(m@) is Some {
                    lemma_version_order_values(parsed_version(c)->0, parsed_version(m@)->0);
                }
            }
            if let Some(x) = range.max {
                if parsed_version(x@) is Some {
                    lemma_version_order_values(parsed_version(c)->0, parsed_version(x@)->0);
                }
            }
        }
    }
}

/// Whether a rule speaks to the OS-name-only check on `os`: it has no `os`
/// part, or its `os` part names `os`.
pub open spec fn os_only_relevant(rule: Rules, os: Seq<char>) -> bool {
    match rule.os {
        None => true,
        Some(o) => match o.name {
            Some(n) => n@ == os,
            None => false,
        },
    }
}

/// In the OS-name-only check, the last rule that speaks to the host decides:
/// when rule `i` does and no later rule does, the rules admit exactly when
/// rule `i` allows.
pub proof fn lemma_os_only_last_relevant_decides(rules: Seq<Rules>, os: Seq<char>, i: int)
    requires
        0 <= i < rules.len(),
        os_only_relevant(rules[i], os),
        forall|j: int| i < j < rules.len() ==> !os_only_relevant(#[trigger] rules[j], os),
    ensures
        os_only_verdict(rules, os) == is_allow(rules[i]),
    decreases rules.len(),
{
    if i < rules.len() - 1 {
        let d = rules.drop_last();
        assert forall|j: int| i < j < d.len() implies !os_only_relevant(#[trigger] d[j], os) by {
            assert(d[j] == rules[j]);
        }
        lemma_os_only_last_relevant_decides(d, os, i);
        assert(d[i] == rules[i]);
        assert(!os_only_relevant(rules[rules.len() - 1], os));
    }
}

/// In the OS-name-only check, rules none of which speaks to the host refuse.
pub proof fn lemma_os_only_none_relevant_refuses(rules: Seq<Rules>, os: Seq<char>)
    requires
        forall|j: int| 0 <= j < rules.len() ==> !os_only_relevant(#[trigger] rules[j], os),
    ensures
        !os_only_verdict(rules, os),
    decreases rules.len(),
{
    if rules.len() > 0 {
        let d = rules.drop_last();
        assert forall|j: int| 0 <= j < d.len() implies !os_only_relevant(#[trigger] d[j], os) by {
            assert(d[j] == rules[j]);
        }
        lemma_os_only_none_relevant_refuses(d, os);
        assert(!os_only_relevant(rules[rules.len() - 1], os));
    }
}

} // verus!
