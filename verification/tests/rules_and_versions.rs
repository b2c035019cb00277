use std::cmp::Ordering;

use asymptote_launcher::os_version::get_os_version;
use asymptote_launcher::rules::{
    check_feature_rule, check_os_rule, check_version_range, create_compatibility_context,
    is_compatible, is_compatible_os, CompatibilityContext, Features, LaunchFeatures, OsRule,
    Rules, VersionRange,
};
use asymptote_launcher::numeric::parse_u32;
use asymptote_launcher::version::{compare_versions, parse_version};

fn ctx(os: &str, arch: &str, version: Option<&str>) -> CompatibilityContext {
    create_compatibility_context(os, arch, LaunchFeatures::default(), version.map(|v| v.to_string()))
}

fn os_rule(name: Option<&str>, arch: Option<&str>, range: Option<VersionRange>) -> OsRule {
    OsRule {
        name: name.map(|s| s.to_string()),
        arch: arch.map(|s| s.to_string()),
        version_range: range,
    }
}

fn rule(action: &str, os: Option<OsRule>, features: Option<Features>) -> Rules {
    Rules { action: action.to_string(), os, features }
}

fn no_feature_rule() -> Features {
    Features {
        is_demo_user: None,
        has_custom_resolution: None,
        has_quick_plays_support: None,
        is_quick_play_singleplayer: None,
        is_quick_play_multiplayer: None,
        is_quick_play_realms: None,
    }
}

#[test]
fn parse_version_reads_dotted_numbers() {
    assert_eq!(parse_version("1.20.4"), Some(vec![1, 20, 4]));
    assert_eq!(parse_version("10"), Some(vec![10]));
    assert_eq!(parse_version("+7.0"), Some(vec![7, 0]));
    assert_eq!(parse_version("4294967295"), Some(vec![4294967295]));
}

#[test]
fn parse_version_rejects_bad_pieces() {
    assert_eq!(parse_version(""), None);
    assert_eq!(parse_version("1..2"), None);
    assert_eq!(parse_version("1."), None);
    assert_eq!(parse_version("1.x"), None);
    assert_eq!(parse_version("4294967296"), None);
    assert_eq!(parse_version("-1"), None);
    assert_eq!(parse_version("+"), None);
    assert_eq!(parse_version(" 1"), None);
}

#[test]
fn parse_u32_agrees_with_std() {
    for text in ["0", "007", "+12", "12a", "", "+", "-0", "99999999999", "4294967295", "4294967296", "1 "] {
        let chars: Vec<char> = text.chars().collect();
        assert_eq!(parse_u32(&chars), text.parse::<u32>().ok(), "{}", text);
    }
}

#[test]
fn compare_versions_pads_with_zeros() {
    assert_eq!(compare_versions("10.0", "10.0.0"), Some(Ordering::Equal));
    assert_eq!(compare_versions("6.1", "10.0"), Some(Ordering::Less));
    assert_eq!(compare_versions("10.0.1", "10.0"), Some(Ordering::Greater));
    assert_eq!(compare_versions("1.2", "1.10"), Some(Ordering::Less));
    assert_eq!(compare_versions("1.x", "1.0"), None);
    assert_eq!(compare_versions("1.0", ""), None);
}

#[test]
fn compare_versions_is_antisymmetric() {
    let samples = ["1", "1.0", "1.0.1", "2", "0.9.9", "10.0.19045"];
    for a in samples {
        for b in samples {
            let x = compare_versions(a, b).unwrap();
            let y = compare_versions(b, a).unwrap();
            assert_eq!(x, y.reverse(), "{} {}", a, b);
        }
        assert_eq!(compare_versions(a, a), Some(Ordering::Equal));
    }
}

#[test]
fn version_range_min_inclusive_max_exclusive() {
    let range = VersionRange { min: Some("10.0".to_string()), max: Some("11".to_string()) };
    assert!(check_version_range(Some("10.0"), &range));
    assert!(check_version_range(Some("10.5.2"), &range));
    assert!(!check_version_range(Some("11.0"), &range));
    assert!(!check_version_range(Some("9.9"), &range));
    assert!(!check_version_range(Some("garbage"), &range));
    assert!(!check_version_range(None, &range));
}

#[test]
fn version_range_without_bounds_admits_anything() {
    let range = VersionRange { min: None, max: None };
    assert!(check_version_range(None, &range));
    assert!(check_version_range(Some("not a version"), &range));
    let only_max = VersionRange { min: None, max: Some("6".to_string()) };
    assert!(check_version_range(Some("5.1"), &only_max));
    assert!(!check_version_range(Some("6"), &only_max));
}

#[test]
fn context_names_macos_osx() {
    let c = ctx("macos", "aarch64", None);
    assert_eq!(c.os, "osx");
    assert_eq!(c.arch, "aarch64");
    let l = ctx("linux", "x86_64", Some("6.1"));
    assert_eq!(l.os, "linux");
    assert_eq!(l.os_version.as_deref(), Some("6.1"));
}

#[test]
fn os_rule_checks_name_arch_and_version() {
    let c = ctx("windows", "x86", Some("10.0.19045"));
    assert!(check_os_rule(None, &c));
    assert!(check_os_rule(Some(&os_rule(Some("windows"), None, None)), &c));
    assert!(!check_os_rule(Some(&os_rule(Some("linux"), None, None)), &c));
    assert!(check_os_rule(Some(&os_rule(None, Some("x86"), None)), &c));
    assert!(!check_os_rule(Some(&os_rule(Some("windows"), Some("x86_64"), None)), &c));
    let range = VersionRange { min: Some("10".to_string()), max: None };
    assert!(check_os_rule(Some(&os_rule(Some("windows"), None, Some(range))), &c));
    let range = VersionRange { min: None, max: Some("10".to_string()) };
    assert!(!check_os_rule(Some(&os_rule(Some("windows"), None, Some(range))), &c));
}

#[test]
fn feature_rule_requires_each_present_flag() {
    let mut actual = LaunchFeatures::default();
    actual.has_custom_resolution = true;
    assert!(check_feature_rule(None, &actual));
    let mut f = no_feature_rule();
    assert!(check_feature_rule(Some(&f), &actual));
    f.has_custom_resolution = Some(true);
    assert!(check_feature_rule(Some(&f), &actual));
    f.is_demo_user = Some(true);
    assert!(!check_feature_rule(Some(&f), &actual));
    let mut g = no_feature_rule();
    g.is_quick_play_realms = Some(false);
    assert!(check_feature_rule(Some(&g), &actual));
    g.has_quick_plays_support = Some(true);
    assert!(!check_feature_rule(Some(&g), &actual));
}

#[test]
fn default_launch_features_are_off() {
    let d = LaunchFeatures::default();
    assert!(!d.is_demo_user && !d.has_custom_resolution && !d.has_quick_plays_support);
    assert!(!d.is_quick_play_singleplayer && !d.is_quick_play_multiplayer && !d.is_quick_play_realms);
}

#[test]
fn no_rules_or_empty_rules_admit() {
    let c = ctx("linux", "x86_64", None);
    assert!(is_compatible(None, &c));
    assert!(is_compatible(Some(&[]), &c));
}

#[test]
fn last_applicable_rule_decides() {
    let c = ctx("macos", "aarch64", None);
    // allow everywhere, then disallow on osx: refused on osx
    let rules = vec![
        rule("allow", None, None),
        rule("disallow", Some(os_rule(Some("osx"), None, None)), None),
    ];
    assert!(!is_compatible(Some(&rules), &c));
    let l = ctx("linux", "x86_64", None);
    assert!(is_compatible(Some(&rules), &l));
    // only an osx allow: refused elsewhere
    let only_osx = vec![rule("allow", Some(os_rule(Some("osx"), None, None)), None)];
    assert!(is_compatible(Some(&only_osx), &c));
    assert!(!is_compatible(Some(&only_osx), &l));
}

#[test]
fn feature_rules_refuse_default_launch() {
    let c = ctx("linux", "x86_64", None);
    let mut f = no_feature_rule();
    f.is_demo_user = Some(true);
    let rules = vec![rule("allow", None, Some(f))];
    assert!(!is_compatible(Some(&rules), &c));
}

#[test]
fn os_only_check_of_older_launcher() {
    let rules = vec![
        rule("allow", None, None),
        rule("disallow", Some(os_rule(Some("osx"), None, None)), None),
    ];
    assert!(is_compatible_os(None, "osx"));
    assert!(!is_compatible_os(Some(&rules), "osx"));
    assert!(is_compatible_os(Some(&rules), "linux"));
    assert!(!is_compatible_os(Some(&[]), "linux"));
}

#[test]
fn ver_output_gives_windows_version() {
    let out = "\r\nMicrosoft Windows [Version 10.0.19045.3803]\r\n";
    assert_eq!(get_os_version(true, out).as_deref(), Some("10.0.19045.3803"));
    let localized = "Microsoft Windows [Версия 10.0.22631.4317]";
    assert_eq!(get_os_version(true, localized).as_deref(), Some("10.0.22631.4317"));
}

#[test]
fn ver_output_without_version() {
    assert_eq!(get_os_version(false, "Microsoft Windows [Version 10.0]"), None);
    assert_eq!(get_os_version(true, "Microsoft Windows Version 10.0"), None);
    assert_eq!(get_os_version(true, "Microsoft Windows [Version 10.0"), None);
    assert_eq!(get_os_version(true, "[Version]"), None);
    assert_eq!(get_os_version(true, "] 5 [Version x9 7b]"), Some("7b".to_string()));
    assert_eq!(get_os_version(true, "[\u{3000}42\u{a0}]"), Some("42".to_string()));
}

#[test]
fn parse_version_reads_rendered_versions_back() {
    let samples: Vec<Vec<u32>> = vec![
        vec![0],
        vec![1, 20, 4],
        vec![10, 0, 19045, 3803],
        vec![4294967295, 0, 7],
        vec![100, 1000, 10],
    ];
    for v in samples {
        let text = v.iter().map(|x| x.to_string()).collect::<Vec<_>>().join(".");
        assert_eq!(parse_version(&text), Some(v));
    }
}
