use asymptote_launcher::arguments::{
    build_minecraft, form_classpath, form_default_user_jvm_arguments, form_game_arguments,
    form_jvm_arguments, get_game_info, get_logging_argument, natives_directory_path,
    reform_game_argument,
};
use asymptote_launcher::digest::sha1_hex;
use asymptote_launcher::install::{
    asset_index_path, assets_to_install, client_download, content_matches, download_start,
    download_step, libraries_to_install, log_config_download, version_json_path, Awaiting,
    DownloadAction, DownloadEvent, DownloadOutcome, DownloadState,
};
use asymptote_launcher::manifest::{
    find_latest_release, Argument, ArgumentValue, ArgumentsIndex, AssetIndex, AssetObject, Assets,
    DownloadInfo, DownloadLibraryInfo, DownloadLoggingInfo, JavaVersionInfo, LibraryArtifact,
    LibraryInfo, LoggingClient, LoggingInfo, ManifestLatest, MinecraftManifest, Version,
    VersionDownload, VersionManifest,
};
use asymptote_launcher::paths::{concatenated, join_path, join_strings};
use asymptote_launcher::rules::{HostInfo, LaunchFeatures, OsRule, Rules};
use asymptote_launcher::text::replace_all;

fn info(sha1: &str, size: u64, url: &str) -> DownloadInfo {
    DownloadInfo { sha1: sha1.to_string(), size, url: url.to_string() }
}

fn osx_only() -> Option<Vec<Rules>> {
    Some(vec![Rules {
        action: "allow".to_string(),
        os: Some(OsRule { name: Some("osx".to_string()), arch: None, version_range: None }),
        features: None,
    }])
}

fn library(path: &str, rules: Option<Vec<Rules>>) -> LibraryInfo {
    LibraryInfo {
        downloads: LibraryArtifact {
            artifact: DownloadLibraryInfo { path: path.to_string(), info: info("ab", 1, "u") },
        },
        name: path.to_string(),
        rules,
    }
}

fn host(os: &str) -> HostInfo {
    HostInfo { os: os.to_string(), arch: "x86_64".to_string(), os_version: None }
}

fn manifest() -> MinecraftManifest {
    MinecraftManifest {
        id: "1.21".to_string(),
        version_type: "release".to_string(),
        downloads: VersionDownload {
            client: info("c0ffee", 10, "https://example/client.jar"),
            server: info("5e", 20, "https://example/server.jar"),
        },
        libraries: vec![
            library("a/a.jar", None),
            library("mac/m.jar", osx_only()),
            library("b/b.jar", Some(vec![])),
        ],
        asset_index: AssetIndex {
            id: "17".to_string(),
            sha1: "aa".to_string(),
            size: 1,
            total_size: 2,
            url: "https://example/17.json".to_string(),
        },
        logging: LoggingInfo {
            client: LoggingClient {
                argument: "-Dlog4j.configurationFile=${path}".to_string(),
                file: DownloadLoggingInfo {
                    id: "client-1.12.xml".to_string(),
                    info: info("11", 3, "https://example/log.xml"),
                },
                log_type: "log4j2-xml".to_string(),
            },
        },
        main_class: "net.minecraft.client.main.Main".to_string(),
        java_version: JavaVersionInfo { component: "java-runtime-delta".to_string(), major_version: 21 },
        arguments: ArgumentsIndex {
            game: vec![
                Argument::Plain("--username".to_string()),
                Argument::Plain("${auth_player_name}".to_string()),
                Argument::Plain("--version".to_string()),
                Argument::Plain("${version_name}".to_string()),
                Argument::Conditional {
                    rules: Some(vec![Rules {
                        action: "allow".to_string(),
                        os: None,
                        features: Some(asymptote_launcher::rules::Features {
                            is_demo_user: None,
                            has_custom_resolution: Some(true),
                            has_quick_plays_support: None,
                            is_quick_play_singleplayer: None,
                            is_quick_play_multiplayer: None,
                            is_quick_play_realms: None,
                        }),
                    }]),
                    value: ArgumentValue::List(vec![
                        "--width".to_string(),
                        "${resolution_width}".to_string(),
                        "--height".to_string(),
                        "${resolution_height}".to_string(),
                    ]),
                },
            ],
            jvm: vec![
                Argument::Conditional { rules: osx_only(), value: ArgumentValue::Single("-XstartOnFirstThread".to_string()) },
                Argument::Plain("-Djava.library.path=${natives_directory}".to_string()),
                Argument::Plain("-Dminecraft.launcher.brand=${launcher_name}".to_string()),
                Argument::Plain("-Dminecraft.launcher.version=${launcher_version}".to_string()),
                Argument::Plain("-cp".to_string()),
                Argument::Plain("${classpath}".to_string()),
            ],
            default_user_jvm: vec![
                Argument::Plain("-Xmx2G".to_string()),
                Argument::Conditional { rules: osx_only(), value: ArgumentValue::Single("-Dmac".to_string()) },
            ],
        },
    }
}

#[test]
fn replace_all_agrees_with_std() {
    let cases = [
        ("a${x}b${x}", "${x}", "Q"),
        ("aaaa", "aa", "b"),
        ("abc", "", "-"),
        ("", "", "-"),
        ("", "x", "y"),
        ("xyz", "xyzw", "q"),
        ("приветпривет", "вет", "!"),
        ("${a}", "${a}", "${a}"),
    ];
    for (s, p, r) in cases {
        assert_eq!(replace_all(s, p, r), s.replace(p, r), "{:?}", (s, p, r));
    }
}

#[test]
fn join_path_inserts_one_separator() {
    assert_eq!(join_path("/home/u/.minecraft", "versions", false), "/home/u/.minecraft/versions");
    assert_eq!(join_path("/home/u/", "versions", false), "/home/u/versions");
    assert_eq!(join_path("", "versions", false), "versions");
    assert_eq!(join_path("/base", "/abs/path", false), "/abs/path");
    assert_eq!(join_path("C:\\Users\\u", "libraries", true), "C:\\Users\\u\\libraries");
    assert_eq!(join_path("C:\\Users\\u\\", "a/b.jar", true), "C:\\Users\\u\\a/b.jar");
}

#[test]
fn join_path_follows_windows_prefixes_and_roots() {
    // a rooted part keeps the drive of the base
    assert_eq!(join_path("C:\\games\\mc", "\\windows", true), "C:\\windows");
    assert_eq!(join_path("\\\\srv\\share\\dir", "/x", true), "\\\\srv\\share/x");
    assert_eq!(join_path("relative\\dir", "\\x", true), "\\x");
    // a part with a prefix replaces the base
    assert_eq!(join_path("C:\\games", "D:x", true), "D:x");
    assert_eq!(join_path("C:\\games", "\\\\srv\\share", true), "\\\\srv\\share");
    assert_eq!(join_path("C:\\games", "\\\\?\\C:\\x", true), "\\\\?\\C:\\x");
    // a bare drive takes no separator
    assert_eq!(join_path("C:", "x", true), "C:x");
    assert_eq!(join_path("C:\\", "x", true), "C:\\x");
    // a leading pair of separators without a share is no prefix, only a root
    assert_eq!(join_path("C:\\games", "\\\\srv", true), "C:\\\\srv");
}

#[test]
fn join_path_matches_std_on_unix_relative_parts() {
    for (b, p) in [("/a/b", "c"), ("/a/b/", "c/d"), ("rel", "x.jar"), ("/a", "/b")] {
        let expected = std::path::Path::new(b).join(p).to_string_lossy().into_owned();
        assert_eq!(join_path(b, p, false), expected);
    }
}

#[test]
fn concat_and_join_strings() {
    assert_eq!(concatenated("1.21", ".jar"), "1.21.jar");
    let parts = vec!["a".to_string(), "b".to_string(), "c".to_string()];
    assert_eq!(join_strings(&parts, ":"), "a:b:c");
    assert_eq!(join_strings(&vec![], ":"), "");
    assert_eq!(join_strings(&vec!["x".to_string()], ";"), "x");
}

#[test]
fn latest_release_is_found_by_id() {
    let m = VersionManifest {
        latest: ManifestLatest { release: "1.21".to_string() },
        versions: vec![
            Version { id: "24w01a".to_string(), version_type: "snapshot".to_string(), url: "u0".to_string() },
            Version { id: "1.21".to_string(), version_type: "release".to_string(), url: "u1".to_string() },
            Version { id: "1.21".to_string(), version_type: "release".to_string(), url: "u2".to_string() },
        ],
    };
    let r = find_latest_release(&m).unwrap();
    assert_eq!(r.id, "1.21");
    assert_eq!(r.url, "u1");
    let missing = VersionManifest { latest: ManifestLatest { release: "2.0".to_string() }, versions: m.versions };
    assert!(find_latest_release(&missing).is_none());
}

#[test]
fn game_argument_placeholders_are_filled() {
    let gi = get_game_info(
        "Steve", "1.21", "/g", "/g/assets", "17", "uuid", "token", "cid", "xuid", "release",
        "854", "480", "qp", "sp", "mp", "realms",
    );
    assert_eq!(gi.player_name, "Steve");
    assert_eq!(gi.quick_play_realms, "realms");
    assert_eq!(reform_game_argument("${auth_player_name}", &gi), "Steve");
    assert_eq!(
        reform_game_argument("${resolution_width}x${resolution_height}", &gi),
        "854x480"
    );
    assert_eq!(reform_game_argument("--demo", &gi), "--demo");
    assert_eq!(reform_game_argument("${unknown}", &gi), "${unknown}");
    assert_eq!(reform_game_argument("${clientid}${auth_xuid}", &gi), "cidxuid");
}

#[test]
fn logging_argument_points_at_config() {
    let m = manifest();
    assert_eq!(
        get_logging_argument(&m, "/g", false),
        "-Dlog4j.configurationFile=/g/assets/log-configs/client-1.12.xml"
    );
}

#[test]
fn classpath_lists_admitted_libraries_then_client_jar() {
    let m = manifest();
    assert_eq!(
        form_classpath(&m, "/g", &host("linux")),
        "/g/libraries/a/a.jar:/g/libraries/b/b.jar:/g/versions/1.21/1.21.jar"
    );
    assert_eq!(
        form_classpath(&m, "/g", &host("macos")),
        "/g/libraries/a/a.jar:/g/libraries/mac/m.jar:/g/libraries/b/b.jar:/g/versions/1.21/1.21.jar"
    );
    assert_eq!(
        form_classpath(&m, "C:\\g", &host("windows")),
        "C:\\g\\libraries\\a/a.jar;C:\\g\\libraries\\b/b.jar;C:\\g\\versions\\1.21\\1.21.jar"
    );
}

#[test]
fn jvm_arguments_are_selected_and_filled() {
    let m = manifest();
    let args = form_jvm_arguments(&m, "/g", "L", "9", "CP", "/n", &host("linux"));
    assert_eq!(
        args,
        vec![
            "-Djava.library.path=/n",
            "-Dminecraft.launcher.brand=L",
            "-Dminecraft.launcher.version=9",
            "-cp",
            "CP",
            "-Dlog4j.configurationFile=/g/assets/log-configs/client-1.12.xml",
        ]
    );
    let mac = form_jvm_arguments(&m, "/g", "L", "9", "CP", "/n", &host("macos"));
    assert_eq!(mac[0], "-XstartOnFirstThread");
    assert_eq!(mac.len(), 7);
}

#[test]
fn default_user_jvm_arguments_are_selected() {
    let m = manifest();
    assert_eq!(form_default_user_jvm_arguments(&m, &host("linux")), vec!["-Xmx2G"]);
    assert_eq!(form_default_user_jvm_arguments(&m, &host("macos")), vec!["-Xmx2G", "-Dmac"]);
}

#[test]
fn game_arguments_follow_features() {
    let m = manifest();
    let gi = get_game_info("P", "1.21", "/g", "/g/assets", "17", "u", "t", "", "", "release", "854", "480", "", "", "", "");
    let plain = form_game_arguments(&m, &gi, &LaunchFeatures::default(), &host("linux"));
    assert_eq!(plain, vec!["--username", "P", "--version", "1.21"]);
    let mut f = LaunchFeatures::default();
    f.has_custom_resolution = true;
    let sized = form_game_arguments(&m, &gi, &f, &host("linux"));
    assert_eq!(sized, vec!["--username", "P", "--version", "1.21", "--width", "854", "--height", "480"]);
}

#[test]
fn launch_plan_orders_arguments() {
    let m = manifest();
    let n = natives_directory_path(&m, "/g", false);
    assert_eq!(n, "/g/versions/1.21/natives");
    let plan = build_minecraft(&m, "/g", &host("linux"));
    assert_eq!(plan.program, "C:\\Program Files\\Eclipse Adoptium\\jdk-25.0.4.101-hotspot\\bin\\java.exe");
    assert_eq!(plan.working_directory, "/g");
    assert_eq!(
        plan.arguments,
        vec![
            "-Xmx2G",
            "-Djava.library.path=/g/versions/1.21/natives",
            "-Dminecraft.launcher.brand=AsymptoteLauncher",
            "-Dminecraft.launcher.version=0.0.5",
            "-cp",
            "/g/libraries/a/a.jar:/g/libraries/b/b.jar:/g/versions/1.21/1.21.jar",
            "-Dlog4j.configurationFile=/g/assets/log-configs/client-1.12.xml",
            "net.minecraft.client.main.Main",
            "--username",
            "Fr0ymi",
            "--version",
            "1.21",
            "--width",
            "854",
            "--height",
            "480",
        ]
    );
}

#[test]
fn install_locations() {
    let m = manifest();
    assert_eq!(version_json_path("/g", "1.21", false), "/g/versions/1.21/1.21.json");
    let c = client_download(&m, "/g", false);
    assert_eq!(c.path, "/g/versions/1.21/1.21.jar");
    assert_eq!(c.info.url, "https://example/client.jar");
    assert_eq!(asset_index_path(&m.asset_index, "/g", false), "/g/assets/indexes/17.json");
    let l = log_config_download(&m, "/g", false);
    assert_eq!(l.path, "/g/assets/log-configs/client-1.12.xml");
    assert_eq!(l.info.sha1, "11");
}

#[test]
fn libraries_to_install_follow_rules() {
    let m = manifest();
    let libs = libraries_to_install(&m, "/g", &host("linux"));
    let paths: Vec<&str> = libs.iter().map(|d| d.path.as_str()).collect();
    assert_eq!(paths, vec!["/g/libraries/a/a.jar", "/g/libraries/b/b.jar"]);
    assert_eq!(libraries_to_install(&m, "/g", &host("macos")).len(), 3);
}

#[test]
fn assets_go_under_hash_prefix() {
    let assets = Assets {
        objects: vec![AssetObject { hash: "bdf48ef6b5d0d23bbb02e17d04865216179f510a".to_string(), size: 9 }],
    };
    let d = assets_to_install(&assets, "/g", false);
    assert_eq!(d.len(), 1);
    assert_eq!(d[0].path, "/g/assets/objects/bd/bdf48ef6b5d0d23bbb02e17d04865216179f510a");
    assert_eq!(
        d[0].info.url,
        "https://resources.download.minecraft.net/bd/bdf48ef6b5d0d23bbb02e17d04865216179f510a"
    );
    assert_eq!(d[0].info.sha1, "bdf48ef6b5d0d23bbb02e17d04865216179f510a");
    assert_eq!(d[0].info.size, 9);
}

#[test]
fn sha1_hex_of_known_text() {
    assert_eq!(sha1_hex(b"hello world"), "2aae6c35c94fcfb415dbe95f408b9ce91ee846ed");
    assert_eq!(sha1_hex(b""), "da39a3ee5e6b4b0d3255bfef95601890afd80709");
}

#[test]
fn content_matches_checks_size_and_digest() {
    let good = info("2aae6c35c94fcfb415dbe95f408b9ce91ee846ed", 11, "u");
    assert!(content_matches(&good, b"hello world"));
    let wrong_size = info("2aae6c35c94fcfb415dbe95f408b9ce91ee846ed", 12, "u");
    assert!(!content_matches(&wrong_size, b"hello world"));
    let upper = info("2AAE6C35C94FCFB415DBE95F408B9CE91EE846ED", 11, "u");
    assert!(!content_matches(&upper, b"hello world"));
}

fn is_finish(a: &DownloadAction, o: DownloadOutcome) -> bool {
    match (a, o) {
        (DownloadAction::Finish(DownloadOutcome::Installed), DownloadOutcome::Installed) => true,
        (DownloadAction::Finish(DownloadOutcome::AlreadyInstalled), DownloadOutcome::AlreadyInstalled) => true,
        (DownloadAction::Finish(DownloadOutcome::NotInstalled), DownloadOutcome::NotInstalled) => true,
        (DownloadAction::Finish(DownloadOutcome::Failed), DownloadOutcome::Failed) => true,
        _ => false,
    }
}

#[test]
fn download_of_missing_file_writes_verified_copy() {
    let i = info("2aae6c35c94fcfb415dbe95f408b9ce91ee846ed", 11, "u");
    let (s, a) = download_start();
    assert!(matches!(a, DownloadAction::CheckExists));
    assert_eq!(s.attempts_left, 3);
    let (s, a) = download_step(&s, &i, DownloadEvent::Exists(false));
    assert!(matches!(a, DownloadAction::Fetch));
    let (s, a) = download_step(&s, &i, DownloadEvent::Fetched(b"hello world".to_vec()));
    match &a {
        DownloadAction::Write(b) => assert_eq!(b, b"hello world"),
        _ => panic!("expected a write"),
    }
    let (s, a) = download_step(&s, &i, DownloadEvent::Written);
    assert!(is_finish(&a, DownloadOutcome::Installed));
    assert!(matches!(s.awaiting, Awaiting::Done));
}

#[test]
fn download_gives_up_after_three_bad_fetches() {
    let i = info("2aae6c35c94fcfb415dbe95f408b9ce91ee846ed", 11, "u");
    let (mut s, _) = download_start();
    for round in 0..3 {
        let (s1, a) = download_step(&s, &i, DownloadEvent::Exists(false));
        assert!(matches!(a, DownloadAction::Fetch));
        let (s2, a) = download_step(&s1, &i, DownloadEvent::Fetched(b"corrupt".to_vec()));
        if round < 2 {
            assert!(matches!(a, DownloadAction::CheckExists));
            assert_eq!(s2.attempts_left, 2 - round);
        } else {
            assert!(is_finish(&a, DownloadOutcome::NotInstalled));
        }
        s = s2;
    }
}

#[test]
fn existing_file_is_kept_or_replaced() {
    let i = info("2aae6c35c94fcfb415dbe95f408b9ce91ee846ed", 11, "u");
    let (s, _) = download_start();
    let (s, a) = download_step(&s, &i, DownloadEvent::Exists(true));
    assert!(matches!(a, DownloadAction::ReadSize));
    let (s_ok, a) = download_step(&s, &i, DownloadEvent::Size(11));
    assert!(matches!(a, DownloadAction::ReadFile));
    let (_, a) = download_step(&s_ok, &i, DownloadEvent::Contents(b"hello world".to_vec()));
    assert!(is_finish(&a, DownloadOutcome::AlreadyInstalled));
    let (s_bad, a) = download_step(&s_ok, &i, DownloadEvent::Contents(b"hello worle".to_vec()));
    assert!(matches!(a, DownloadAction::Remove));
    let (s_next, a) = download_step(&s_bad, &i, DownloadEvent::Removed);
    assert!(matches!(a, DownloadAction::CheckExists));
    assert_eq!(s_next.attempts_left, 2);
    let (s_wrong, a) = download_step(&s, &i, DownloadEvent::Size(5));
    assert!(matches!(a, DownloadAction::Remove));
    assert_eq!(s_wrong.attempts_left, 3);
}

#[test]
fn repeated_bad_files_on_disk_fail() {
    let i = info("2aae6c35c94fcfb415dbe95f408b9ce91ee846ed", 11, "u");
    let mut s = DownloadState { attempts_left: 1, awaiting: Awaiting::Removal };
    let (s2, a) = download_step(&s, &i, DownloadEvent::Removed);
    assert!(is_finish(&a, DownloadOutcome::Failed));
    assert_eq!(s2.attempts_left, 0);
    s = DownloadState { attempts_left: 2, awaiting: Awaiting::Removal };
    let (s3, a) = download_step(&s, &i, DownloadEvent::Removed);
    assert!(matches!(a, DownloadAction::CheckExists));
    assert_eq!(s3.attempts_left, 1);
}
