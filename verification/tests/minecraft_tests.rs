use amc_launcher::args::ArgumentBuilder;
use amc_launcher::auth::AuthSession;
use amc_launcher::launch::{GameEvent, MinecraftLauncher};
use amc_launcher::loaders::{FabricLoader, ForgeLoader, NeoForgeLoader, OptiFineLoader, QuiltLoader};
use amc_launcher::manifest::{self, LatestVersions, VersionManifest, VersionManifestEntry};
use amc_launcher::error::LauncherError;
use amc_launcher::rules::{self, HostArch, HostOs, OsRule, Platform, Rule, RuleAction};
use amc_launcher::types::{LaunchOptions, ReleaseType};
use amc_launcher::version::{
    ArgumentValue, ArgumentValueNested, FileDownload, JavaVersionInfo, Library, LibraryDownloads,
    VersionArguments, VersionDetails,
};

fn linux() -> Platform {
    Platform { os: HostOs::Linux, arch: HostArch::X86_64 }
}

fn windows() -> Platform {
    Platform { os: HostOs::Windows, arch: HostArch::X86 }
}

fn details(id: &str) -> VersionDetails {
    VersionDetails {
        id: id.to_string(),
        downloads: None,
        asset_index: None,
        libraries: Vec::new(),
        main_class: "net.minecraft.client.main.Main".to_string(),
        arguments: None,
        minecraft_arguments: None,
        java_version: None,
        inherits_from: None,
    }
}

fn lib(name: &str) -> Library {
    Library { name: name.to_string(), downloads: None, rules: None, natives: None, url: None }
}

fn os_rule(action: RuleAction, os: &str) -> Rule {
    Rule { action, os: Some(OsRule { name: Some(os.to_string()), arch: None, version: None }), features: None }
}

#[test]
fn last_applicable_rule_decides() {
    let no_features = Vec::new();
    assert!(rules::allows(None, &no_features, linux()));
    assert!(rules::allows(Some(&Vec::new()), &no_features, linux()));
    let only_osx = vec![os_rule(RuleAction::Allow, "osx")];
    assert!(!rules::allows(Some(&only_osx), &no_features, linux()));
    let all_but_osx = vec![
        Rule { action: RuleAction::Allow, os: None, features: None },
        os_rule(RuleAction::Disallow, "osx"),
    ];
    assert!(rules::allows(Some(&all_but_osx), &no_features, linux()));
    assert!(!rules::allows(Some(&all_but_osx), &no_features, Platform { os: HostOs::MacOs, arch: HostArch::Aarch64 }));
    let demo = vec![Rule {
        action: RuleAction::Allow,
        os: None,
        features: Some(vec![("is_demo_user".to_string(), true)]),
    }];
    assert!(!rules::allows(Some(&demo), &no_features, linux()));
    assert!(rules::allows(Some(&demo), &vec![("is_demo_user".to_string(), true)], linux()));
    assert_eq!(rules::current_os(windows()), "windows");
    assert_eq!(rules::current_arch(Platform { os: HostOs::MacOs, arch: HostArch::Aarch64 }), "arm64");
}

#[test]
fn maven_coordinates_to_paths() {
    assert_eq!(Library::maven_to_path("org.lwjgl:lwjgl:3.3.1"), "org/lwjgl/lwjgl/3.3.1/lwjgl-3.3.1.jar");
    assert_eq!(
        Library::maven_to_path("org.lwjgl:lwjgl:3.3.1:natives-linux"),
        "org/lwjgl/lwjgl/3.3.1/lwjgl-3.3.1-natives-linux.jar"
    );
    assert_eq!(Library::maven_to_path("odd"), "odd");
}

#[test]
fn library_downloads() {
    let mut l = lib("net.fabricmc:fabric-loader:0.15.0");
    l.url = Some("https://maven.fabricmc.net/".to_string());
    let item = l.to_download_item("/libs", linux()).unwrap();
    assert_eq!(item.url, "https://maven.fabricmc.net/net/fabricmc/fabric-loader/0.15.0/fabric-loader-0.15.0.jar");
    assert_eq!(item.destination, "/libs/net/fabricmc/fabric-loader/0.15.0/fabric-loader-0.15.0.jar");
    let mut n = lib("org.lwjgl:lwjgl:3.2.2");
    n.natives = Some(vec![("windows".to_string(), "natives-windows-${arch}".to_string())]);
    n.downloads = Some(LibraryDownloads {
        artifact: None,
        classifiers: Some(vec![(
            "natives-windows-32".to_string(),
            FileDownload { sha1: Some("s".to_string()), size: Some(9), url: "https://x/n.jar".to_string(), path: Some("n/n.jar".to_string()) },
        )]),
    });
    assert_eq!(n.native_classifier(windows()), "natives-windows-32");
    assert_eq!(n.native_classifier(linux()), "natives-linux");
    let it = n.to_download_item("/libs", windows()).unwrap();
    assert_eq!(it.destination, "/libs/n/n.jar");
    assert_eq!(it.size, Some(9));
    assert!(n.to_download_item("/libs", linux()).is_none());
    assert!(lib("a:b:c").to_download_item("/libs", linux()).is_none());
    assert!(lib("a:b:c").is_allowed(&Vec::new(), linux()));
}

#[test]
fn java_major_versions() {
    assert_eq!(details("1.20.4").required_java_major(), 21);
    assert_eq!(details("1.18.2").required_java_major(), 17);
    assert_eq!(details("1.12.2").required_java_major(), 8);
    let mut d = details("1.20.4");
    d.java_version = Some(JavaVersionInfo { component: None, major_version: 17 });
    assert_eq!(d.required_java_major(), 17);
}

#[test]
fn inheriting_from_a_parent_version() {
    let mut child = details("fabric-1.20.1");
    child.libraries = vec![lib("net.fabricmc:fabric-loader:0.15.0"), lib("org.ow2.asm:asm:9.6")];
    child.arguments = Some(VersionArguments { game: vec![ArgumentValue::Simple("--child".to_string())], jvm: Vec::new() });
    let mut parent = details("1.20.1");
    parent.libraries = vec![lib("org.ow2.asm:asm:9.6"), lib("com.mojang:brigadier:1.1.8")];
    parent.arguments = Some(VersionArguments { game: vec![ArgumentValue::Simple("--parent".to_string())], jvm: Vec::new() });
    parent.java_version = Some(JavaVersionInfo { component: None, major_version: 17 });
    child.merge_parent(parent);
    let names: Vec<&str> = child.libraries.iter().map(|l| l.name.as_str()).collect();
    assert_eq!(names, vec!["net.fabricmc:fabric-loader:0.15.0", "org.ow2.asm:asm:9.6", "com.mojang:brigadier:1.1.8"]);
    assert_eq!(child.id, "fabric-1.20.1");
    assert_eq!(child.java_version.as_ref().unwrap().major_version, 17);
    let game = &child.arguments.as_ref().unwrap().game;
    assert!(matches!(&game[0], ArgumentValue::Simple(s) if s == "--parent"));
    assert!(matches!(&game[1], ArgumentValue::Simple(s) if s == "--child"));
}

#[test]
fn native_entries() {
    assert_eq!(VersionDetails::native_entry_target("org/lwjgl/liblwjgl.so", linux()).as_deref(), Some("liblwjgl.so"));
    assert_eq!(VersionDetails::native_entry_target("META-INF/x.so", linux()), None);
    assert_eq!(VersionDetails::native_entry_target("lwjgl.dll", linux()), None);
    assert_eq!(VersionDetails::native_entry_target("lwjgl.dll", windows()).as_deref(), Some("lwjgl.dll"));
}

fn session() -> AuthSession {
    AuthSession {
        username: "Steve".to_string(),
        uuid: "uuid-1".to_string(),
        access_token: "0".to_string(),
        user_type: "legacy".to_string(),
        xuid: None,
    }
}

#[test]
fn command_line_of_a_launch() {
    let mut opts = LaunchOptions::default();
    opts.custom_jvm_args = vec!["-Dx=1".to_string(), "  ".to_string()];
    let mut d = details("1.12.2");
    d.minecraft_arguments = Some("--username ${auth_player_name} --version ${version_name}".to_string());
    let features = Vec::new();
    let jvm = ArgumentBuilder::build_jvm_args(&opts, "/n", "a.jar:b.jar", &d, &features, linux());
    assert_eq!(jvm, vec!["-Xms1024M", "-Xmx4096M", "-Djava.library.path=/n", "-Dstdout.encoding=UTF-8", "-Dstderr.encoding=UTF-8", "-Dx=1", "-cp", "a.jar:b.jar"]);
    let game = ArgumentBuilder::build_game_args(&opts, "/g", "/a", &d, &session(), &features, linux());
    assert_eq!(game, vec!["--username", "Steve", "--version", "1.12.2", "--width", "1280", "--height", "720"]);
    opts.fullscreen = true;
    opts.quick_play_server = Some("mc.example".to_string());
    let game = ArgumentBuilder::build_game_args(&opts, "/g", "/a", &d, &session(), &features, linux());
    assert_eq!(game[4..].to_vec(), vec!["--fullscreen", "--quickPlayMultiplayer", "mc.example:25565", "--server", "mc.example", "--port", "25565"]);
    let cp = ArgumentBuilder::build_classpath(
        &vec![("a.jar".to_string(), true), ("x.jar".to_string(), false), ("b.jar".to_string(), true)],
        "c.jar",
        windows(),
    );
    assert_eq!(cp, "a.jar;b.jar;c.jar");
    assert_eq!(ArgumentBuilder::build_classpath(&vec![("x.jar".to_string(), false)], "c.jar", linux()), "c.jar");
    let libs = vec![("a.jar".to_string(), true)];
    let line = MinecraftLauncher::command_line("/g", "/a", "/n", &libs, "c.jar", &d, &session(), &LaunchOptions::default(), linux());
    assert!(line.contains(&"net.minecraft.client.main.Main".to_string()));
    assert_eq!(line[line.len() - 4..].to_vec(), vec!["--width", "1280", "--height", "720"]);
}

#[test]
fn modern_arguments_with_rules() {
    let mut d = details("1.20.1");
    d.arguments = Some(VersionArguments {
        game: vec![
            ArgumentValue::Simple("--gameDir".to_string()),
            ArgumentValue::Simple("${game_directory}".to_string()),
            ArgumentValue::Complex {
                rules: Some(vec![Rule { action: RuleAction::Allow, os: None, features: Some(vec![("is_demo_user".to_string(), true)]) }]),
                value: ArgumentValueNested::Single("--demo".to_string()),
            },
        ],
        jvm: vec![
            ArgumentValue::Complex {
                rules: Some(vec![os_rule(RuleAction::Allow, "windows")]),
                value: ArgumentValueNested::Multiple(vec!["-XstartOnFirstThread".to_string()]),
            },
            ArgumentValue::Simple("-cp".to_string()),
            ArgumentValue::Simple("${classpath}".to_string()),
        ],
    });
    let opts = LaunchOptions { custom_jvm_args: Vec::new(), ..LaunchOptions::default() };
    let jvm = ArgumentBuilder::build_jvm_args(&opts, "/v/natives", "cp.jar", &d, &Vec::new(), linux());
    assert_eq!(jvm[5..].to_vec(), vec!["-cp", "cp.jar"]);
    let jvm_w = ArgumentBuilder::build_jvm_args(&opts, "/v/natives", "cp.jar", &d, &Vec::new(), windows());
    assert_eq!(jvm_w[5], "-XstartOnFirstThread");
    let game = ArgumentBuilder::build_game_args(&opts, "/g", "/a", &d, &session(), &Vec::new(), linux());
    assert_eq!(game[..2].to_vec(), vec!["--gameDir", "/g"]);
}

#[test]
fn manifest_entries_become_game_versions() {
    let entry = |id: &str, t: &str, time: &str| VersionManifestEntry {
        id: id.to_string(),
        version_type: t.to_string(),
        url: format!("https://x/{id}.json"),
        time: time.to_string(),
        release_time: time.to_string(),
        sha1: None,
    };
    let m = VersionManifest {
        latest: LatestVersions { release: "1.20.4".to_string(), snapshot: "24w01a".to_string() },
        versions: vec![
            entry("1.20.4", "release", "2023-12-07T12:56:20+00:00"),
            entry("24w01a", "snapshot", "2024-01-03T00:00:00+00:00"),
            entry("b1.7.3", "old_beta", "2011-07-07T22:00:00+00:00"),
            entry("a1.0", "old_alpha", "2010-07-01T00:00:00+00:00"),
            entry("x", "mystery", "not a time"),
        ],
    };
    let v = m.to_game_versions();
    assert_eq!(v.len(), 5);
    assert_eq!(v[0].release_type, ReleaseType::Release);
    assert_eq!(v[0].release_time, 1701953780000);
    assert_eq!(v[1].release_type, ReleaseType::Snapshot);
    assert_eq!(v[2].release_type, ReleaseType::Beta);
    assert_eq!(v[3].release_type, ReleaseType::Alpha);
    assert_eq!(v[4].release_type, ReleaseType::Old);
    assert_eq!(v[0].url, "https://x/1.20.4.json");
    assert_eq!(manifest::manifest_url(), "https://piston-meta.mojang.com/mc/game/version_manifest_v2.json");
    let g = manifest::game_version_at(&m.versions[4], None, 77);
    assert_eq!(g.release_time, 77);
}

#[test]
fn loader_urls() {
    assert_eq!(FabricLoader::loader_list_url("1.20.1"), "https://meta.fabricmc.net/v2/versions/loader/1.20.1");
    assert_eq!(FabricLoader::profile_url("1.20.1", "0.15.0"), "https://meta.fabricmc.net/v2/versions/loader/1.20.1/0.15.0/profile/json");
    assert_eq!(QuiltLoader::profile_url("1.20.1", "0.23.0"), "https://meta.quiltmc.org/v3/versions/loader/1.20.1/0.23.0/profile/json");
    assert_eq!(ForgeLoader::installer_url("1.20.1", "47.2.0"), "https://maven.minecraftforge.net/net/minecraftforge/forge/1.20.1-47.2.0/forge-1.20.1-47.2.0-installer.jar");
    assert_eq!(ForgeLoader::version_id("1.20.1", "47.2.0"), "1.20.1-forge-47.2.0");
    assert_eq!(ForgeLoader::list_url("1.20.1"), "https://bmclapi2.bangbang93.com/forge/minecraft/1.20.1");
    assert_eq!(NeoForgeLoader::installer_url("20.4.80"), "https://maven.neoforged.net/releases/net/neoforged/neoforge/20.4.80/neoforge-20.4.80-installer.jar");
    assert_eq!(NeoForgeLoader::version_id("1.20.4", "20.4.80"), "1.20.4-neoforge-20.4.80");
    assert_eq!(OptiFineLoader::download_url("OptiFine_1.20.1_HD_U_I6.jar"), "https://bmclapi2.bangbang93.com/optifine/download?filename=OptiFine_1.20.1_HD_U_I6.jar");
    assert_eq!(OptiFineLoader::versions_url("1.20.1"), "https://bmclapi2.bangbang93.com/optifine/1.20.1");
    assert!(OptiFineLoader::versions_from_reply(None).is_empty());
}

#[test]
fn loader_version_choice() {
    let fabric = Some(vec![("0.16.0-beta".to_string(), false), ("0.15.11".to_string(), true), ("0.15.10".to_string(), true)]);
    assert_eq!(FabricLoader::latest_from_reply("1.20.1", &fabric).unwrap(), "0.15.11");
    let unstable = Some(vec![("0.16.0-beta".to_string(), false)]);
    assert_eq!(FabricLoader::latest_from_reply("1.20.1", &unstable).unwrap(), "0.16.0-beta");
    match FabricLoader::latest_from_reply("1.20.1", &Some(Vec::new())) {
        Err(LauncherError::Loader(m)) => assert_eq!(m, "Empty Fabric loader list for MC 1.20.1"),
        _ => panic!(),
    }
    match FabricLoader::latest_from_reply("9.9", &None) {
        Err(LauncherError::Loader(m)) => assert_eq!(m, "No Fabric loader found for MC 9.9"),
        _ => panic!(),
    }
    let forge = Some(vec![("47.1.0".to_string(), 10), ("47.2.0".to_string(), 20), ("47.2.1".to_string(), 20)]);
    assert_eq!(ForgeLoader::latest_from_reply("1.20.1", &forge).unwrap(), "47.2.1");
    match ForgeLoader::latest_from_reply("1.20.1", &Some(Vec::new())) {
        Err(LauncherError::Loader(m)) => assert_eq!(m, "Empty Forge list"),
        _ => panic!(),
    }
    let neo = Some(vec!["20.4.80".to_string(), "21.0.1".to_string(), "20.4.99".to_string(), "21.1.5".to_string()]);
    assert_eq!(NeoForgeLoader::latest_from_reply("1.20.4", &neo).unwrap(), "20.4.99");
    assert_eq!(NeoForgeLoader::latest_from_reply("1.21.1", &neo).unwrap(), "21.1.5");
    assert_eq!(NeoForgeLoader::latest_from_reply("1.19.2", &neo).unwrap(), "21.1.5");
    match NeoForgeLoader::latest_from_reply("1.20.4", &Some(vec!["21.0.1".to_string()])) {
        Err(LauncherError::Loader(m)) => assert_eq!(m, "No NeoForge version found for 1.20.4"),
        _ => panic!(),
    }
    assert_eq!(QuiltLoader::latest_from_reply("1.20.1", &Some(vec!["0.23.0".to_string(), "0.22.0".to_string()])).unwrap(), "0.23.0");
}

#[test]
fn game_events() {
    match GameEvent::from_exit(false, Some(1)) {
        GameEvent::Crashed { message } => assert_eq!(message, "Process exited with status Some(1)"),
        _ => panic!(),
    }
    match GameEvent::from_exit(false, None) {
        GameEvent::Crashed { message } => assert_eq!(message, "Process exited with status None"),
        _ => panic!(),
    }
    assert!(matches!(GameEvent::from_exit(true, Some(0)), GameEvent::Exited { code: Some(0) }));
    assert!(matches!(GameEvent::error_line("boom"), GameEvent::LogLine(l) if l == "[ERROR] boom"));
    assert!(matches!(MinecraftLauncher::missing_java("/j"), LauncherError::Java(m) if m == "Java binary not found at /j"));
}
