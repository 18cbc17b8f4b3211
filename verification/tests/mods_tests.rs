use amc_launcher::curseforge::{CurseForgeQueries, FileItem, SearchItem};
use amc_launcher::error::LauncherError;
use amc_launcher::modrinth::{ModrinthQueries, ProjectVersion, SearchHit, VersionFile};
use amc_launcher::mods::{
    parse_mods_toml, sort_by_name, FabricModMetadata, LocalMod, LocalModManager, McModInfoEntry,
    ModCategory, ModSource, ScannedFile,
};

fn local(name: &str) -> LocalMod {
    LocalMod {
        filename: format!("{name}.jar"),
        path: format!("/m/{name}.jar"),
        name: name.to_string(),
        id: name.to_lowercase(),
        version: "1".to_string(),
        description: String::new(),
        enabled: true,
        file_size: 1,
    }
}

#[test]
fn mods_toml_keys() {
    let toml = "modLoader=\"javafml\"\n[[mods]]\n  modId=\"examplemod\"\r\n  version=\"1.2.3\"\n  displayName=\"Example Mod\"\n  description='''x'''\n";
    let (name, id, version, description) = parse_mods_toml(toml).unwrap();
    assert_eq!(name, "Example Mod");
    assert_eq!(id, "examplemod");
    assert_eq!(version, "1.2.3");
    assert_eq!(description, "'''x'''");
    let bare = parse_mods_toml("modId=\"only\"").unwrap();
    assert_eq!((bare.0.as_str(), bare.2.as_str()), ("only", "1.0.0"));
    assert!(parse_mods_toml("displayName=\"no id\"").is_none());
}

#[test]
fn jar_metadata_priority() {
    let fabric = Some(FabricModMetadata { id: "sodium".to_string(), name: None, version: None, description: None });
    let m = LocalModManager::jar_metadata(&fabric, &Some("modId=\"other\"".to_string()), &None).unwrap();
    assert_eq!(m, ("sodium".to_string(), "sodium".to_string(), "1.0.0".to_string(), String::new()));
    let m = LocalModManager::jar_metadata(&None, &Some("modId=\"other\"".to_string()), &None).unwrap();
    assert_eq!(m.1, "other");
    let legacy = Some(vec![McModInfoEntry {
        modid: "old".to_string(),
        name: Some("Old Mod".to_string()),
        version: Some("0.1".to_string()),
        description: Some("d".to_string()),
    }]);
    let m = LocalModManager::jar_metadata(&None, &Some("nothing".to_string()), &legacy).unwrap();
    assert_eq!(m, ("Old Mod".to_string(), "old".to_string(), "0.1".to_string(), "d".to_string()));
    assert!(LocalModManager::jar_metadata(&None, &None, &Some(Vec::new())).is_none());
}

#[test]
fn mod_files_and_fallback_names() {
    assert!(LocalModManager::is_mod_file("a.jar"));
    assert!(LocalModManager::is_mod_file("a.jar.disabled"));
    assert!(!LocalModManager::is_mod_file("readme.txt"));
    let m = LocalModManager::mod_entry("cool.jar.disabled", "/m/cool.jar.disabled", 10, None).unwrap();
    assert_eq!(m.name, "cool");
    assert_eq!(m.id, "cool");
    assert_eq!(m.version, "unknown");
    assert!(!m.enabled);
    assert!(LocalModManager::mod_entry("x.zip", "/m/x.zip", 1, None).is_none());
}

#[test]
fn mods_are_listed_by_lower_case_name() {
    let files = vec![
        ScannedFile { filename: "b.jar".to_string(), path: "/m/b.jar".to_string(), file_size: 1, info: Some(("beta".to_string(), "b".to_string(), "1".to_string(), String::new())) },
        ScannedFile { filename: "notes.txt".to_string(), path: "/m/notes.txt".to_string(), file_size: 1, info: None },
        ScannedFile { filename: "A.jar".to_string(), path: "/m/A.jar".to_string(), file_size: 1, info: Some(("Alpha".to_string(), "a".to_string(), "1".to_string(), String::new())) },
        ScannedFile { filename: "c.jar.disabled".to_string(), path: "/m/c.jar.disabled".to_string(), file_size: 1, info: None },
    ];
    let mods = LocalModManager::collect_mods(files);
    let names: Vec<&str> = mods.iter().map(|m| m.name.as_str()).collect();
    assert_eq!(names, vec!["Alpha", "beta", "c"]);
    let sorted = sort_by_name(vec![local("Zeta"), local("alpha"), local("Beta")]);
    let names: Vec<&str> = sorted.iter().map(|m| m.name.as_str()).collect();
    assert_eq!(names, vec!["alpha", "Beta", "Zeta"]);
}

#[test]
fn mods_with_equal_names_keep_their_order() {
    let mut first = local("Same");
    first.path = "/m/first.jar".to_string();
    let mut second = local("same");
    second.path = "/m/second.jar".to_string();
    let mut third = local("SAME");
    third.path = "/m/third.jar".to_string();
    let sorted = sort_by_name(vec![first, local("b"), second, local("A"), third]);
    let paths: Vec<&str> = sorted.iter().map(|m| m.path.as_str()).collect();
    assert_eq!(paths, vec!["/m/A.jar", "/m/b.jar", "/m/first.jar", "/m/second.jar", "/m/third.jar"]);
}

#[test]
fn switching_mods_on_and_off() {
    assert_eq!(LocalModManager::toggled_path("/m/a.jar").unwrap(), "/m/a.jar.disabled");
    assert_eq!(LocalModManager::toggled_path("/m/a.jar.disabled").unwrap(), "/m/a.jar");
    match LocalModManager::toggled_path("/m/a.txt") {
        Err(LauncherError::Custom(m)) => assert_eq!(m, "File is not a recognized mod"),
        _ => panic!(),
    }
    match LocalModManager::toggled_path("") {
        Err(LauncherError::Custom(m)) => assert_eq!(m, "Invalid mod filename"),
        _ => panic!(),
    }
    assert_eq!(LocalModManager::import_destination("/dl/x.jar", "/m").unwrap(), "/m/x.jar");
    assert!(LocalModManager::import_destination("", "/m").is_err());
}

#[test]
fn modrinth_queries() {
    assert_eq!(ModrinthQueries::search_url(), "https://api.modrinth.com/v2/search");
    let f = ModrinthQueries::facets(Some("Fabric"), Some("1.20.1"));
    assert_eq!(f, vec![vec!["project_type:mod".to_string()], vec!["categories:fabric".to_string()], vec!["versions:1.20.1".to_string()]]);
    assert_eq!(ModrinthQueries::facets(Some(""), None).len(), 1);
    let p = ModrinthQueries::search_params("sodium", Some("Fabric"), None, 20);
    assert_eq!(p[1].1, "[[\"project_type:mod\"],[\"categories:fabric\"]]");
    assert_eq!(p[2], ("limit".to_string(), "20".to_string()));
    let odd = ModrinthQueries::search_params("x", None, Some("1\"2\\3\t\u{1}é"), 5);
    assert_eq!(odd[1].1, "[[\"project_type:mod\"],[\"versions:1\\\"2\\\\3\\t\\u0001é\"]]");
    assert_eq!(p[3], ("index".to_string(), "relevance".to_string()));
    assert_eq!(
        ModrinthQueries::versions_url("sodium", Some("Fabric"), Some("1.20.1")),
        "https://api.modrinth.com/v2/project/sodium/version?game_versions=[\"1.20.1\"]&loaders=[\"fabric\"]"
    );
    assert_eq!(ModrinthQueries::versions_url("sodium", None, None), "https://api.modrinth.com/v2/project/sodium/version");
    let hits = vec![SearchHit { slug: "sodium".to_string(), title: "Sodium".to_string(), author: "jelly".to_string(), downloads: 5, description: "fast".to_string(), icon_url: None }];
    let r = ModrinthQueries::results_from_hits(&hits);
    assert_eq!(r[0].source, ModSource::Modrinth);
    assert_eq!(r[0].id, "sodium");
    assert_eq!(r[0].category, ModCategory::Mod);
}

#[test]
fn modrinth_file_choice() {
    let file = |name: &str, primary: bool| VersionFile {
        url: format!("https://cdn/{name}"),
        filename: name.to_string(),
        primary,
        size: 7,
        sha1: Some("h".to_string()),
    };
    let v = vec![ProjectVersion { version_number: "0.5".to_string(), files: vec![file("a.jar", false), file("b.jar", true)] }];
    let d = ModrinthQueries::download_from_versions(&v).unwrap();
    assert_eq!(d.filename, "b.jar");
    assert_eq!(d.version, "0.5");
    assert_eq!(d.size, Some(7));
    let v = vec![ProjectVersion { version_number: "0.4".to_string(), files: vec![file("a.jar", false)] }];
    assert_eq!(ModrinthQueries::download_from_versions(&v).unwrap().filename, "a.jar");
    match ModrinthQueries::download_from_versions(&Vec::new()) {
        Err(LauncherError::Custom(m)) => assert_eq!(m, "No compatible mod version found"),
        _ => panic!(),
    }
    let empty = vec![ProjectVersion { version_number: "1".to_string(), files: Vec::new() }];
    match ModrinthQueries::download_from_versions(&empty) {
        Err(LauncherError::Custom(m)) => assert_eq!(m, "Mod version has no files"),
        _ => panic!(),
    }
}

#[test]
fn curseforge_queries() {
    assert_eq!(CurseForgeQueries::loader_to_id("NeoForge"), Some(6));
    assert_eq!(CurseForgeQueries::loader_to_id("forge"), Some(1));
    assert_eq!(CurseForgeQueries::loader_to_id("vanilla"), None);
    assert_eq!(
        CurseForgeQueries::search_url("jei", Some("Forge"), Some("1.20.1"), 25),
        "https://api.curse.tools/v1/cf/mods/search?gameId=432&pageSize=25&searchFilter=jei&modLoaderType=1&gameVersion=1.20.1"
    );
    assert_eq!(
        CurseForgeQueries::files_url("238222", Some("optifine"), Some("")),
        "https://api.curse.tools/v1/cf/mods/238222/files?pageSize=20"
    );
    assert_eq!(CurseForgeQueries::alternative_url("238222", 99), "https://api.curse.tools/v1/cf/mods/238222/files/99/download-url");
    let items = vec![SearchItem { id: 238222, name: "JEI".to_string(), downloads: 1, summary: "s".to_string(), authors: Vec::new(), logo: Some("l".to_string()) }];
    let r = CurseForgeQueries::results_from_items(&items);
    assert_eq!(r[0].id, "238222");
    assert_eq!(r[0].author, "Unknown");
    assert_eq!(r[0].source, ModSource::CurseForge);
}

#[test]
fn curseforge_download_file() {
    match CurseForgeQueries::first_file(Vec::new()) {
        Err(LauncherError::Custom(m)) => assert_eq!(m, "No files for this Minecraft version"),
        _ => panic!(),
    }
    let f = CurseForgeQueries::first_file(vec![FileItem { id: 1, file_name: "jei.jar".to_string(), download_url: None }]).unwrap();
    let d = CurseForgeQueries::download_file(f, Some("https://alt/jei.jar".to_string())).unwrap();
    assert_eq!(d.url, "https://alt/jei.jar");
    assert_eq!(d.version, "latest");
    let no_url = FileItem { id: 1, file_name: "jei.jar".to_string(), download_url: None };
    match CurseForgeQueries::download_file(no_url, None) {
        Err(LauncherError::Custom(m)) => assert_eq!(m, "Mod author disabled external distribution"),
        _ => panic!(),
    }
}

#[test]
fn switching_twice_gives_the_path_back() {
    for p in ["/m/a.jar", "/m/a.jar.disabled", "a.jar", "/x.disabled.jar", "/m/b.jar.jar.disabled"] {
        let once = LocalModManager::toggled_path(p).unwrap();
        assert_eq!(LocalModManager::toggled_path(&once).unwrap(), p);
    }
    for (p, back) in [("/m//a.jar", "/m/a.jar"), ("/m/./a.jar.disabled/", "/m/a.jar.disabled"), ("./a.jar", "./a.jar")] {
        let once = LocalModManager::toggled_path(p).unwrap();
        let twice = LocalModManager::toggled_path(&once).unwrap();
        assert_eq!(twice, back);
        assert_eq!(std::path::Path::new(&twice), std::path::Path::new(p));
    }
}
