use amc_launcher::error::LauncherError;
use amc_launcher::i18n::Language;
use amc_launcher::ids::uuid_to_string;
use amc_launcher::paths::{self, LauncherPaths};
use amc_launcher::text;
use amc_launcher::types::{Instance, LaunchOptions, LoaderType, ReleaseType};

#[test]
fn decimal_and_hex_texts() {
    assert_eq!(text::decimal_string(0), "0");
    assert_eq!(text::decimal_string(1234567890), "1234567890");
    assert_eq!(text::signed_decimal_string(-42), "-42");
    assert_eq!(text::signed_decimal_string(i64::MIN), "-9223372036854775808");
    assert_eq!(text::hex_string(&[0x00, 0xab, 0x0f]), "00ab0f");
}

#[test]
fn trimming_and_searching() {
    assert_eq!(text::trimmed("  a b \t"), "a b");
    assert_eq!(text::trimmed("   "), "");
    assert!(text::starts_with("1.20.1", "1.20"));
    assert!(!text::starts_with("1.2", "1.20"));
    assert!(text::ends_with("mod.jar", ".jar"));
    assert!(text::contains("hello world", "o w"));
    assert!(!text::contains("hello", "xyz"));
    assert_eq!(text::replace("a-b-c", "-", "+"), "a+b+c");
    assert_eq!(text::trim_start_matches("modId=modId=x", "modId="), "x");
    assert_eq!(text::trim_end_matches("a.jar.jar", ".jar"), "a");
    assert_eq!(text::trim_matches_char("\"\"quoted\"", '"'), "quoted");
    assert!(text::str_lex_le("apple", "banana"));
    assert!(text::str_lex_le("app", "apple"));
    assert!(!text::str_lex_le("b", "a"));
    assert!(text::str_eq_ignore_ascii_case("ABCdef", "abcDEF"));
}

#[test]
fn path_joining_follows_pathbuf_push() {
    assert_eq!(paths::join("/root", "assets"), "/root/assets");
    assert_eq!(paths::join("/root/", "assets"), "/root/assets");
    assert_eq!(paths::join("/root", "/abs"), "/abs");
    assert_eq!(paths::join("", "x"), "x");
    assert_eq!(paths::parent("/a/b/c.jar"), "/a/b");
    assert_eq!(paths::parent("c.jar"), "");
    assert_eq!(paths::file_name_of("/a/b/c.jar"), "c.jar");
    assert_eq!(paths::file_name_of("/a/b/"), "b");
    assert_eq!(paths::replace_extension("/r/java17", "zip"), "/r/java17.zip");
    assert_eq!(paths::replace_extension("/r/a.tar", "gz"), "/r/a.gz");
}

#[test]
fn launcher_paths_below_root() {
    let p = LauncherPaths::custom("/home/u/.amc");
    assert_eq!(p.instances_dir(), "/home/u/.amc/instances");
    assert_eq!(p.versions_dir(), "/home/u/.amc/versions");
    assert_eq!(p.assets_dir(), "/home/u/.amc/assets");
    assert_eq!(p.asset_indexes_dir(), "/home/u/.amc/assets/indexes");
    assert_eq!(p.asset_objects_dir(), "/home/u/.amc/assets/objects");
    assert_eq!(p.libraries_dir(), "/home/u/.amc/libraries");
    assert_eq!(p.runtimes_dir(), "/home/u/.amc/runtimes");
    assert_eq!(p.cache_dir(), "/home/u/.amc/cache");
    assert_eq!(p.logs_dir(), "/home/u/.amc/logs");
    assert_eq!(p.config_file(), "/home/u/.amc/config.json");
    assert_eq!(p.accounts_file(), "/home/u/.amc/accounts.json");
    assert_eq!(p.instances_file(), "/home/u/.amc/instances.json");
    assert_eq!(p.required_directories().len(), 8);
    assert_eq!(p.required_directories()[0], "/home/u/.amc");
}

#[test]
fn uuid_text_form() {
    assert_eq!(
        uuid_to_string(0x0123456789abcdef0123456789abcdef),
        "01234567-89ab-cdef-0123-456789abcdef"
    );
    assert_eq!(uuid_to_string(0), "00000000-0000-0000-0000-000000000000");
}

#[test]
fn instance_game_dir_is_sanitized_name() {
    let mut inst = Instance::new("My Pack!", "1.20.1", LoaderType::Fabric);
    assert_eq!(inst.get_game_dir("/i"), "/i/My Pack_");
    inst.name = "   ".to_string();
    let dir = inst.get_game_dir("/i");
    assert_eq!(dir, format!("/i/{}", uuid_to_string(inst.id)));
    inst.custom_dir = Some("/custom".to_string());
    assert_eq!(inst.get_game_dir("/i"), "/custom");
    assert_eq!(inst.game_subdirectories("/i").len(), 6);
    assert_eq!(inst.game_subdirectories("/i")[5], "/custom/screenshots");
}

#[test]
fn instance_folder_names_stay_below_the_base() {
    let mut inst = Instance::new("My/Pack: 1.20", "1.20.1", LoaderType::Vanilla);
    assert_eq!(inst.get_game_dir("/i"), "/i/My_Pack_ 1_20");
    inst.name = "../..".to_string();
    assert_eq!(inst.get_game_dir("/i/"), "/i/_____");
    assert_eq!((inst.id >> 76) & 0xf, 4);
    assert_eq!((inst.id >> 62) & 0x3, 2);
    assert!(inst.created_at > 0);
}

#[test]
fn names_of_loaders_and_channels() {
    assert_eq!(LoaderType::NeoForge.as_str(), "NeoForge");
    assert_eq!(LoaderType::default(), LoaderType::Vanilla);
    assert_eq!(ReleaseType::Snapshot.as_str(), "Snapshot");
    assert_eq!(ReleaseType::default(), ReleaseType::Release);
}

#[test]
fn default_launch_options() {
    let o = LaunchOptions::default();
    assert_eq!(o.memory_min_mb, 1024);
    assert_eq!(o.memory_max_mb, 4096);
    assert_eq!(o.custom_jvm_args.len(), 6);
    assert_eq!(o.custom_jvm_args[1], "-XX:+UseG1GC");
    assert_eq!((o.window_width, o.window_height), (1280, 720));
}

#[test]
fn error_messages() {
    assert_eq!(
        LauncherError::Auth("x".to_string()).to_message(),
        "Authentication error: x"
    );
    assert_eq!(LauncherError::Custom("plain".to_string()).to_message(), "plain");
    let e = LauncherError::ChecksumMismatch {
        file: "a.jar".to_string(),
        expected: "11".to_string(),
        actual: "22".to_string(),
    };
    assert_eq!(
        e.to_message(),
        "Download integrity check failed for a.jar: expected sha1 11, calculated 22"
    );
    let io = LauncherError::Io { path: "/x".to_string(), message: "denied".to_string() };
    assert_eq!(io.to_message(), "IO error at /x: denied");
}

#[test]
fn language_parsing_trims_and_ignores_case() {
    assert_eq!(Language::parse_code("  EN "), Language::English);
    assert_eq!(Language::parse_code("UA"), Language::Ukrainian);
    assert_eq!(Language::default(), Language::Russian);
    assert_eq!(Language::English.home_selected_badge("1.20.1"), "Selected: 1.20.1");
}

#[test]
fn every_language_code_parses_back() {
    for lang in Language::ALL {
        assert_eq!(Language::parse_code(lang.code()), lang);
    }
}

#[test]
fn path_parts_agree_with_std_path() {
    let samples = [
        "", "/", ".", "..", "a", "a/", "a//b", "a/./b", "a/.", "a/..", "./a", "/a", "//a",
        "/a/b/", "a/b/.//", "./", "/.", "a.b/c.d", ".hidden", "x/.hidden", "a/../b",
        "/i/My Pack", "a///", "./.", "../x",
    ];
    for p in samples {
        let std_path = std::path::Path::new(p);
        let parent = std_path.parent().map(|x| x.to_str().unwrap()).unwrap_or("");
        let name = std_path.file_name().map(|x| x.to_str().unwrap()).unwrap_or("");
        assert_eq!(paths::parent(p), parent, "parent of {p:?}");
        assert_eq!(paths::file_name_of(p), name, "file name of {p:?}");
        let with_ext = std_path.with_extension("zip");
        assert_eq!(paths::replace_extension(p, "zip"), with_ext.to_str().unwrap(), "extension of {p:?}");
    }
}
