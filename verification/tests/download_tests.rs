use amc_launcher::assets::{AssetIndex, AssetObject};
use amc_launcher::download::{
    self, after_failure, format_eta, sha1_hex, temp_path, total_bytes, DownloadItem, ExistingFile,
    RetryDecision,
};
use amc_launcher::error::LauncherError;
use amc_launcher::java::AdoptiumInstaller;
use amc_launcher::rules::{HostArch, HostOs, Platform};

fn linux() -> Platform {
    Platform { os: HostOs::Linux, arch: HostArch::X86_64 }
}

#[test]
fn sha1_of_known_text() {
    assert_eq!(sha1_hex(b"abc"), "a9993e364706816aba3e25717850c26c9cd0d89d");
    assert_eq!(sha1_hex(b""), "da39a3ee5e6b4b0d3255bfef95601890afd80709");
}

#[test]
fn checksum_verification() {
    let item = DownloadItem::new("u", "/d/f.jar").with_sha1("A9993E364706816ABA3E25717850C26C9CD0D89D");
    assert!(item.verify_download(b"abc", "f.jar").is_ok());
    match item.verify_download(b"abd", "f.jar") {
        Err(LauncherError::ChecksumMismatch { file, expected, actual }) => {
            assert_eq!(file, "f.jar");
            assert_eq!(expected, "A9993E364706816ABA3E25717850C26C9CD0D89D");
            assert_eq!(actual, sha1_hex(b"abd"));
        }
        _ => panic!("expected a mismatch"),
    }
    assert!(DownloadItem::new("u", "d").verify_download(b"anything", "d").is_ok());
}

#[test]
fn existing_files_that_can_stay() {
    let with_sha = DownloadItem::new("u", "/d/a").with_sha1("abc");
    let same = Some(ExistingFile { sha1: Some("ABC".to_string()), len: Some(3) });
    let other = Some(ExistingFile { sha1: Some("abd".to_string()), len: Some(3) });
    assert!(with_sha.can_skip(&same));
    assert!(!with_sha.can_skip(&other));
    assert!(!with_sha.can_skip(&None));
    let with_size = DownloadItem::new("u", "/d/a").with_size(3);
    assert!(with_size.can_skip(&Some(ExistingFile { sha1: None, len: Some(3) })));
    assert!(!with_size.can_skip(&Some(ExistingFile { sha1: None, len: Some(4) })));
    assert!(!DownloadItem::new("u", "/d/a").can_skip(&same));
}

#[test]
fn retries_and_progress_texts() {
    assert_eq!(download::DOWNLOAD_ATTEMPTS, 3);
    assert_eq!(after_failure(3), RetryDecision::RetryAfterDelay { remaining: 2 });
    assert_eq!(after_failure(1), RetryDecision::GiveUp);
    assert_eq!(format_eta(Some(125)), "2 мин 5 сек");
    assert_eq!(format_eta(Some(59)), "59 сек");
    assert_eq!(format_eta(None), "--");
    assert_eq!(temp_path("/d/client.jar"), "/d/client.amctmp");
    let items = vec![
        DownloadItem::new("a", "b").with_size(10),
        DownloadItem::new("a", "c"),
        DownloadItem::new("a", "d").with_size(5),
    ];
    assert_eq!(total_bytes(&items), 15);
    assert_eq!(DownloadItem::new("u", "/x/y/z.bin").display_name(), "z.bin");
    assert_eq!(DownloadItem::new("u", "").display_name(), "download");
}

#[test]
fn asset_objects_are_stored_by_hash_prefix() {
    let index = AssetIndex {
        objects: vec![
            ("icons/a.png".to_string(), AssetObject { hash: "bdf48ef6b5d0d23bbb02e17d04865216179f510a".to_string(), size: 3665 }),
            ("bad".to_string(), AssetObject { hash: "x".to_string(), size: 1 }),
        ],
    };
    let items = index.to_download_items("/a");
    assert_eq!(items.len(), 1);
    assert_eq!(items[0].url, "https://resources.download.minecraft.net/bd/bdf48ef6b5d0d23bbb02e17d04865216179f510a");
    assert_eq!(items[0].destination, "/a/objects/bd/bdf48ef6b5d0d23bbb02e17d04865216179f510a");
    assert_eq!(items[0].sha1.as_deref(), Some("bdf48ef6b5d0d23bbb02e17d04865216179f510a"));
    assert_eq!(items[0].size, Some(3665));
}

#[test]
fn java_runtime_locations() {
    let win = Platform { os: HostOs::Windows, arch: HostArch::X86_64 };
    let mac = Platform { os: HostOs::MacOs, arch: HostArch::Aarch64 };
    assert_eq!(AdoptiumInstaller::os_name(mac), "mac");
    assert_eq!(AdoptiumInstaller::arch_name(mac), "aarch64");
    assert_eq!(AdoptiumInstaller::arch_name(Platform { os: HostOs::Linux, arch: HostArch::Other }), "x64");
    let dir = AdoptiumInstaller::runtime_dir("/r", 17);
    assert_eq!(dir, "/r/java17");
    assert_eq!(AdoptiumInstaller::java_executable(&dir, linux()), "/r/java17/bin/java");
    assert_eq!(AdoptiumInstaller::java_executable(&dir, win), "/r/java17/bin/java.exe");
    assert_eq!(AdoptiumInstaller::archive_path(&dir, win), "/r/java17.zip");
    assert_eq!(AdoptiumInstaller::archive_path(&dir, linux()), "/r/java17.tar.gz");
    assert_eq!(
        AdoptiumInstaller::download_url(21, linux()),
        "https://api.adoptium.net/v3/binary/latest/21/ga/linux/x64/jre/hotspot/normal/eclipse"
    );
}

#[test]
fn archive_entries_lose_their_top_folder() {
    assert_eq!(AdoptiumInstaller::entry_target("/r/java17", "jdk-17.0.8+7-jre/bin/java").as_deref(), Some("/r/java17/bin/java"));
    assert_eq!(AdoptiumInstaller::entry_target("/r/java17", "jdk-17.0.8+7-jre/"), None);
    assert_eq!(AdoptiumInstaller::entry_target("/r/java17", "jdk//lib/./x.so").as_deref(), Some("/r/java17/lib/x.so"));
    assert_eq!(AdoptiumInstaller::entry_target("/r/java17", "./jdk/bin").as_deref(), Some("/r/java17/jdk/bin"));
    assert_eq!(AdoptiumInstaller::entry_target("/r/java17", ""), None);
}
