use amc_launcher::auth::{dashed_uuid, offline_uuid, validate_nickname};
use amc_launcher::i18n::Language;

#[test]
fn test_offline_uuid_generation() {
    let uuid = offline_uuid("Steve");
    assert_eq!(uuid.len(), 32);
    let dashed = dashed_uuid(&uuid);
    assert_eq!(dashed.len(), 36);
    assert_eq!(dashed.chars().filter(|&c| c == '-').count(), 4);
}

#[test]
fn test_nickname_validation() {
    assert!(validate_nickname("Player123").is_ok());
    assert!(validate_nickname("ab").is_err());
    assert!(validate_nickname("VeryLongNicknameExceedingLimit").is_err());
    assert!(validate_nickname("Invalid Nick").is_err());
}

#[test]
fn test_language_code_parsing() {
    assert_eq!(Language::parse_code("en"), Language::English);
    assert_eq!(Language::parse_code("english"), Language::English);
    assert_eq!(Language::parse_code("ru"), Language::Russian);
    assert_eq!(Language::parse_code("russian"), Language::Russian);
    assert_eq!(Language::parse_code("uk"), Language::Ukrainian);
    assert_eq!(Language::parse_code("ua"), Language::Ukrainian);
    assert_eq!(Language::parse_code("ukrainian"), Language::Ukrainian);
    assert_eq!(Language::parse_code("unknown"), Language::Russian);
}

#[test]
fn test_language_codes_and_names() {
    assert_eq!(Language::English.code(), "en");
    assert_eq!(Language::Russian.code(), "ru");
    assert_eq!(Language::Ukrainian.code(), "uk");

    assert_eq!(Language::English.display_name(), "English");
    assert_eq!(Language::Russian.display_name(), "Русский");
    assert_eq!(Language::Ukrainian.display_name(), "Українська");
}

#[test]
fn test_translations_coverage() {
    for lang in Language::ALL {
        assert!(!lang.nav_home().is_empty());
        assert!(!lang.nav_instances().is_empty());
        assert!(!lang.nav_mods().is_empty());
        assert!(!lang.nav_skins().is_empty());
        assert!(!lang.nav_settings().is_empty());
        assert!(!lang.nav_exit().is_empty());
        assert!(!lang.settings_title().is_empty());
        assert!(!lang.home_title().is_empty());
        assert!(!lang.inst_title().is_empty());
        assert!(!lang.mods_title().is_empty());
        assert!(!lang.skins_title().is_empty());
        assert!(!lang.login_modal_title().is_empty());
        assert!(!lang.console_title().is_empty());
    }
}
