use amc_launcher::auth::{Account, AccountType, AuthSession};
use amc_launcher::console::{line_severity, ConsoleModal, LogSeverity, MAX_LOG_LINES};
use amc_launcher::home::{self, FilterTab, HomePage, SortOrder};
use amc_launcher::i18n::Language;
use amc_launcher::instances_page::{play_time_label, InstanceAction, InstancesPage};
use amc_launcher::launch::GameEvent;
use amc_launcher::login::{LoginMode, LoginModal};
use amc_launcher::mods::{LocalMod, ModCategory, ModSearchResult, ModSource};
use amc_launcher::mods_page::{InstallState, ModsPage};
use amc_launcher::settings::{self, SettingsPage};
use amc_launcher::skins::{
    account_label, composite_front_skin, extract_head_avatar, generate_default_skin, SkinImage,
    SkinsPage,
};
use amc_launcher::types::{GameVersion, Instance, LaunchOptions, LoaderType, ReleaseType};
use amc_launcher::widgets::{self, BottomBar, LaunchDecision, NavItem, NavTab, Sidebar};

#[test]
fn console_keeps_the_newest_lines() {
    let mut c = ConsoleModal::default();
    for i in 0..(MAX_LOG_LINES + 3) {
        c.push_line(format!("line {i}"));
    }
    assert_eq!(c.logs.len(), MAX_LOG_LINES);
    assert_eq!(c.logs[0], "line 3");
    assert_eq!(c.logs[MAX_LOG_LINES - 1], format!("line {}", MAX_LOG_LINES + 2));
    c.clear();
    assert!(c.logs.is_empty());
}

#[test]
fn console_filter_and_colours() {
    let mut c = ConsoleModal::default();
    c.push_line("[INFO] Loading".to_string());
    c.push_line("[WARN] Slow".to_string());
    c.push_line("java.lang.NullPointerException".to_string());
    assert_eq!(c.filtered().len(), 3);
    c.filter = "  warn ".to_string();
    assert_eq!(c.filtered(), vec!["[WARN] Slow".to_string()]);
    assert_eq!(c.full_text(), "[INFO] Loading\n[WARN] Slow\njava.lang.NullPointerException");
    assert_eq!(line_severity("[ERROR] x"), LogSeverity::Error);
    assert_eq!(line_severity("Caused by: y"), LogSeverity::Error);
    assert_eq!(line_severity("[WARN] z"), LogSeverity::Warning);
    assert_eq!(line_severity("[DEBUG] z"), LogSeverity::Debug);
    assert_eq!(line_severity("plain"), LogSeverity::Normal);
}

fn version(id: &str, t: ReleaseType, time: i64) -> GameVersion {
    GameVersion { id: id.to_string(), release_type: t, url: String::new(), release_time: time, sha1: None }
}

#[test]
fn home_lists_filtered_sorted_versions() {
    let versions = vec![
        version("1.20.1", ReleaseType::Release, 300),
        version("23w31a", ReleaseType::Snapshot, 350),
        version("1.19.4", ReleaseType::Release, 200),
        version("1.20", ReleaseType::Release, 300),
    ];
    let mut page = HomePage::default();
    assert_eq!(page.visible_versions(&versions), vec![0, 3, 2]);
    page.toggle_sort();
    assert_eq!(page.sort_order, SortOrder::Oldest);
    assert_eq!(page.visible_versions(&versions), vec![2, 0, 3]);
    page.active_filter = FilterTab::All;
    page.search_query = "1.20".to_string();
    assert_eq!(page.visible_versions(&versions), vec![0, 3]);
    page.search_query = "   ".to_string();
    assert_eq!(page.visible_versions(&versions).len(), 4);
    assert_eq!(home::release_icon(ReleaseType::Snapshot), "🧪");
    assert_eq!(home::loading_message(Language::English), "Fetching Minecraft versions from Mojang...");
    let s = amc_launcher::server::ServerPinger::offline_status("mc.example", 25565);
    assert_eq!(HomePage::server_label(&s), "🔴 mc.example • 999 мс");
}

#[test]
fn login_window() {
    let mut m = LoginModal::default();
    assert_eq!(m.mode, LoginMode::Offline);
    m.is_open = true;
    m.offline_nickname = "  ".to_string();
    assert!(m.submit_offline().is_none());
    assert!(m.is_open);
    m.offline_nickname = " x ".to_string();
    assert!(m.submit_offline().is_none());
    assert_eq!(m.error_msg.as_deref(), Some("Authentication error: Никнейм должен содержать от 3 до 16 символов"));
    m.select_mode(LoginMode::WetId);
    assert!(m.error_msg.is_none());
    m.offline_nickname = " Steve ".to_string();
    let acc = m.submit_offline().unwrap();
    assert_eq!(acc.username, "Steve");
    assert!(!m.is_open);
    m.wetid_login = "me@aleph".to_string();
    let w = m.submit_wetid();
    assert_eq!(w.account_type, AccountType::WetId);
    assert_eq!(w.uuid, "wetid-uuid");
}

fn result(id: &str, title: &str) -> ModSearchResult {
    ModSearchResult {
        source: ModSource::Modrinth,
        id: id.to_string(),
        title: title.to_string(),
        author: String::new(),
        downloads: 0,
        description: String::new(),
        icon_url: None,
        category: ModCategory::Mod,
    }
}

#[test]
fn mods_page_install_states() {
    let mut page = ModsPage::default();
    page.local_mods.push(LocalMod {
        filename: "sodium.jar".to_string(),
        path: "/m/sodium.jar".to_string(),
        name: "Sodium Extra".to_string(),
        id: "sodium".to_string(),
        version: "1".to_string(),
        description: String::new(),
        enabled: true,
        file_size: 1,
    });
    assert_eq!(page.install_state(&result("s", "sodium")), InstallState::Installed);
    assert_eq!(page.install_state(&result("i", "Iris")), InstallState::Available);
    page.start_install(&result("i", "Iris"));
    page.start_install(&result("i", "Iris"));
    assert_eq!(page.installing_ids, vec!["i".to_string()]);
    assert_eq!(page.install_state(&result("i", "Iris")), InstallState::Downloading);
    page.toggle_applied(0, "/m/sodium.jar.disabled".to_string());
    assert!(!page.local_mods[0].enabled);
    page.remove_local(0);
    assert!(page.local_mods.is_empty());
    assert_eq!(amc_launcher::mods_page::search_label(ModSource::CurseForge), "ПОИСК (CURSEFORGE)");
}

#[test]
fn settings_jvm_arguments() {
    let mut page = SettingsPage::default();
    let mut opts = LaunchOptions::default();
    opts.custom_jvm_args.clear();
    page.custom_jvm_arg_input = "  -Xss2m ".to_string();
    page.add_jvm_arg(&mut opts);
    assert_eq!(opts.custom_jvm_args, vec!["-Xss2m".to_string()]);
    assert!(page.custom_jvm_arg_input.is_empty());
    page.custom_jvm_arg_input = "   ".to_string();
    page.add_jvm_arg(&mut opts);
    assert_eq!(opts.custom_jvm_args.len(), 1);
    settings::apply_zgc_preset(&mut opts);
    assert_eq!(opts.custom_jvm_args, vec!["-XX:+UseZGC", "-XX:+AlwaysPreTouch", "-XX:+UnlockExperimentalVMOptions"]);
    settings::apply_g1gc_preset(&mut opts);
    assert_eq!(opts.custom_jvm_args.len(), 10);
    settings::remove_jvm_arg(&mut opts, 0);
    assert_eq!(opts.custom_jvm_args[0], "-XX:+ParallelRefProcEnabled");
    settings::reset_jvm_args(&mut opts);
    assert!(opts.custom_jvm_args.is_empty());
    assert_eq!(settings::java_path_label(&opts, Language::English), "Current path: Auto-detect (Adoptium OpenJDK 8 / 17 / 21)");
    opts.java_path = Some("/usr/bin/java".to_string());
    assert_eq!(settings::java_path_label(&opts, Language::Russian), "Текущий путь: /usr/bin/java");
}

#[test]
fn frame_decisions() {
    assert_eq!(Sidebar::clicked(NavTab::Home, NavItem::Page(NavTab::Mods)), (NavTab::Mods, false));
    assert_eq!(Sidebar::clicked(NavTab::Home, NavItem::Exit), (NavTab::Home, true));
    assert_eq!(BottomBar::play_text(true), "ЗАПУСК...");
    let r = BottomBar::response(false, true, false, true);
    assert!(!r.launch_clicked);
    assert_eq!(BottomBar::player_text(None, AccountType::Offline).0, "Не авторизован");
    assert_eq!(BottomBar::player_text(Some("Steve"), AccountType::Microsoft).1, "Microsoft License");
    assert!(matches!(widgets::launch_decision(None, &None), LaunchDecision::OpenLogin));
    let s = AuthSession { username: "a".to_string(), uuid: "b".to_string(), access_token: "0".to_string(), user_type: "legacy".to_string(), xuid: None };
    match widgets::launch_decision(Some(s), &None) {
        LaunchDecision::Launch { version, .. } => assert_eq!(version, "1.20.1"),
        _ => panic!(),
    }
    assert_eq!(widgets::after_game_event(true, true, &GameEvent::Started { pid: 1 }), (false, true));
    assert_eq!(widgets::after_game_event(true, true, &GameEvent::LogLine("x".to_string())), (true, false));
    assert_eq!(widgets::DownloadOverlay::file_line("a.jar").as_deref(), Some("Файл: a.jar"));
    assert!(widgets::DownloadOverlay::file_line("").is_none());
}

#[test]
fn instances_page_search_and_edit() {
    let mut page = InstancesPage::default();
    assert_eq!(page.new_instance_name, "Новая сборка");
    let created = page.create();
    assert_eq!(created.ram_mb, Some(4096));
    assert_eq!(created.loader, LoaderType::Fabric);
    let mut list = vec![created, Instance::new("Vanilla fun", "1.8.9", LoaderType::Vanilla)];
    page.search_query = " FABRIC ".to_string();
    assert_eq!(page.filtered_indices(&list), vec![0]);
    page.search_query = "1.8".to_string();
    assert_eq!(page.filtered_indices(&list), vec![1]);
    let second = list[1].clone();
    page.begin_edit(&second);
    page.edit_instance_name = "Renamed".to_string();
    page.edit_instance_ram = 2048;
    match page.save_edit(&mut list) {
        InstanceAction::Updated(i) => assert_eq!(i.name, "Renamed"),
        _ => panic!(),
    }
    assert_eq!(list[1].ram_mb, Some(2048));
    assert!(!page.show_edit_modal);
    assert_eq!(play_time_label(0), "Не запускалась");
    assert_eq!(play_time_label(45), "45 мин");
    assert_eq!(play_time_label(125), "2 ч 5 мин");
}

#[test]
fn skins_front_view_and_avatar() {
    let steve = generate_default_skin(false);
    assert_eq!((steve.width, steve.height), (64, 64));
    assert_eq!(steve.rows[12][9], (255, 255, 255, 255));
    assert_eq!(steve.rows[12][10], (45, 45, 180, 255));
    assert_eq!(steve.rows[8][8], (74, 45, 23, 255));
    assert_eq!(steve.rows[0][0], (0, 0, 0, 0));
    let alex = generate_default_skin(true);
    assert_eq!(alex.rows[20][47], (0, 0, 0, 0));
    assert_eq!(steve.rows[20][47], (0, 160, 175, 255));
    let front = composite_front_skin(&steve, false);
    assert_eq!((front.width, front.height), (16, 32));
    assert_eq!(front.rows[4][5], steve.rows[12][9]);
    assert_eq!(front.rows[8][4], steve.rows[20][20]);
    assert_eq!(front.rows[0][0], (0, 0, 0, 0));
    let head = extract_head_avatar(None, false);
    assert_eq!((head.width, head.height), (8, 8));
    assert_eq!(head.rows[4][1], (255, 255, 255, 255));
    let mut small = SkinImage::new(64, 32);
    small.rows[8][8] = (1, 2, 3, 4);
    small.rows[8][40] = (9, 9, 9, 200);
    let h = extract_head_avatar(Some(&small), false);
    assert_eq!(h.rows[0][0], (9, 9, 9, 200));
    assert_eq!(h.rows[0][1], (0, 0, 0, 0));
}

#[test]
fn skins_page_model_and_custom_skin() {
    let mut page = SkinsPage::default();
    assert!(!page.is_slim_model);
    assert_eq!(page.active_skin_name, "Steve (По умолчанию)");
    let first = page.preview();
    assert!(!page.dirty);
    assert_eq!(first.rows, composite_front_skin(&generate_default_skin(false), false).rows);
    page.select_model(true);
    assert!(page.dirty && page.avatar_dirty);
    let slim = page.preview();
    assert_eq!(slim.rows, composite_front_skin(&generate_default_skin(true), true).rows);
    page.select_model(true);
    assert!(!page.dirty);
    let mut custom = SkinImage::new(64, 64);
    custom.rows[12][9] = (7, 8, 9, 255);
    page.skin_loaded("/skins/mine.png", custom);
    assert_eq!(page.active_skin_name, "mine.png");
    assert_eq!(page.custom_skin_path.as_deref(), Some("/skins/mine.png"));
    let view = page.preview();
    assert_eq!(view.rows[4][5], (7, 8, 9, 255));
    page.reset_skin();
    assert_eq!(page.active_skin_name, "Alex (По умолчанию)");
    assert!(page.skin_image.is_none() && page.custom_skin_path.is_none());
    let account = Account {
        id: 1,
        account_type: AccountType::Offline,
        username: "Steve".to_string(),
        uuid: String::new(),
        access_token: None,
        refresh_token: None,
        expires_at: None,
        skin_url: None,
        active: true,
    };
    assert_eq!(account_label(&account), "Аккаунт: Steve (Offline)");
}

#[test]
fn release_dates_read_day_month_year() {
    assert_eq!(home::release_date_label(0), "01.01.1970");
    assert_eq!(home::release_date_label(1_700_000_000_000), "14.11.2023");
    assert_eq!(home::release_date_label(i64::MAX), "");
}
