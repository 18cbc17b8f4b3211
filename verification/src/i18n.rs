//! Launcher user-interface languages and the translated texts of every view.

use vstd::prelude::*;
use crate::text;

verus! {

/// Supported launcher UI languages.
#[derive(Debug, Clone, Copy, PartialEq, Eq, Structural, Hash)]
pub enum Language {
    Russian,
    English,
    Ukrainian,
}

/// `{:?}` of an `Option<i32>`: `Some(<decimal>)` or `None`.
pub open spec fn debug_option_i32(v: Option<i32>) -> Seq<char> {
    match v {
        Some(x) => "Some("@ + text::signed_decimal(x as int) + ")"@,
        None => "None"@,
    }
}

fn debug_option_i32_string(v: Option<i32>) -> (r: String)
    ensures
        r@ == debug_option_i32(v),
{
    match v {
        Some(x) => {
            let digits = text::signed_decimal_string(x as i64);
            text::concat3("Some(", digits.as_str(), ")")
        },
        None => text::owned("None"),
    }
}

/// Words that select a language in `parse_code`, after trimming and
/// lower-casing; anything else selects Russian.
pub open spec fn language_of_code(code: Seq<char>) -> Language {
    if code == "en"@ || code == "eng"@ || code == "english"@ {
        Language::English
    } else if code == "uk"@ || code == "ua"@ || code == "ukr"@ || code == "ukrainian"@ {
        Language::Ukrainian
    } else {
        Language::Russian
    }
}

/// The ISO code of a language.
pub open spec fn code_of(l: Language) -> Seq<char> {
    match l {
        Language::English => "en"@,
        Language::Russian => "ru"@,
        Language::Ukrainian => "uk"@,
    }
}

/// Reading back the code of a language gives that language: the code is
/// ASCII text with nothing to trim, so it is lower-cased character by
/// character, and it names its language.
pub proof fn code_parses_back(l: Language)
    ensures
        text::is_ascii_text(code_of(l)),
        text::trim(code_of(l)) == code_of(l),
        language_of_code(text::ascii_lowercase(text::trim(code_of(l)))) == l,
{
    reveal_strlit("en");
    reveal_strlit("ru");
    reveal_strlit("uk");
    reveal_strlit("eng");
    reveal_strlit("english");
    reveal_strlit("ua");
    reveal_strlit("ukr");
    reveal_strlit("ukrainian");
    let c = code_of(l);
    assert(text::trail_ws(c) == 0);
    assert(text::trim_end(c) =~= c);
    assert(text::lead_ws(c) == 0);
    assert(text::trim(c) =~= c);
    assert(text::ascii_lowercase(c) =~= c);
}

impl Default for Language {
    fn default() -> (r: Self)
        ensures
            r == Language::Russian,
    {
        Language::Russian
    }
}

impl Language {
    /// Every language, in the order the settings list them.
    pub const ALL: [Language; 3] = [Language::English, Language::Russian, Language::Ukrainian];

    /// The language's ISO code.
    pub fn code(&self) -> (r: &'static str)
        ensures
            r@ == (match *self { Language::English => "en"@, Language::Russian => "ru"@, Language::Ukrainian => "uk"@ }),
    {
        match self {
            Language::English => "en",
            Language::Russian => "ru",
            Language::Ukrainian => "uk",
        }
    }

    /// The language's own name for itself.
    pub fn display_name(&self) -> (r: &'static str)
        ensures
            r@ == (match *self { Language::English => "English"@, Language::Russian => "Русский"@, Language::Ukrainian => "Українська"@ }),
    {
        match self {
            Language::English => "English",
            Language::Russian => "Русский",
            Language::Ukrainian => "Українська",
        }
    }

    /// The language's name with its flag.
    pub fn display_with_flag(&self) -> (r: &'static str)
        ensures
            r@ == (match *self { Language::English => "🇬🇧 English"@, Language::Russian => "🇷🇺 Русский"@, Language::Ukrainian => "🇺🇦 Українська"@ }),
    {
        match self {
            Language::English => "🇬🇧 English",
            Language::Russian => "🇷🇺 Русский",
            Language::Ukrainian => "🇺🇦 Українська",
        }
    }

    /// The language a settings code names: codes and names are compared
    /// after trimming and lower-casing; anything unknown is Russian.
    pub fn parse_code(s: &str) -> (r: Self)
        ensures
            r == language_of_code(text::unicode_lowercase(text::trim(s@))),
            text::is_ascii_text(text::trim(s@)) ==> r == language_of_code(
                text::ascii_lowercase(text::trim(s@)),
            ),
    {
        let t = text::trimmed(s);
        let l = text::to_lowercase(t.as_str());
        let ls = l.as_str();
        if text::str_eq(ls, "en") || text::str_eq(ls, "eng") || text::str_eq(ls, "english") {
            Language::English
        } else if text::str_eq(ls, "uk") || text::str_eq(ls, "ua") || text::str_eq(ls, "ukr")
            || text::str_eq(ls, "ukrainian") {
            Language::Ukrainian
        } else {
            Language::Russian
        }
    }

    pub fn nav_home(&self) -> (r: &'static str)
        ensures
            r@ == (match *self { Language::English => "Home"@, Language::Russian => "Главная"@, Language::Ukrainian => "Головна"@ }),
    {
        match self {
            Language::English => "Home",
            Language::Russian => "Главная",
            Language::Ukrainian => "Головна",
        }
    }

    pub fn nav_instances(&self) -> (r: &'static str)
        ensures
            r@ == (match *self { Language::English => "Instances"@, Language::Russian => "Сборки"@, Language::Ukrainian => "Збірки"@ }),
    {
        match self {
            Language::English => "Instances",
            Language::Russian => "Сборки",
            Language::Ukrainian => "Збірки",
        }
    }

    pub fn nav_mods(&self) -> (r: &'static str)
        ensures
            r@ == (match *self { Language::English => "Mods"@, Language::Russian => "Моды"@, Language::Ukrainian => "Моди"@ }),
    {
        match self {
            Language::English => "Mods",
            Language::Russian => "Моды",
            Language::Ukrainian => "Моди",
        }
    }

    pub fn nav_skins(&self) -> (r: &'static str)
        ensures
            r@ == (match *self { Language::English => "Skins"@, Language::Russian => "Скины"@, Language::Ukrainian => "Скіни"@ }),
    {
        match self {
            Language::English => "Skins",
            Language::Russian => "Скины",
            Language::Ukrainian => "Скіни",
        }
    }

    pub fn nav_settings(&self) -> (r: &'static str)
        ensures
            r@ == (match *self { Language::English => "Settings"@, Language::Russian => "Настройки"@, Language::Ukrainian => "Налаштування"@ }),
    {
        match self {
            Language::English => "Settings",
            Language::Russian => "Настройки",
            Language::Ukrainian => "Налаштування",
        }
    }

    pub fn nav_exit(&self) -> (r: &'static str)
        ensures
            r@ == (match *self { Language::English => "Exit"@, Language::Russian => "Выход"@, Language::Ukrainian => "Вихід"@ }),
    {
        match self {
            Language::English => "Exit",
            Language::Russian => "Выход",
            Language::Ukrainian => "Вихід",
        }
    }

    pub fn titlebar_console_tooltip(&self) -> (r: &'static str)
        ensures
            r@ == (match *self { Language::English => "Game Console / Process Logs"@, Language::Russian => "Консоль / Логи игры"@, Language::Ukrainian => "Консоль / Логи гри"@ }),
    {
        match self {
            Language::English => "Game Console / Process Logs",
            Language::Russian => "Консоль / Логи игры",
            Language::Ukrainian => "Консоль / Логи гри",
        }
    }

    pub fn bottom_not_authorized(&self) -> (r: &'static str)
        ensures
            r@ == (match *self { Language::English => "Not authorized"@, Language::Russian => "Не авторизован"@, Language::Ukrainian => "Не авторизовано"@ }),
    {
        match self {
            Language::English => "Not authorized",
            Language::Russian => "Не авторизован",
            Language::Ukrainian => "Не авторизовано",
        }
    }

    pub fn bottom_login_prompt(&self) -> (r: &'static str)
        ensures
            r@ == (match *self { Language::English => "Sign in to play"@, Language::Russian => "Войдите для игры"@, Language::Ukrainian => "Увійдіть для гри"@ }),
    {
        match self {
            Language::English => "Sign in to play",
            Language::Russian => "Войдите для игры",
            Language::Ukrainian => "Увійдіть для гри",
        }
    }

    pub fn bottom_btn_switch(&self) -> (r: &'static str)
        ensures
            r@ == (match *self { Language::English => "SWITCH"@, Language::Russian => "СМЕНИТЬ"@, Language::Ukrainian => "ЗМІНИТИ"@ }),
    {
        match self {
            Language::English => "SWITCH",
            Language::Russian => "СМЕНИТЬ",
            Language::Ukrainian => "ЗМІНИТИ",
        }
    }

    pub fn bottom_btn_login(&self) -> (r: &'static str)
        ensures
            r@ == (match *self { Language::English => "LOG IN"@, Language::Russian => "ВОЙТИ"@, Language::Ukrainian => "УВІЙТИ"@ }),
    {
        match self {
            Language::English => "LOG IN",
            Language::Russian => "ВОЙТИ",
            Language::Ukrainian => "УВІЙТИ",
        }
    }

    pub fn bottom_btn_play(&self) -> (r: &'static str)
        ensures
            r@ == (match *self { Language::English => "▶  PLAY"@, Language::Russian => "▶  ИГРАТЬ"@, Language::Ukrainian => "▶  ГРАТИ"@ }),
    {
        match self {
            Language::English => "▶  PLAY",
            Language::Russian => "▶  ИГРАТЬ",
            Language::Ukrainian => "▶  ГРАТИ",
        }
    }

    pub fn bottom_btn_launching(&self) -> (r: &'static str)
        ensures
            r@ == (match *self { Language::English => "LAUNCHING..."@, Language::Russian => "ЗАПУСК..."@, Language::Ukrainian => "ЗАПУСК..."@ }),
    {
        match self {
            Language::English => "LAUNCHING...",
            Language::Russian => "ЗАПУСК...",
            Language::Ukrainian => "ЗАПУСК...",
        }
    }

    pub fn home_title(&self) -> (r: &'static str)
        ensures
            r@ == (match *self { Language::English => "Minecraft Versions"@, Language::Russian => "Версии Minecraft"@, Language::Ukrainian => "Версії Minecraft"@ }),
    {
        match self {
            Language::English => "Minecraft Versions",
            Language::Russian => "Версии Minecraft",
            Language::Ukrainian => "Версії Minecraft",
        }
    }

    pub fn home_selected_badge(&self, version: &str) -> (r: String)
        ensures
            r@ == (match *self { Language::English => "Selected: "@ + version@, Language::Russian => "Выбрана: "@ + version@, Language::Ukrainian => "Обрана: "@ + version@ }),
    {
        match self {
            Language::English => text::concat2("Selected: ", version),
            Language::Russian => text::concat2("Выбрана: ", version),
            Language::Ukrainian => text::concat2("Обрана: ", version),
        }
    }

    pub fn home_pinging(&self) -> (r: &'static str)
        ensures
            r@ == (match *self { Language::English => "⏳ Pinging server..."@, Language::Russian => "⏳ Пинг сервера..."@, Language::Ukrainian => "⏳ Пінг сервера..."@ }),
    {
        match self {
            Language::English => "⏳ Pinging server...",
            Language::Russian => "⏳ Пинг сервера...",
            Language::Ukrainian => "⏳ Пінг сервера...",
        }
    }

    pub fn home_search_hint(&self) -> (r: &'static str)
        ensures
            r@ == (match *self { Language::English => "🔍 Search versions..."@, Language::Russian => "🔍 Поиск версий..."@, Language::Ukrainian => "🔍 Пошук версій..."@ }),
    {
        match self {
            Language::English => "🔍 Search versions...",
            Language::Russian => "🔍 Поиск версий...",
            Language::Ukrainian => "🔍 Пошук версій...",
        }
    }

    pub fn home_sort_newest(&self) -> (r: &'static str)
        ensures
            r@ == (match *self { Language::English => "Newest first"@, Language::Russian => "Сначала новые"@, Language::Ukrainian => "Спочатку нові"@ }),
    {
        match self {
            Language::English => "Newest first",
            Language::Russian => "Сначала новые",
            Language::Ukrainian => "Спочатку нові",
        }
    }

    pub fn home_sort_oldest(&self) -> (r: &'static str)
        ensures
            r@ == (match *self { Language::English => "Oldest first"@, Language::Russian => "Сначала старые"@, Language::Ukrainian => "Спочатку старі"@ }),
    {
        match self {
            Language::English => "Oldest first",
            Language::Russian => "Сначала старые",
            Language::Ukrainian => "Спочатку старі",
        }
    }

    pub fn home_tab_all(&self) -> (r: &'static str)
        ensures
            r@ == (match *self { Language::English => "ALL"@, Language::Russian => "ВСЕ"@, Language::Ukrainian => "ВСІ"@ }),
    {
        match self {
            Language::English => "ALL",
            Language::Russian => "ВСЕ",
            Language::Ukrainian => "ВСІ",
        }
    }

    pub fn home_tab_releases(&self) -> (r: &'static str)
        ensures
            r@ == (match *self { Language::English => "RELEASES"@, Language::Russian => "РЕЛИЗЫ"@, Language::Ukrainian => "РЕЛІЗИ"@ }),
    {
        match self {
            Language::English => "RELEASES",
            Language::Russian => "РЕЛИЗЫ",
            Language::Ukrainian => "РЕЛІЗИ",
        }
    }

    pub fn home_tab_snapshots(&self) -> (r: &'static str)
        ensures
            r@ == (match *self { Language::English => "SNAPSHOTS"@, Language::Russian => "СНАПШОТЫ"@, Language::Ukrainian => "СНАПШОТИ"@ }),
    {
        match self {
            Language::English => "SNAPSHOTS",
            Language::Russian => "СНАПШОТЫ",
            Language::Ukrainian => "СНАПШОТИ",
        }
    }

    pub fn home_tab_betas(&self) -> (r: &'static str)
        ensures
            r@ == (match *self { Language::English => "BETAS"@, Language::Russian => "БЕТА"@, Language::Ukrainian => "БЕТА"@ }),
    {
        match self {
            Language::English => "BETAS",
            Language::Russian => "БЕТА",
            Language::Ukrainian => "БЕТА",
        }
    }

    pub fn home_tab_alphas(&self) -> (r: &'static str)
        ensures
            r@ == (match *self { Language::English => "ALPHAS"@, Language::Russian => "АЛЬФА"@, Language::Ukrainian => "АЛЬФА"@ }),
    {
        match self {
            Language::English => "ALPHAS",
            Language::Russian => "АЛЬФА",
            Language::Ukrainian => "АЛЬФА",
        }
    }

    pub fn home_tab_old(&self) -> (r: &'static str)
        ensures
            r@ == (match *self { Language::English => "OLD"@, Language::Russian => "СТАРЫЕ"@, Language::Ukrainian => "СТАРІ"@ }),
    {
        match self {
            Language::English => "OLD",
            Language::Russian => "СТАРЫЕ",
            Language::Ukrainian => "СТАРІ",
        }
    }

    pub fn home_btn_launch(&self) -> (r: &'static str)
        ensures
            r@ == (match *self { Language::English => "Launch"@, Language::Russian => "Запустить"@, Language::Ukrainian => "Запустити"@ }),
    {
        match self {
            Language::English => "Launch",
            Language::Russian => "Запустить",
            Language::Ukrainian => "Запустити",
        }
    }

    pub fn home_btn_install_play(&self) -> (r: &'static str)
        ensures
            r@ == (match *self { Language::English => "Install & Play"@, Language::Russian => "Установить и играть"@, Language::Ukrainian => "Встановити та грати"@ }),
    {
        match self {
            Language::English => "Install & Play",
            Language::Russian => "Установить и играть",
            Language::Ukrainian => "Встановити та грати",
        }
    }

    pub fn home_btn_files(&self) -> (r: &'static str)
        ensures
            r@ == (match *self { Language::English => "📂 Files"@, Language::Russian => "📂 Файлы"@, Language::Ukrainian => "📂 Файли"@ }),
    {
        match self {
            Language::English => "📂 Files",
            Language::Russian => "📂 Файлы",
            Language::Ukrainian => "📂 Файли",
        }
    }

    pub fn home_empty(&self) -> (r: &'static str)
        ensures
            r@ == (match *self { Language::English => "No versions matching your search"@, Language::Russian => "Версии не найдены"@, Language::Ukrainian => "Версії не знайдено"@ }),
    {
        match self {
            Language::English => "No versions matching your search",
            Language::Russian => "Версии не найдены",
            Language::Ukrainian => "Версії не знайдено",
        }
    }

    pub fn inst_title(&self) -> (r: &'static str)
        ensures
            r@ == (match *self { Language::English => "Minecraft Instances"@, Language::Russian => "Сборки Minecraft"@, Language::Ukrainian => "Збірки Minecraft"@ }),
    {
        match self {
            Language::English => "Minecraft Instances",
            Language::Russian => "Сборки Minecraft",
            Language::Ukrainian => "Збірки Minecraft",
        }
    }

    pub fn inst_search_hint(&self) -> (r: &'static str)
        ensures
            r@ == (match *self { Language::English => "🔍 Search instances..."@, Language::Russian => "🔍 Поиск сборок..."@, Language::Ukrainian => "🔍 Пошук збірок..."@ }),
    {
        match self {
            Language::English => "🔍 Search instances...",
            Language::Russian => "🔍 Поиск сборок...",
            Language::Ukrainian => "🔍 Пошук збірок...",
        }
    }

    pub fn inst_btn_create(&self) -> (r: &'static str)
        ensures
            r@ == (match *self { Language::English => "+ CREATE INSTANCE"@, Language::Russian => "+ СОЗДАТЬ СБОРКУ"@, Language::Ukrainian => "+ СТВОРИТИ ЗБІРКУ"@ }),
    {
        match self {
            Language::English => "+ CREATE INSTANCE",
            Language::Russian => "+ СОЗДАТЬ СБОРКУ",
            Language::Ukrainian => "+ СТВОРИТИ ЗБІРКУ",
        }
    }

    pub fn inst_empty(&self) -> (r: &'static str)
        ensures
            r@ == (match *self { Language::English => "No instances created yet. Click '+ CREATE INSTANCE' to add one!"@, Language::Russian => "Сборки еще не созданы. Нажмите '+ СОЗДАТЬ СБОРКУ', чтобы добавить!"@, Language::Ukrainian => "Збірок ще не створено. Натисніть '+ СТВОРИТИ ЗБІРКУ', щоб додати!"@ }),
    {
        match self {
            Language::English => "No instances created yet. Click '+ CREATE INSTANCE' to add one!",
            Language::Russian => "Сборки еще не созданы. Нажмите '+ СОЗДАТЬ СБОРКУ', чтобы добавить!",
            Language::Ukrainian => "Збірок ще не створено. Натисніть '+ СТВОРИТИ ЗБІРКУ', щоб додати!",
        }
    }

    pub fn inst_version_label(&self, ver: &str) -> (r: String)
        ensures
            r@ == (match *self { Language::English => "Version: "@ + ver@, Language::Russian => "Версия: "@ + ver@, Language::Ukrainian => "Версія: "@ + ver@ }),
    {
        match self {
            Language::English => text::concat2("Version: ", ver),
            Language::Russian => text::concat2("Версия: ", ver),
            Language::Ukrainian => text::concat2("Версія: ", ver),
        }
    }

    pub fn inst_loader_label(&self, loader: &str) -> (r: String)
        ensures
            r@ == (match *self { Language::English => "Loader: "@ + loader@, Language::Russian => "Загрузчик: "@ + loader@, Language::Ukrainian => "Завантажувач: "@ + loader@ }),
    {
        match self {
            Language::English => text::concat2("Loader: ", loader),
            Language::Russian => text::concat2("Загрузчик: ", loader),
            Language::Ukrainian => text::concat2("Завантажувач: ", loader),
        }
    }

    pub fn inst_ram_label(&self, mb: u32) -> (r: String)
        ensures
            r@ == (match *self { Language::English => "Allocated: "@ + text::decimal(mb as nat) + " MB"@, Language::Russian => "Выделено: "@ + text::decimal(mb as nat) + " МБ"@, Language::Ukrainian => "Виділено: "@ + text::decimal(mb as nat) + " МБ"@ }),
    {
        let mb_text = text::decimal_string(mb as u64);
        match self {
            Language::English => text::concat3("Allocated: ", mb_text.as_str(), " MB"),
            Language::Russian => text::concat3("Выделено: ", mb_text.as_str(), " МБ"),
            Language::Ukrainian => text::concat3("Виділено: ", mb_text.as_str(), " МБ"),
        }
    }

    pub fn inst_playtime_label(&self, time_str: &str) -> (r: String)
        ensures
            r@ == (match *self { Language::English => "Played: "@ + time_str@, Language::Russian => "В игре: "@ + time_str@, Language::Ukrainian => "У грі: "@ + time_str@ }),
    {
        match self {
            Language::English => text::concat2("Played: ", time_str),
            Language::Russian => text::concat2("В игре: ", time_str),
            Language::Ukrainian => text::concat2("У грі: ", time_str),
        }
    }

    pub fn inst_mins_suffix(&self) -> (r: &'static str)
        ensures
            r@ == (match *self { Language::English => "min"@, Language::Russian => "мин"@, Language::Ukrainian => "хв"@ }),
    {
        match self {
            Language::English => "min",
            Language::Russian => "мин",
            Language::Ukrainian => "хв",
        }
    }

    pub fn inst_hours_suffix(&self) -> (r: &'static str)
        ensures
            r@ == (match *self { Language::English => "h"@, Language::Russian => "ч"@, Language::Ukrainian => "год"@ }),
    {
        match self {
            Language::English => "h",
            Language::Russian => "ч",
            Language::Ukrainian => "год",
        }
    }

    pub fn inst_last_played_label(&self, dt_str: &str) -> (r: String)
        ensures
            r@ == (match *self { Language::English => "Last session: "@ + dt_str@, Language::Russian => "Был в игре: "@ + dt_str@, Language::Ukrainian => "Востаннє у грі: "@ + dt_str@ }),
    {
        match self {
            Language::English => text::concat2("Last session: ", dt_str),
            Language::Russian => text::concat2("Был в игре: ", dt_str),
            Language::Ukrainian => text::concat2("Востаннє у грі: ", dt_str),
        }
    }

    pub fn inst_never_played(&self) -> (r: &'static str)
        ensures
            r@ == (match *self { Language::English => "Never"@, Language::Russian => "Никогда"@, Language::Ukrainian => "Ніколи"@ }),
    {
        match self {
            Language::English => "Never",
            Language::Russian => "Никогда",
            Language::Ukrainian => "Ніколи",
        }
    }

    pub fn inst_btn_play(&self) -> (r: &'static str)
        ensures
            r@ == (match *self { Language::English => "▶ Play"@, Language::Russian => "▶ Играть"@, Language::Ukrainian => "▶ Грати"@ }),
    {
        match self {
            Language::English => "▶ Play",
            Language::Russian => "▶ Играть",
            Language::Ukrainian => "▶ Грати",
        }
    }

    pub fn inst_btn_folder(&self) -> (r: &'static str)
        ensures
            r@ == (match *self { Language::English => "📂 Folder"@, Language::Russian => "📂 Папка"@, Language::Ukrainian => "📂 Папка"@ }),
    {
        match self {
            Language::English => "📂 Folder",
            Language::Russian => "📂 Папка",
            Language::Ukrainian => "📂 Папка",
        }
    }

    pub fn inst_btn_edit(&self) -> (r: &'static str)
        ensures
            r@ == (match *self { Language::English => "⚙ Edit"@, Language::Russian => "⚙ Настроить"@, Language::Ukrainian => "⚙ Налаштувати"@ }),
    {
        match self {
            Language::English => "⚙ Edit",
            Language::Russian => "⚙ Настроить",
            Language::Ukrainian => "⚙ Налаштувати",
        }
    }

    pub fn inst_btn_delete(&self) -> (r: &'static str)
        ensures
            r@ == (match *self { Language::English => "🗑 Delete"@, Language::Russian => "🗑 Удалить"@, Language::Ukrainian => "🗑 Видалити"@ }),
    {
        match self {
            Language::English => "🗑 Delete",
            Language::Russian => "🗑 Удалить",
            Language::Ukrainian => "🗑 Видалити",
        }
    }

    pub fn inst_modal_create_title(&self) -> (r: &'static str)
        ensures
            r@ == (match *self { Language::English => "Create New Instance"@, Language::Russian => "Создать новую сборку"@, Language::Ukrainian => "Створити нову збірку"@ }),
    {
        match self {
            Language::English => "Create New Instance",
            Language::Russian => "Создать новую сборку",
            Language::Ukrainian => "Створити нову збірку",
        }
    }

    pub fn inst_modal_edit_title(&self) -> (r: &'static str)
        ensures
            r@ == (match *self { Language::English => "Edit Instance"@, Language::Russian => "Редактирование сборки"@, Language::Ukrainian => "Редагування збірки"@ }),
    {
        match self {
            Language::English => "Edit Instance",
            Language::Russian => "Редактирование сборки",
            Language::Ukrainian => "Редагування збірки",
        }
    }

    pub fn inst_modal_name(&self) -> (r: &'static str)
        ensures
            r@ == (match *self { Language::English => "Instance Name:"@, Language::Russian => "Название сборки:"@, Language::Ukrainian => "Назва збірки:"@ }),
    {
        match self {
            Language::English => "Instance Name:",
            Language::Russian => "Название сборки:",
            Language::Ukrainian => "Назва збірки:",
        }
    }

    pub fn inst_modal_version(&self) -> (r: &'static str)
        ensures
            r@ == (match *self { Language::English => "Game Version:"@, Language::Russian => "Версия игры:"@, Language::Ukrainian => "Версія гри:"@ }),
    {
        match self {
            Language::English => "Game Version:",
            Language::Russian => "Версия игры:",
            Language::Ukrainian => "Версія гри:",
        }
    }

    pub fn inst_modal_loader(&self) -> (r: &'static str)
        ensures
            r@ == (match *self { Language::English => "Mod Loader:"@, Language::Russian => "Загрузчик модов:"@, Language::Ukrainian => "Завантажувач модів:"@ }),
    {
        match self {
            Language::English => "Mod Loader:",
            Language::Russian => "Загрузчик модов:",
            Language::Ukrainian => "Завантажувач модів:",
        }
    }

    pub fn inst_modal_ram(&self) -> (r: &'static str)
        ensures
            r@ == (match *self { Language::English => "RAM Allocation:"@, Language::Russian => "Оперативная память:"@, Language::Ukrainian => "Оперативна пам'ять:"@ }),
    {
        match self {
            Language::English => "RAM Allocation:",
            Language::Russian => "Оперативная память:",
            Language::Ukrainian => "Оперативна пам'ять:",
        }
    }

    pub fn inst_modal_btn_save(&self) -> (r: &'static str)
        ensures
            r@ == (match *self { Language::English => "SAVE"@, Language::Russian => "СОХРАНИТЬ"@, Language::Ukrainian => "ЗБЕРЕГТИ"@ }),
    {
        match self {
            Language::English => "SAVE",
            Language::Russian => "СОХРАНИТЬ",
            Language::Ukrainian => "ЗБЕРЕГТИ",
        }
    }

    pub fn inst_modal_btn_create(&self) -> (r: &'static str)
        ensures
            r@ == (match *self { Language::English => "CREATE"@, Language::Russian => "СОЗДАТЬ"@, Language::Ukrainian => "СТВОРИТИ"@ }),
    {
        match self {
            Language::English => "CREATE",
            Language::Russian => "СОЗДАТЬ",
            Language::Ukrainian => "СТВОРИТИ",
        }
    }

    pub fn inst_modal_btn_cancel(&self) -> (r: &'static str)
        ensures
            r@ == (match *self { Language::English => "CANCEL"@, Language::Russian => "ОТМЕНА"@, Language::Ukrainian => "СКАСУВАТИ"@ }),
    {
        match self {
            Language::English => "CANCEL",
            Language::Russian => "ОТМЕНА",
            Language::Ukrainian => "СКАСУВАТИ",
        }
    }

    pub fn mods_title(&self) -> (r: &'static str)
        ensures
            r@ == (match *self { Language::English => "Mod Manager"@, Language::Russian => "Управление модами"@, Language::Ukrainian => "Керування модами"@ }),
    {
        match self {
            Language::English => "Mod Manager",
            Language::Russian => "Управление модами",
            Language::Ukrainian => "Керування модами",
        }
    }

    pub fn mods_tab_installed(&self) -> (r: &'static str)
        ensures
            r@ == (match *self { Language::English => "INSTALLED"@, Language::Russian => "УСТАНОВЛЕННЫЕ"@, Language::Ukrainian => "ВСТАНОВЛЕНІ"@ }),
    {
        match self {
            Language::English => "INSTALLED",
            Language::Russian => "УСТАНОВЛЕННЫЕ",
            Language::Ukrainian => "ВСТАНОВЛЕНІ",
        }
    }

    pub fn mods_tab_search_modrinth(&self) -> (r: &'static str)
        ensures
            r@ == (match *self { Language::English => "SEARCH (MODRINTH)"@, Language::Russian => "ПОИСК (MODRINTH)"@, Language::Ukrainian => "ПОШУК (MODRINTH)"@ }),
    {
        match self {
            Language::English => "SEARCH (MODRINTH)",
            Language::Russian => "ПОИСК (MODRINTH)",
            Language::Ukrainian => "ПОШУК (MODRINTH)",
        }
    }

    pub fn mods_tab_search_curseforge(&self) -> (r: &'static str)
        ensures
            r@ == (match *self { Language::English => "SEARCH (CURSEFORGE)"@, Language::Russian => "ПОИСК (CURSEFORGE)"@, Language::Ukrainian => "ПОШУК (CURSEFORGE)"@ }),
    {
        match self {
            Language::English => "SEARCH (CURSEFORGE)",
            Language::Russian => "ПОИСК (CURSEFORGE)",
            Language::Ukrainian => "ПОШУК (CURSEFORGE)",
        }
    }

    pub fn mods_tab_search_generic(&self) -> (r: &'static str)
        ensures
            r@ == (match *self { Language::English => "SEARCH MODS"@, Language::Russian => "ПОИСК МОДОВ"@, Language::Ukrainian => "ПОШУК МОДІВ"@ }),
    {
        match self {
            Language::English => "SEARCH MODS",
            Language::Russian => "ПОИСК МОДОВ",
            Language::Ukrainian => "ПОШУК МОДІВ",
        }
    }

    pub fn mods_provider_btn(&self, prov: &str) -> (r: String)
        ensures
            r@ == (match *self { Language::English => "Provider: "@ + prov@, Language::Russian => "Провайдер: "@ + prov@, Language::Ukrainian => "Провайдер: "@ + prov@ }),
    {
        match self {
            Language::English => text::concat2("Provider: ", prov),
            Language::Russian => text::concat2("Провайдер: ", prov),
            Language::Ukrainian => text::concat2("Провайдер: ", prov),
        }
    }

    pub fn mods_search_hint(&self, prov: &str) -> (r: String)
        ensures
            r@ == (match *self { Language::English => "🔍 Search mods on "@ + prov@ + "..."@, Language::Russian => "🔍 Поиск модов на "@ + prov@ + "..."@, Language::Ukrainian => "🔍 Пошук модів на "@ + prov@ + "..."@ }),
    {
        match self {
            Language::English => text::concat3("🔍 Search mods on ", prov, "..."),
            Language::Russian => text::concat3("🔍 Поиск модов на ", prov, "..."),
            Language::Ukrainian => text::concat3("🔍 Пошук модів на ", prov, "..."),
        }
    }

    pub fn mods_btn_search(&self) -> (r: &'static str)
        ensures
            r@ == (match *self { Language::English => "SEARCH"@, Language::Russian => "ИСКАТЬ"@, Language::Ukrainian => "ШУКАТИ"@ }),
    {
        match self {
            Language::English => "SEARCH",
            Language::Russian => "ИСКАТЬ",
            Language::Ukrainian => "ШУКАТИ",
        }
    }

    pub fn mods_searching(&self) -> (r: &'static str)
        ensures
            r@ == (match *self { Language::English => "Searching mods..."@, Language::Russian => "Поиск модов..."@, Language::Ukrainian => "Пошук модів..."@ }),
    {
        match self {
            Language::English => "Searching mods...",
            Language::Russian => "Поиск модов...",
            Language::Ukrainian => "Пошук модів...",
        }
    }

    pub fn mods_btn_open_folder(&self) -> (r: &'static str)
        ensures
            r@ == (match *self { Language::English => "📂 Open mods folder"@, Language::Russian => "📂 Открыть папку mods"@, Language::Ukrainian => "📂 Відкрити папку mods"@ }),
    {
        match self {
            Language::English => "📂 Open mods folder",
            Language::Russian => "📂 Открыть папку mods",
            Language::Ukrainian => "📂 Відкрити папку mods",
        }
    }

    pub fn mods_btn_rescan(&self) -> (r: &'static str)
        ensures
            r@ == (match *self { Language::English => "🔄 Refresh list"@, Language::Russian => "🔄 Обновить список"@, Language::Ukrainian => "🔄 Оновити список"@ }),
    {
        match self {
            Language::English => "🔄 Refresh list",
            Language::Russian => "🔄 Обновить список",
            Language::Ukrainian => "🔄 Оновити список",
        }
    }

    pub fn mods_count(&self, count: usize) -> (r: String)
        ensures
            r@ == (match *self { Language::English => "Installed mods: "@ + text::decimal(count as nat), Language::Russian => "Установлено модов: "@ + text::decimal(count as nat), Language::Ukrainian => "Встановлено модів: "@ + text::decimal(count as nat) }),
    {
        let count_text = text::decimal_string(count as u64);
        match self {
            Language::English => text::concat2("Installed mods: ", count_text.as_str()),
            Language::Russian => text::concat2("Установлено модов: ", count_text.as_str()),
            Language::Ukrainian => text::concat2("Встановлено модів: ", count_text.as_str()),
        }
    }

    pub fn mods_status_enabled(&self) -> (r: &'static str)
        ensures
            r@ == (match *self { Language::English => "Enabled"@, Language::Russian => "Включен"@, Language::Ukrainian => "Увімкнено"@ }),
    {
        match self {
            Language::English => "Enabled",
            Language::Russian => "Включен",
            Language::Ukrainian => "Увімкнено",
        }
    }

    pub fn mods_status_disabled(&self) -> (r: &'static str)
        ensures
            r@ == (match *self { Language::English => "Disabled"@, Language::Russian => "Отключен"@, Language::Ukrainian => "Вимкнено"@ }),
    {
        match self {
            Language::English => "Disabled",
            Language::Russian => "Отключен",
            Language::Ukrainian => "Вимкнено",
        }
    }

    pub fn mods_btn_install(&self) -> (r: &'static str)
        ensures
            r@ == (match *self { Language::English => "INSTALL"@, Language::Russian => "УСТАНОВИТЬ"@, Language::Ukrainian => "ВСТАНОВИТИ"@ }),
    {
        match self {
            Language::English => "INSTALL",
            Language::Russian => "УСТАНОВИТЬ",
            Language::Ukrainian => "ВСТАНОВИТИ",
        }
    }

    pub fn mods_btn_downloading(&self) -> (r: &'static str)
        ensures
            r@ == (match *self { Language::English => "DOWNLOADING..."@, Language::Russian => "ЗАГРУЗКА..."@, Language::Ukrainian => "ЗАВАНТАЖЕННЯ..."@ }),
    {
        match self {
            Language::English => "DOWNLOADING...",
            Language::Russian => "ЗАГРУЗКА...",
            Language::Ukrainian => "ЗАВАНТАЖЕННЯ...",
        }
    }

    pub fn mods_badge_installed(&self) -> (r: &'static str)
        ensures
            r@ == (match *self { Language::English => "✔ Installed"@, Language::Russian => "✔ Установлен"@, Language::Ukrainian => "✔ Встановлено"@ }),
    {
        match self {
            Language::English => "✔ Installed",
            Language::Russian => "✔ Установлен",
            Language::Ukrainian => "✔ Встановлено",
        }
    }

    pub fn mods_btn_delete(&self) -> (r: &'static str)
        ensures
            r@ == (match *self { Language::English => "🗑 Delete"@, Language::Russian => "🗑 Удалить"@, Language::Ukrainian => "🗑 Видалити"@ }),
    {
        match self {
            Language::English => "🗑 Delete",
            Language::Russian => "🗑 Удалить",
            Language::Ukrainian => "🗑 Видалити",
        }
    }

    pub fn mods_no_installed(&self) -> (r: &'static str)
        ensures
            r@ == (match *self { Language::English => "No mods in the 'mods/' folder. Use the search tab to find and install mods!"@, Language::Russian => "В папке 'mods/' нет установленных модов. Переключитесь на поиск, чтобы скачать!"@, Language::Ukrainian => "У папці 'mods/' немає встановлених модів. Перемкніться на пошук, щоб завантажити!"@ }),
    {
        match self {
            Language::English => "No mods in the 'mods/' folder. Use the search tab to find and install mods!",
            Language::Russian => "В папке 'mods/' нет установленных модов. Переключитесь на поиск, чтобы скачать!",
            Language::Ukrainian => "У папці 'mods/' немає встановлених модів. Перемкніться на пошук, щоб завантажити!",
        }
    }

    pub fn mods_no_results(&self) -> (r: &'static str)
        ensures
            r@ == (match *self { Language::English => "No mods found matching your query"@, Language::Russian => "По вашему запросу ничего не найдено"@, Language::Ukrainian => "За вашим запитом нічого не знайдено"@ }),
    {
        match self {
            Language::English => "No mods found matching your query",
            Language::Russian => "По вашему запросу ничего не найдено",
            Language::Ukrainian => "За вашим запитом нічого не знайдено",
        }
    }

    pub fn skins_title(&self) -> (r: &'static str)
        ensures
            r@ == (match *self { Language::English => "Skin Manager"@, Language::Russian => "Управление скинами"@, Language::Ukrainian => "Керування скінами"@ }),
    {
        match self {
            Language::English => "Skin Manager",
            Language::Russian => "Управление скинами",
            Language::Ukrainian => "Керування скінами",
        }
    }

    pub fn skins_classic(&self) -> (r: &'static str)
        ensures
            r@ == (match *self { Language::English => "Classic (Steve 4px)"@, Language::Russian => "Classic (4px)"@, Language::Ukrainian => "Classic (4px)"@ }),
    {
        match self {
            Language::English => "Classic (Steve 4px)",
            Language::Russian => "Classic (4px)",
            Language::Ukrainian => "Classic (4px)",
        }
    }

    pub fn skins_slim(&self) -> (r: &'static str)
        ensures
            r@ == (match *self { Language::English => "Slim (Alex 3px)"@, Language::Russian => "Slim (Alex 3px)"@, Language::Ukrainian => "Slim (Alex 3px)"@ }),
    {
        match self {
            Language::English => "Slim (Alex 3px)",
            Language::Russian => "Slim (Alex 3px)",
            Language::Ukrainian => "Slim (Alex 3px)",
        }
    }

    pub fn skins_active_label(&self, name: &str) -> (r: String)
        ensures
            r@ == (match *self { Language::English => "Current Skin: "@ + name@, Language::Russian => "Текущий скин: "@ + name@, Language::Ukrainian => "Поточний скін: "@ + name@ }),
    {
        match self {
            Language::English => text::concat2("Current Skin: ", name),
            Language::Russian => text::concat2("Текущий скин: ", name),
            Language::Ukrainian => text::concat2("Поточний скін: ", name),
        }
    }

    pub fn skins_default_name(&self) -> (r: &'static str)
        ensures
            r@ == (match *self { Language::English => "Steve (Default)"@, Language::Russian => "Steve (По умолчанию)"@, Language::Ukrainian => "Steve (За замовчуванням)"@ }),
    {
        match self {
            Language::English => "Steve (Default)",
            Language::Russian => "Steve (По умолчанию)",
            Language::Ukrainian => "Steve (За замовчуванням)",
        }
    }

    pub fn skins_btn_load(&self) -> (r: &'static str)
        ensures
            r@ == (match *self { Language::English => "📁 LOAD SKIN (PNG)"@, Language::Russian => "📁 ЗАГРУЗИТЬ СКИН (PNG)"@, Language::Ukrainian => "📁 ЗАВАНТАЖИТИ СКІН (PNG)"@ }),
    {
        match self {
            Language::English => "📁 LOAD SKIN (PNG)",
            Language::Russian => "📁 ЗАГРУЗИТЬ СКИН (PNG)",
            Language::Ukrainian => "📁 ЗАВАНТАЖИТИ СКІН (PNG)",
        }
    }

    pub fn skins_btn_reset_steve(&self) -> (r: &'static str)
        ensures
            r@ == (match *self { Language::English => "Reset to Steve"@, Language::Russian => "Сбросить на Steve"@, Language::Ukrainian => "Скинути до Steve"@ }),
    {
        match self {
            Language::English => "Reset to Steve",
            Language::Russian => "Сбросить на Steve",
            Language::Ukrainian => "Скинути до Steve",
        }
    }

    pub fn skins_btn_reset_alex(&self) -> (r: &'static str)
        ensures
            r@ == (match *self { Language::English => "Reset to Alex"@, Language::Russian => "Сбросить на Alex"@, Language::Ukrainian => "Скинути до Alex"@ }),
    {
        match self {
            Language::English => "Reset to Alex",
            Language::Russian => "Сбросить на Alex",
            Language::Ukrainian => "Скинути до Alex",
        }
    }

    pub fn skins_btn_export(&self) -> (r: &'static str)
        ensures
            r@ == (match *self { Language::English => "💾 Export PNG"@, Language::Russian => "💾 Экспортировать PNG"@, Language::Ukrainian => "💾 Експортувати PNG"@ }),
    {
        match self {
            Language::English => "💾 Export PNG",
            Language::Russian => "💾 Экспортировать PNG",
            Language::Ukrainian => "💾 Експортувати PNG",
        }
    }

    pub fn skins_hint(&self) -> (r: &'static str)
        ensures
            r@ == (match *self { Language::English => "Supports standard 64x64 and legacy 64x32 PNG skins"@, Language::Russian => "Поддерживаются скины форматов 64x64 и классические 64x32 PNG"@, Language::Ukrainian => "Підтримуються скіни форматів 64x64 та класичні 64x32 PNG"@ }),
    {
        match self {
            Language::English => "Supports standard 64x64 and legacy 64x32 PNG skins",
            Language::Russian => "Поддерживаются скины форматов 64x64 и классические 64x32 PNG",
            Language::Ukrainian => "Підтримуються скіни форматів 64x64 та класичні 64x32 PNG",
        }
    }

    pub fn settings_title(&self) -> (r: &'static str)
        ensures
            r@ == (match *self { Language::English => "Settings"@, Language::Russian => "Настройки"@, Language::Ukrainian => "Налаштування"@ }),
    {
        match self {
            Language::English => "Settings",
            Language::Russian => "Настройки",
            Language::Ukrainian => "Налаштування",
        }
    }

    pub fn settings_tab_general(&self) -> (r: &'static str)
        ensures
            r@ == (match *self { Language::English => "GENERAL"@, Language::Russian => "ОСНОВНЫЕ"@, Language::Ukrainian => "ОСНОВНІ"@ }),
    {
        match self {
            Language::English => "GENERAL",
            Language::Russian => "ОСНОВНЫЕ",
            Language::Ukrainian => "ОСНОВНІ",
        }
    }

    pub fn settings_tab_java(&self) -> (r: &'static str)
        ensures
            r@ == (match *self { Language::English => "JAVA & MEMORY"@, Language::Russian => "JAVA И ПАМЯТЬ"@, Language::Ukrainian => "JAVA ТА ПАМ'ЯТЬ"@ }),
    {
        match self {
            Language::English => "JAVA & MEMORY",
            Language::Russian => "JAVA И ПАМЯТЬ",
            Language::Ukrainian => "JAVA ТА ПАМ'ЯТЬ",
        }
    }

    pub fn settings_tab_accounts(&self) -> (r: &'static str)
        ensures
            r@ == (match *self { Language::English => "ACCOUNTS"@, Language::Russian => "АККАУНТЫ"@, Language::Ukrainian => "АКАУНТИ"@ }),
    {
        match self {
            Language::English => "ACCOUNTS",
            Language::Russian => "АККАУНТЫ",
            Language::Ukrainian => "АКАУНТИ",
        }
    }

    pub fn settings_language_title(&self) -> (r: &'static str)
        ensures
            r@ == (match *self { Language::English => "Interface Language"@, Language::Russian => "Язык интерфейса"@, Language::Ukrainian => "Мова інтерфейсу"@ }),
    {
        match self {
            Language::English => "Interface Language",
            Language::Russian => "Язык интерфейса",
            Language::Ukrainian => "Мова інтерфейсу",
        }
    }

    pub fn settings_behavior_title(&self) -> (r: &'static str)
        ensures
            r@ == (match *self { Language::English => "Launcher Behavior"@, Language::Russian => "Поведение лаунчера"@, Language::Ukrainian => "Поведінка лаунчера"@ }),
    {
        match self {
            Language::English => "Launcher Behavior",
            Language::Russian => "Поведение лаунчера",
            Language::Ukrainian => "Поведінка лаунчера",
        }
    }

    pub fn settings_close_after_launch(&self) -> (r: &'static str)
        ensures
            r@ == (match *self { Language::English => "Close launcher after Minecraft starts"@, Language::Russian => "Закрывать лаунчер после запуска Minecraft"@, Language::Ukrainian => "Закривати лаунчер після запуску Minecraft"@ }),
    {
        match self {
            Language::English => "Close launcher after Minecraft starts",
            Language::Russian => "Закрывать лаунчер после запуска Minecraft",
            Language::Ukrainian => "Закривати лаунчер після запуску Minecraft",
        }
    }

    pub fn settings_show_snapshots(&self) -> (r: &'static str)
        ensures
            r@ == (match *self { Language::English => "Show snapshots in version list"@, Language::Russian => "Отображать снапшоты в списке версий"@, Language::Ukrainian => "Відображати снапшоти у списку версій"@ }),
    {
        match self {
            Language::English => "Show snapshots in version list",
            Language::Russian => "Отображать снапшоты в списке версий",
            Language::Ukrainian => "Відображати снапшоти у списку версій",
        }
    }

    pub fn settings_show_old(&self) -> (r: &'static str)
        ensures
            r@ == (match *self { Language::English => "Show legacy versions (Alpha / Beta)"@, Language::Russian => "Отображать старые версии (Alpha / Beta)"@, Language::Ukrainian => "Відображати старі версії (Alpha / Beta)"@ }),
    {
        match self {
            Language::English => "Show legacy versions (Alpha / Beta)",
            Language::Russian => "Отображать старые версии (Alpha / Beta)",
            Language::Ukrainian => "Відображати старі версії (Alpha / Beta)",
        }
    }

    pub fn settings_resolution_title(&self) -> (r: &'static str)
        ensures
            r@ == (match *self { Language::English => "Game Window Resolution"@, Language::Russian => "Разрешение окна игры"@, Language::Ukrainian => "Роздільна здатність вікна гри"@ }),
    {
        match self {
            Language::English => "Game Window Resolution",
            Language::Russian => "Разрешение окна игры",
            Language::Ukrainian => "Роздільна здатність вікна гри",
        }
    }

    pub fn settings_width(&self) -> (r: &'static str)
        ensures
            r@ == (match *self { Language::English => "Width:"@, Language::Russian => "Ширина:"@, Language::Ukrainian => "Ширина:"@ }),
    {
        match self {
            Language::English => "Width:",
            Language::Russian => "Ширина:",
            Language::Ukrainian => "Ширина:",
        }
    }

    pub fn settings_height(&self) -> (r: &'static str)
        ensures
            r@ == (match *self { Language::English => "Height:"@, Language::Russian => "Высота:"@, Language::Ukrainian => "Висота:"@ }),
    {
        match self {
            Language::English => "Height:",
            Language::Russian => "Высота:",
            Language::Ukrainian => "Висота:",
        }
    }

    pub fn settings_fullscreen(&self) -> (r: &'static str)
        ensures
            r@ == (match *self { Language::English => "Launch in fullscreen mode"@, Language::Russian => "Запускать в полноэкранном режиме"@, Language::Ukrainian => "Запускати у повноекранному режимі"@ }),
    {
        match self {
            Language::English => "Launch in fullscreen mode",
            Language::Russian => "Запускать в полноэкранном режиме",
            Language::Ukrainian => "Запускати у повноекранному режимі",
        }
    }

    pub fn settings_folders_title(&self) -> (r: &'static str)
        ensures
            r@ == (match *self { Language::English => "Launcher Directories & Files"@, Language::Russian => "Папки и файлы лаунчера"@, Language::Ukrainian => "Папки та файли лаунчера"@ }),
    {
        match self {
            Language::English => "Launcher Directories & Files",
            Language::Russian => "Папки и файлы лаунчера",
            Language::Ukrainian => "Папки та файли лаунчера",
        }
    }

    pub fn settings_folder_root(&self) -> (r: &'static str)
        ensures
            r@ == (match *self { Language::English => "📂 Root Folder"@, Language::Russian => "📂 Корневая папка"@, Language::Ukrainian => "📂 Коренева папка"@ }),
    {
        match self {
            Language::English => "📂 Root Folder",
            Language::Russian => "📂 Корневая папка",
            Language::Ukrainian => "📂 Коренева папка",
        }
    }

    pub fn settings_folder_logs(&self) -> (r: &'static str)
        ensures
            r@ == (match *self { Language::English => "📂 Logs"@, Language::Russian => "📂 Логи"@, Language::Ukrainian => "📂 Логи"@ }),
    {
        match self {
            Language::English => "📂 Logs",
            Language::Russian => "📂 Логи",
            Language::Ukrainian => "📂 Логи",
        }
    }

    pub fn settings_folder_instances(&self) -> (r: &'static str)
        ensures
            r@ == (match *self { Language::English => "📂 Instances"@, Language::Russian => "📂 Сборки"@, Language::Ukrainian => "📂 Збірки"@ }),
    {
        match self {
            Language::English => "📂 Instances",
            Language::Russian => "📂 Сборки",
            Language::Ukrainian => "📂 Збірки",
        }
    }

    pub fn settings_ram_title(&self) -> (r: &'static str)
        ensures
            r@ == (match *self { Language::English => "Memory Allocation (RAM)"@, Language::Russian => "Оперативная память (RAM)"@, Language::Ukrainian => "Оперативна пам'ять (RAM)"@ }),
    {
        match self {
            Language::English => "Memory Allocation (RAM)",
            Language::Russian => "Оперативная память (RAM)",
            Language::Ukrainian => "Оперативна пам'ять (RAM)",
        }
    }

    pub fn settings_java_title(&self) -> (r: &'static str)
        ensures
            r@ == (match *self { Language::English => "Java Runtime Environment"@, Language::Russian => "Среда выполнения Java"@, Language::Ukrainian => "Середовище виконання Java"@ }),
    {
        match self {
            Language::English => "Java Runtime Environment",
            Language::Russian => "Среда выполнения Java",
            Language::Ukrainian => "Середовище виконання Java",
        }
    }

    pub fn settings_java_path(&self, path_str: &str) -> (r: String)
        ensures
            r@ == (match *self { Language::English => "Current path: "@ + path_str@, Language::Russian => "Текущий путь: "@ + path_str@, Language::Ukrainian => "Поточний шлях: "@ + path_str@ }),
    {
        match self {
            Language::English => text::concat2("Current path: ", path_str),
            Language::Russian => text::concat2("Текущий путь: ", path_str),
            Language::Ukrainian => text::concat2("Поточний шлях: ", path_str),
        }
    }

    pub fn settings_java_auto(&self) -> (r: &'static str)
        ensures
            r@ == (match *self { Language::English => "Auto-detect (Adoptium OpenJDK 8 / 17 / 21)"@, Language::Russian => "Автоопределение (Adoptium OpenJDK 8 / 17 / 21)"@, Language::Ukrainian => "Автовизначення (Adoptium OpenJDK 8 / 17 / 21)"@ }),
    {
        match self {
            Language::English => "Auto-detect (Adoptium OpenJDK 8 / 17 / 21)",
            Language::Russian => "Автоопределение (Adoptium OpenJDK 8 / 17 / 21)",
            Language::Ukrainian => "Автовизначення (Adoptium OpenJDK 8 / 17 / 21)",
        }
    }

    pub fn settings_btn_select_java(&self) -> (r: &'static str)
        ensures
            r@ == (match *self { Language::English => "SELECT JAVA.EXE"@, Language::Russian => "ВЫБРАТЬ JAVA.EXE"@, Language::Ukrainian => "ОБРАТИ JAVA.EXE"@ }),
    {
        match self {
            Language::English => "SELECT JAVA.EXE",
            Language::Russian => "ВЫБРАТЬ JAVA.EXE",
            Language::Ukrainian => "ОБРАТИ JAVA.EXE",
        }
    }

    pub fn settings_btn_reset_java(&self) -> (r: &'static str)
        ensures
            r@ == (match *self { Language::English => "Reset to Auto-detect"@, Language::Russian => "Сбросить на автовыбор"@, Language::Ukrainian => "Скинути до автовибору"@ }),
    {
        match self {
            Language::English => "Reset to Auto-detect",
            Language::Russian => "Сбросить на автовыбор",
            Language::Ukrainian => "Скинути до автовибору",
        }
    }

    pub fn settings_jvm_args_title(&self) -> (r: &'static str)
        ensures
            r@ == (match *self { Language::English => "Custom JVM Arguments"@, Language::Russian => "Пользовательские JVM аргументы"@, Language::Ukrainian => "Користувацькі JVM аргументи"@ }),
    {
        match self {
            Language::English => "Custom JVM Arguments",
            Language::Russian => "Пользовательские JVM аргументы",
            Language::Ukrainian => "Користувацькі JVM аргументи",
        }
    }

    pub fn settings_btn_add_arg(&self) -> (r: &'static str)
        ensures
            r@ == (match *self { Language::English => "+ Add"@, Language::Russian => "+ Добавить"@, Language::Ukrainian => "+ Додати"@ }),
    {
        match self {
            Language::English => "+ Add",
            Language::Russian => "+ Добавить",
            Language::Ukrainian => "+ Додати",
        }
    }

    pub fn settings_gc_presets_title(&self) -> (r: &'static str)
        ensures
            r@ == (match *self { Language::English => "Optimization presets:"@, Language::Russian => "Готовые пресеты оптимизации:"@, Language::Ukrainian => "Готові пресети оптимізації:"@ }),
    {
        match self {
            Language::English => "Optimization presets:",
            Language::Russian => "Готовые пресеты оптимизации:",
            Language::Ukrainian => "Готові пресети оптимізації:",
        }
    }

    pub fn settings_btn_preset_g1gc(&self) -> (r: &'static str)
        ensures
            r@ == (match *self { Language::English => "⚡ G1GC Preset (High FPS)"@, Language::Russian => "⚡ Пресет G1GC (Высокий FPS)"@, Language::Ukrainian => "⚡ Пресет G1GC (Високий FPS)"@ }),
    {
        match self {
            Language::English => "⚡ G1GC Preset (High FPS)",
            Language::Russian => "⚡ Пресет G1GC (Высокий FPS)",
            Language::Ukrainian => "⚡ Пресет G1GC (Високий FPS)",
        }
    }

    pub fn settings_tooltip_preset_g1gc(&self) -> (r: &'static str)
        ensures
            r@ == (match *self { Language::English => "Optimized garbage collector flags for maximum FPS and smooth gameplay without stutters"@, Language::Russian => "Оптимизированные флаги сборщика мусора для максимального FPS и плавной игры без фризов"@, Language::Ukrainian => "Оптимізовані прапорці збирача сміття для максимального FPS та плавної гри без фризів"@ }),
    {
        match self {
            Language::English => "Optimized garbage collector flags for maximum FPS and smooth gameplay without stutters",
            Language::Russian => "Оптимизированные флаги сборщика мусора для максимального FPS и плавной игры без фризов",
            Language::Ukrainian => "Оптимізовані прапорці збирача сміття для максимального FPS та плавної гри без фризів",
        }
    }

    pub fn settings_btn_preset_zgc(&self) -> (r: &'static str)
        ensures
            r@ == (match *self { Language::English => "🚀 ZGC Preset (Low Latency)"@, Language::Russian => "🚀 Пресет ZGC (Низкие задержки)"@, Language::Ukrainian => "🚀 Пресет ZGC (Низькі затримки)"@ }),
    {
        match self {
            Language::English => "🚀 ZGC Preset (Low Latency)",
            Language::Russian => "🚀 Пресет ZGC (Низкие задержки)",
            Language::Ukrainian => "🚀 Пресет ZGC (Низькі затримки)",
        }
    }

    pub fn settings_tooltip_preset_zgc(&self) -> (r: &'static str)
        ensures
            r@ == (match *self { Language::English => "Ultra-fast ZGC collector with sub-millisecond pauses (for Java 17 and 21)"@, Language::Russian => "Сверхбыстрый сборщик мусора ZGC с субмиллисекундными паузами (для Java 17 и 21)"@, Language::Ukrainian => "Надшвидкий збирач сміття ZGC з субмілісекундними паузами (для Java 17 та 21)"@ }),
    {
        match self {
            Language::English => "Ultra-fast ZGC collector with sub-millisecond pauses (for Java 17 and 21)",
            Language::Russian => "Сверхбыстрый сборщик мусора ZGC с субмиллисекундными паузами (для Java 17 и 21)",
            Language::Ukrainian => "Надшвидкий збирач сміття ZGC з субмілісекундними паузами (для Java 17 та 21)",
        }
    }

    pub fn settings_btn_reset_args(&self) -> (r: &'static str)
        ensures
            r@ == (match *self { Language::English => "Reset"@, Language::Russian => "Сбросить"@, Language::Ukrainian => "Скинути"@ }),
    {
        match self {
            Language::English => "Reset",
            Language::Russian => "Сбросить",
            Language::Ukrainian => "Скинути",
        }
    }

    pub fn settings_tooltip_reset_args(&self) -> (r: &'static str)
        ensures
            r@ == (match *self { Language::English => "Clear all custom JVM flags"@, Language::Russian => "Очистить все пользовательские флаги"@, Language::Ukrainian => "Очистити всі користувацькі прапорці"@ }),
    {
        match self {
            Language::English => "Clear all custom JVM flags",
            Language::Russian => "Очистить все пользовательские флаги",
            Language::Ukrainian => "Очистити всі користувацькі прапорці",
        }
    }

    pub fn settings_accounts_title(&self) -> (r: &'static str)
        ensures
            r@ == (match *self { Language::English => "Saved Accounts"@, Language::Russian => "Сохраненные аккаунты"@, Language::Ukrainian => "Збережені акаунти"@ }),
    {
        match self {
            Language::English => "Saved Accounts",
            Language::Russian => "Сохраненные аккаунты",
            Language::Ukrainian => "Збережені акаунти",
        }
    }

    pub fn settings_account_active(&self) -> (r: &'static str)
        ensures
            r@ == (match *self { Language::English => "✔ (Active)"@, Language::Russian => "✔ (Активен)"@, Language::Ukrainian => "✔ (Активний)"@ }),
    {
        match self {
            Language::English => "✔ (Active)",
            Language::Russian => "✔ (Активен)",
            Language::Ukrainian => "✔ (Активний)",
        }
    }

    pub fn settings_btn_set_active(&self) -> (r: &'static str)
        ensures
            r@ == (match *self { Language::English => "Set Active"@, Language::Russian => "Сделать активным"@, Language::Ukrainian => "Зробити активним"@ }),
    {
        match self {
            Language::English => "Set Active",
            Language::Russian => "Сделать активным",
            Language::Ukrainian => "Зробити активним",
        }
    }

    pub fn settings_btn_delete_acc(&self) -> (r: &'static str)
        ensures
            r@ == (match *self { Language::English => "Delete"@, Language::Russian => "Удалить"@, Language::Ukrainian => "Видалити"@ }),
    {
        match self {
            Language::English => "Delete",
            Language::Russian => "Удалить",
            Language::Ukrainian => "Видалити",
        }
    }

    pub fn login_modal_title(&self) -> (r: &'static str)
        ensures
            r@ == (match *self { Language::English => "Account Authorization"@, Language::Russian => "Авторизация"@, Language::Ukrainian => "Авторизація"@ }),
    {
        match self {
            Language::English => "Account Authorization",
            Language::Russian => "Авторизация",
            Language::Ukrainian => "Авторизація",
        }
    }

    pub fn login_tab_offline(&self) -> (r: &'static str)
        ensures
            r@ == (match *self { Language::English => "FREE / NICKNAME"@, Language::Russian => "БЕСПЛАТНО / НИК"@, Language::Ukrainian => "БЕЗКОШТОВНО / НІК"@ }),
    {
        match self {
            Language::English => "FREE / NICKNAME",
            Language::Russian => "БЕСПЛАТНО / НИК",
            Language::Ukrainian => "БЕЗКОШТОВНО / НІК",
        }
    }

    pub fn login_tab_wetid(&self) -> (r: &'static str)
        ensures
            r@ == (match *self { Language::English => "WETID (ALEPH)"@, Language::Russian => "WETID (ALEPH)"@, Language::Ukrainian => "WETID (ALEPH)"@ }),
    {
        match self {
            Language::English => "WETID (ALEPH)",
            Language::Russian => "WETID (ALEPH)",
            Language::Ukrainian => "WETID (ALEPH)",
        }
    }

    pub fn login_tab_microsoft(&self) -> (r: &'static str)
        ensures
            r@ == (match *self { Language::English => "MICROSOFT LICENSE"@, Language::Russian => "MICROSOFT ЛИЦЕНЗИЯ"@, Language::Ukrainian => "MICROSOFT ЛІЦЕНЗІЯ"@ }),
    {
        match self {
            Language::English => "MICROSOFT LICENSE",
            Language::Russian => "MICROSOFT ЛИЦЕНЗИЯ",
            Language::Ukrainian => "MICROSOFT ЛІЦЕНЗІЯ",
        }
    }

    pub fn login_offline_prompt(&self) -> (r: &'static str)
        ensures
            r@ == (match *self { Language::English => "Enter player nickname:"@, Language::Russian => "Введите никнейм для игры:"@, Language::Ukrainian => "Введіть нікнейм для гри:"@ }),
    {
        match self {
            Language::English => "Enter player nickname:",
            Language::Russian => "Введите никнейм для игры:",
            Language::Ukrainian => "Введіть нікнейм для гри:",
        }
    }

    pub fn login_offline_hint(&self) -> (r: &'static str)
        ensures
            r@ == (match *self { Language::English => "Works with any offline, cracked, and LAN servers"@, Language::Russian => "Подходит для любых пиратских и локальных серверов"@, Language::Ukrainian => "Підходить для будь-яких офлайн та локальних серверів"@ }),
    {
        match self {
            Language::English => "Works with any offline, cracked, and LAN servers",
            Language::Russian => "Подходит для любых пиратских и локальных серверов",
            Language::Ukrainian => "Підходить для будь-яких офлайн та локальних серверів",
        }
    }

    pub fn login_btn_play(&self) -> (r: &'static str)
        ensures
            r@ == (match *self { Language::English => "PLAY NOW"@, Language::Russian => "ВОЙТИ В ИГРУ"@, Language::Ukrainian => "УВІЙТИ В ГРУ"@ }),
    {
        match self {
            Language::English => "PLAY NOW",
            Language::Russian => "ВОЙТИ В ИГРУ",
            Language::Ukrainian => "УВІЙТИ В ГРУ",
        }
    }

    pub fn login_wetid_login(&self) -> (r: &'static str)
        ensures
            r@ == (match *self { Language::English => "Login or Email:"@, Language::Russian => "Логин или Email:"@, Language::Ukrainian => "Логін або Email:"@ }),
    {
        match self {
            Language::English => "Login or Email:",
            Language::Russian => "Логин или Email:",
            Language::Ukrainian => "Логін або Email:",
        }
    }

    pub fn login_wetid_pass(&self) -> (r: &'static str)
        ensures
            r@ == (match *self { Language::English => "Password:"@, Language::Russian => "Пароль:"@, Language::Ukrainian => "Пароль:"@ }),
    {
        match self {
            Language::English => "Password:",
            Language::Russian => "Пароль:",
            Language::Ukrainian => "Пароль:",
        }
    }

    pub fn login_btn_wetid(&self) -> (r: &'static str)
        ensures
            r@ == (match *self { Language::English => "SIGN IN VIA WETID"@, Language::Russian => "ВОЙТИ ЧЕРЕЗ WETID"@, Language::Ukrainian => "УВІЙТИ ЧЕРЕЗ WETID"@ }),
    {
        match self {
            Language::English => "SIGN IN VIA WETID",
            Language::Russian => "ВОЙТИ ЧЕРЕЗ WETID",
            Language::Ukrainian => "УВІЙТИ ЧЕРЕЗ WETID",
        }
    }

    pub fn login_ms_code_label(&self) -> (r: &'static str)
        ensures
            r@ == (match *self { Language::English => "Device code:"@, Language::Russian => "Код устройства:"@, Language::Ukrainian => "Код пристрою:"@ }),
    {
        match self {
            Language::English => "Device code:",
            Language::Russian => "Код устройства:",
            Language::Ukrainian => "Код пристрою:",
        }
    }

    pub fn login_ms_instructions(&self, url: &str) -> (r: String)
        ensures
            r@ == (match *self { Language::English => "Go to "@ + url@ + " and enter the code above:"@, Language::Russian => "Перейдите по ссылке "@ + url@ + " и введите код выше:"@, Language::Ukrainian => "Перейдіть за посиланням "@ + url@ + " та введіть код вище:"@ }),
    {
        match self {
            Language::English => text::concat3("Go to ", url, " and enter the code above:"),
            Language::Russian => text::concat3("Перейдите по ссылке ", url, " и введите код выше:"),
            Language::Ukrainian => text::concat3("Перейдіть за посиланням ", url, " та введіть код вище:"),
        }
    }

    pub fn login_btn_open_browser(&self) -> (r: &'static str)
        ensures
            r@ == (match *self { Language::English => "🔗 Open Browser"@, Language::Russian => "🔗 Открыть браузер"@, Language::Ukrainian => "🔗 Відкрити браузер"@ }),
    {
        match self {
            Language::English => "🔗 Open Browser",
            Language::Russian => "🔗 Открыть браузер",
            Language::Ukrainian => "🔗 Відкрити браузер",
        }
    }

    pub fn login_ms_waiting(&self) -> (r: &'static str)
        ensures
            r@ == (match *self { Language::English => "⏳ Waiting for login confirmation in browser..."@, Language::Russian => "⏳ Ожидание подтверждения входа в браузере..."@, Language::Ukrainian => "⏳ Очікування підтвердження входу в браузері..."@ }),
    {
        match self {
            Language::English => "⏳ Waiting for login confirmation in browser...",
            Language::Russian => "⏳ Ожидание подтверждения входа в браузере...",
            Language::Ukrainian => "⏳ Очікування підтвердження входу в браузері...",
        }
    }

    pub fn login_btn_get_code(&self) -> (r: &'static str)
        ensures
            r@ == (match *self { Language::English => "GET DEVICE LOGIN CODE"@, Language::Russian => "ПОЛУЧИТЬ КОД ДЛЯ ВХОДА"@, Language::Ukrainian => "ОТРИМАТИ КОД ДЛЯ ВХОДУ"@ }),
    {
        match self {
            Language::English => "GET DEVICE LOGIN CODE",
            Language::Russian => "ПОЛУЧИТЬ КОД ДЛЯ ВХОДА",
            Language::Ukrainian => "ОТРИМАТИ КОД ДЛЯ ВХОДУ",
        }
    }

    pub fn login_btn_cancel(&self) -> (r: &'static str)
        ensures
            r@ == (match *self { Language::English => "CANCEL"@, Language::Russian => "ОТМЕНА"@, Language::Ukrainian => "СКАСУВАТИ"@ }),
    {
        match self {
            Language::English => "CANCEL",
            Language::Russian => "ОТМЕНА",
            Language::Ukrainian => "СКАСУВАТИ",
        }
    }

    pub fn console_title(&self) -> (r: &'static str)
        ensures
            r@ == (match *self { Language::English => "Game Console (Process Logs)"@, Language::Russian => "Консоль игры (Логи процесса)"@, Language::Ukrainian => "Консоль гри (Логи процесу)"@ }),
    {
        match self {
            Language::English => "Game Console (Process Logs)",
            Language::Russian => "Консоль игры (Логи процесса)",
            Language::Ukrainian => "Консоль гри (Логи процесу)",
        }
    }

    pub fn console_filter_hint(&self) -> (r: &'static str)
        ensures
            r@ == (match *self { Language::English => "🔍 Filter logs..."@, Language::Russian => "🔍 Фильтр логов..."@, Language::Ukrainian => "🔍 Фільтр логів..."@ }),
    {
        match self {
            Language::English => "🔍 Filter logs...",
            Language::Russian => "🔍 Фильтр логов...",
            Language::Ukrainian => "🔍 Фільтр логів...",
        }
    }

    pub fn console_autoscroll(&self) -> (r: &'static str)
        ensures
            r@ == (match *self { Language::English => "Autoscroll down"@, Language::Russian => "Автоскролл вниз"@, Language::Ukrainian => "Автоскрол донизу"@ }),
    {
        match self {
            Language::English => "Autoscroll down",
            Language::Russian => "Автоскролл вниз",
            Language::Ukrainian => "Автоскрол донизу",
        }
    }

    pub fn console_copy(&self) -> (r: &'static str)
        ensures
            r@ == (match *self { Language::English => "📋 Copy"@, Language::Russian => "📋 Копировать"@, Language::Ukrainian => "📋 Копіювати"@ }),
    {
        match self {
            Language::English => "📋 Copy",
            Language::Russian => "📋 Копировать",
            Language::Ukrainian => "📋 Копіювати",
        }
    }

    pub fn console_clear(&self) -> (r: &'static str)
        ensures
            r@ == (match *self { Language::English => "🧹 Clear"@, Language::Russian => "🧹 Очистить"@, Language::Ukrainian => "🧹 Очистити"@ }),
    {
        match self {
            Language::English => "🧹 Clear",
            Language::Russian => "🧹 Очистить",
            Language::Ukrainian => "🧹 Очистити",
        }
    }

    pub fn console_export(&self) -> (r: &'static str)
        ensures
            r@ == (match *self { Language::English => "💾 Export"@, Language::Russian => "💾 Экспорт"@, Language::Ukrainian => "💾 Експорт"@ }),
    {
        match self {
            Language::English => "💾 Export",
            Language::Russian => "💾 Экспорт",
            Language::Ukrainian => "💾 Експорт",
        }
    }

    pub fn status_preparing(&self) -> (r: &'static str)
        ensures
            r@ == (match *self { Language::English => "Preparing launch..."@, Language::Russian => "Подготовка к запуску..."@, Language::Ukrainian => "Підготовка до запуску..."@ }),
    {
        match self {
            Language::English => "Preparing launch...",
            Language::Russian => "Подготовка к запуску...",
            Language::Ukrainian => "Підготовка до запуску...",
        }
    }

    pub fn status_preparing_version(&self, ver: &str) -> (r: String)
        ensures
            r@ == (match *self { Language::English => "Preparing version "@ + ver@ + "..."@, Language::Russian => "Подготовка версии "@ + ver@ + "..."@, Language::Ukrainian => "Підготовка версії "@ + ver@ + "..."@ }),
    {
        match self {
            Language::English => text::concat3("Preparing version ", ver, "..."),
            Language::Russian => text::concat3("Подготовка версии ", ver, "..."),
            Language::Ukrainian => text::concat3("Підготовка версії ", ver, "..."),
        }
    }

    pub fn status_checking_java(&self) -> (r: &'static str)
        ensures
            r@ == (match *self { Language::English => "Checking Java runtime..."@, Language::Russian => "Проверка Java..."@, Language::Ukrainian => "Перевірка середовища Java..."@ }),
    {
        match self {
            Language::English => "Checking Java runtime...",
            Language::Russian => "Проверка Java...",
            Language::Ukrainian => "Перевірка середовища Java...",
        }
    }

    pub fn status_downloading_java(&self, ver: u32) -> (r: String)
        ensures
            r@ == (match *self { Language::English => "Downloading Adoptium OpenJDK "@ + text::decimal(ver as nat) + "..."@, Language::Russian => "Загрузка Adoptium OpenJDK "@ + text::decimal(ver as nat) + "..."@, Language::Ukrainian => "Завантаження Adoptium OpenJDK "@ + text::decimal(ver as nat) + "..."@ }),
    {
        let ver_text = text::decimal_string(ver as u64);
        match self {
            Language::English => text::concat3("Downloading Adoptium OpenJDK ", ver_text.as_str(), "..."),
            Language::Russian => text::concat3("Загрузка Adoptium OpenJDK ", ver_text.as_str(), "..."),
            Language::Ukrainian => text::concat3("Завантаження Adoptium OpenJDK ", ver_text.as_str(), "..."),
        }
    }

    pub fn status_fetching_manifest(&self) -> (r: &'static str)
        ensures
            r@ == (match *self { Language::English => "Fetching version manifest..."@, Language::Russian => "Загрузка манифеста версии..."@, Language::Ukrainian => "Завантаження маніфесту версії..."@ }),
    {
        match self {
            Language::English => "Fetching version manifest...",
            Language::Russian => "Загрузка манифеста версии...",
            Language::Ukrainian => "Завантаження маніфесту версії...",
        }
    }

    pub fn status_checking_assets(&self) -> (r: &'static str)
        ensures
            r@ == (match *self { Language::English => "Verifying game assets..."@, Language::Russian => "Проверка ассетов игры..."@, Language::Ukrainian => "Перевірка асетів гри..."@ }),
    {
        match self {
            Language::English => "Verifying game assets...",
            Language::Russian => "Проверка ассетов игры...",
            Language::Ukrainian => "Перевірка асетів гри...",
        }
    }

    pub fn status_downloading_files(&self, count: usize) -> (r: String)
        ensures
            r@ == (match *self { Language::English => "Downloading "@ + text::decimal(count as nat) + " files..."@, Language::Russian => "Загрузка "@ + text::decimal(count as nat) + " файлов..."@, Language::Ukrainian => "Завантаження "@ + text::decimal(count as nat) + " файлів..."@ }),
    {
        let count_text = text::decimal_string(count as u64);
        match self {
            Language::English => text::concat3("Downloading ", count_text.as_str(), " files..."),
            Language::Russian => text::concat3("Загрузка ", count_text.as_str(), " файлов..."),
            Language::Ukrainian => text::concat3("Завантаження ", count_text.as_str(), " файлів..."),
        }
    }

    pub fn status_extracting_natives(&self) -> (r: &'static str)
        ensures
            r@ == (match *self { Language::English => "Extracting natives..."@, Language::Russian => "Распаковка natives..."@, Language::Ukrainian => "Розпакування natives..."@ }),
    {
        match self {
            Language::English => "Extracting natives...",
            Language::Russian => "Распаковка natives...",
            Language::Ukrainian => "Розпакування natives...",
        }
    }

    pub fn status_launching(&self) -> (r: &'static str)
        ensures
            r@ == (match *self { Language::English => "Launching Minecraft process..."@, Language::Russian => "Запуск процесса Minecraft..."@, Language::Ukrainian => "Запуск процесу Minecraft..."@ }),
    {
        match self {
            Language::English => "Launching Minecraft process...",
            Language::Russian => "Запуск процесса Minecraft...",
            Language::Ukrainian => "Запуск процесу Minecraft...",
        }
    }

    pub fn status_process_exited(&self, code: Option<i32>) -> (r: String)
        ensures
            r@ == (match *self { Language::English => "Minecraft process exited with code "@ + debug_option_i32(code), Language::Russian => "Процесс Minecraft завершен с кодом "@ + debug_option_i32(code), Language::Ukrainian => "Процес Minecraft завершився з кодом "@ + debug_option_i32(code) }),
    {
        let code_text = debug_option_i32_string(code);
        match self {
            Language::English => text::concat2("Minecraft process exited with code ", code_text.as_str()),
            Language::Russian => text::concat2("Процесс Minecraft завершен с кодом ", code_text.as_str()),
            Language::Ukrainian => text::concat2("Процес Minecraft завершився з кодом ", code_text.as_str()),
        }
    }

    pub fn status_process_crashed(&self, msg: &str) -> (r: String)
        ensures
            r@ == (match *self { Language::English => "Minecraft process error: "@ + msg@, Language::Russian => "Ошибка процесса Minecraft: "@ + msg@, Language::Ukrainian => "Помилка процесу Minecraft: "@ + msg@ }),
    {
        match self {
            Language::English => text::concat2("Minecraft process error: ", msg),
            Language::Russian => text::concat2("Ошибка процесса Minecraft: ", msg),
            Language::Ukrainian => text::concat2("Помилка процесу Minecraft: ", msg),
        }
    }
}

} // verus!
