//! The frame around the pages: the side navigation, the bottom bar with the
//! player and the play button, the title bar, the download window, and what
//! the launcher does when the play button is pressed or the game reports.

use vstd::prelude::*;
use crate::auth::{AccountType, AuthSession};
use crate::launch::GameEvent;
use crate::text;

verus! {

/// The page that is shown.
#[derive(Debug, Clone, Copy, PartialEq, Eq, Structural)]
pub enum NavTab {
    Home,
    Modpacks,
    Mods,
    Skins,
    Settings,
}

impl Default for NavTab {
    fn default() -> (r: Self)
        ensures
            r == NavTab::Home,
    {
        NavTab::Home
    }
}

/// The side navigation.
pub struct Sidebar;

/// An entry of the side navigation.
#[derive(Debug, Clone, Copy, PartialEq, Eq, Structural)]
pub enum NavItem {
    Page(NavTab),
    Exit,
}

impl Sidebar {
    /// The page after an entry is clicked, and whether the launcher is to
    /// close.
    pub fn clicked(current: NavTab, item: NavItem) -> (r: (NavTab, bool))
        ensures
            r == (match item {
                NavItem::Page(t) => (t, false),
                NavItem::Exit => (current, true),
            }),
    {
        match item {
            NavItem::Page(t) => (t, false),
            NavItem::Exit => (current, true),
        }
    }
}

/// What was clicked in the bottom bar.
#[derive(Debug, Clone, Copy, PartialEq, Eq, Structural)]
pub struct BottomBarResponse {
    pub login_clicked: bool,
    pub launch_clicked: bool,
    pub options_clicked: bool,
}

impl Default for BottomBarResponse {
    fn default() -> (r: Self)
        ensures
            !r.login_clicked && !r.launch_clicked && !r.options_clicked,
    {
        BottomBarResponse { login_clicked: false, launch_clicked: false, options_clicked: false }
    }
}

/// The bottom bar.
pub struct BottomBar;

/// The two lines shown for the player: name and account kind, or an
/// invitation to sign in.
pub open spec fn player_lines(account: Option<(Seq<char>, AccountType)>) -> (Seq<char>, Seq<char>) {
    match account {
        Some((name, kind)) => (
            name,
            match kind {
                AccountType::Microsoft => "Microsoft License"@,
                AccountType::WetId => "WetID AlephTrust"@,
                AccountType::Offline => "Offline Free"@,
            },
        ),
        None => ("Не авторизован"@, "Войдите для игры"@),
    }
}

impl BottomBar {
    /// The two lines shown for the signed-in player, if any.
    pub fn player_text(username: Option<&str>, kind: AccountType) -> (r: (String, String))
        ensures
            (r.0@, r.1@) == player_lines(
                match username {
                    Some(n) => Some((n@, kind)),
                    None => None,
                },
            ),
    {
        match username {
            Some(n) => {
                let sub = match kind {
                    AccountType::Microsoft => "Microsoft License",
                    AccountType::WetId => "WetID AlephTrust",
                    AccountType::Offline => "Offline Free",
                };
                (text::owned(n), text::owned(sub))
            },
            None => (text::owned("Не авторизован"), text::owned("Войдите для игры")),
        }
    }

    /// The play button's text.
    pub fn play_text(is_launching: bool) -> (r: &'static str)
        ensures
            r@ == (if is_launching {
                "ЗАПУСК..."@
            } else {
                "▶  ИГРАТЬ"@
            }),
    {
        if is_launching {
            "ЗАПУСК..."
        } else {
            "▶  ИГРАТЬ"
        }
    }

    /// What the clicks in the bar amount to: a click on play counts only
    /// while no launch is under way.
    pub fn response(login: bool, play: bool, options: bool, is_launching: bool) -> (r:
        BottomBarResponse)
        ensures
            r.login_clicked == login,
            r.launch_clicked == (play && !is_launching),
            r.options_clicked == options,
    {
        BottomBarResponse { login_clicked: login, launch_clicked: play && !is_launching, options_clicked: options }
    }
}

/// The title bar.
pub struct TitleBar;

/// A button of the title bar.
#[derive(Debug, Clone, Copy, PartialEq, Eq, Structural)]
pub enum WindowButton {
    Close,
    Maximize,
    Minimize,
}

/// What the window is asked to do.
#[derive(Debug, Clone, Copy, PartialEq, Eq, Structural)]
pub enum WindowCommand {
    Close,
    SetMaximized(bool),
    Minimize,
}

impl TitleBar {
    /// The command of a title bar button, given whether the window is
    /// maximized.
    pub fn command(button: WindowButton, is_maximized: bool) -> (r: WindowCommand)
        ensures
            r == (match button {
                WindowButton::Close => WindowCommand::Close,
                WindowButton::Maximize => WindowCommand::SetMaximized(!is_maximized),
                WindowButton::Minimize => WindowCommand::Minimize,
            }),
    {
        match button {
            WindowButton::Close => WindowCommand::Close,
            WindowButton::Maximize => WindowCommand::SetMaximized(!is_maximized),
            WindowButton::Minimize => WindowCommand::Minimize,
        }
    }
}

/// The download window.
pub struct DownloadOverlay;

impl DownloadOverlay {
    /// The line naming the file being fetched; none while no file is named.
    pub fn file_line(current_file: &str) -> (r: Option<String>)
        ensures
            current_file@.len() == 0 ==> r is None,
            current_file@.len() > 0 ==> (r matches Some(l) && l@ == "Файл: "@ + current_file@),
    {
        if current_file.is_empty() {
            None
        } else {
            Some(text::concat2("Файл: ", current_file))
        }
    }
}

/// What pressing play leads to.
#[derive(Debug, Clone)]
pub enum LaunchDecision {
    /// Nobody is signed in: the sign-in window opens.
    OpenLogin,
    /// Start this version for this player.
    Launch { version: String, session: AuthSession },
}

/// What pressing play leads to: without a session the sign-in window; else
/// a launch of the selected version (`1.20.1` when none is selected).
pub fn launch_decision(session: Option<AuthSession>, selected_version: &Option<String>) -> (r:
    LaunchDecision)
    ensures
        session is None ==> r is OpenLogin,
        session matches Some(s) ==> (r matches LaunchDecision::Launch { version, session: t } && t
            == s && version@ == (match selected_version {
            Some(v) => v@,
            None => "1.20.1"@,
        })),
{
    match session {
        None => LaunchDecision::OpenLogin,
        Some(s) => {
            let version = match selected_version {
                Some(v) => text::owned(v.as_str()),
                None => text::owned("1.20.1"),
            };
            LaunchDecision::Launch { version, session: s }
        },
    }
}

/// The launcher's state after an event of the running game: whether a
/// launch is still under way, and whether the launcher window closes.
pub fn after_game_event(is_launching: bool, close_after_launch: bool, event: &GameEvent) -> (r: (
    bool,
    bool,
))
    ensures
        r == (match event {
            GameEvent::Started { .. } => (false, close_after_launch),
            GameEvent::LogLine(_) => (is_launching, false),
            GameEvent::Exited { .. } => (false, false),
            GameEvent::Crashed { .. } => (false, false),
        }),
{
    match event {
        GameEvent::Started { .. } => (false, close_after_launch),
        GameEvent::LogLine(_) => (is_launching, false),
        GameEvent::Exited { .. } => (false, false),
        GameEvent::Crashed { .. } => (false, false),
    }
}

} // verus!
