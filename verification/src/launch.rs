//! Starting the game: the command line of a launch and the events a running
//! game reports (its start, each output line, how it ended).

use vstd::prelude::*;
use crate::args::{self, ArgumentBuilder};
use crate::auth::AuthSession;
use crate::error::LauncherError;
use crate::rules::Platform;
use crate::text;
use crate::types::LaunchOptions;
use crate::version::VersionDetails;

verus! {

/// What a running game reports.
#[derive(Debug, Clone)]
pub enum GameEvent {
    Started { pid: u32 },
    LogLine(String),
    Exited { code: Option<i32> },
    Crashed { message: String },
}

/// The `Debug` text of an optional exit code.
pub open spec fn exit_code_text(code: Option<i32>) -> Seq<char> {
    match code {
        Some(c) => "Some("@ + text::signed_decimal(c as int) + ")"@,
        None => "None"@,
    }
}

impl GameEvent {
    /// A line the game wrote to its error stream.
    pub fn error_line(line: &str) -> (r: GameEvent)
        ensures
            r matches GameEvent::LogLine(l) && l@ == "[ERROR] "@ + line@,
    {
        proof {
            reveal_strlit("[ERROR] ");
        }
        GameEvent::LogLine(text::concat2("[ERROR] ", line))
    }

    /// How the game ended: a successful exit keeps its code, any other exit
    /// is a crash.
    pub fn from_exit(success: bool, code: Option<i32>) -> (r: GameEvent)
        ensures
            success ==> r == (GameEvent::Exited { code }),
            !success ==> (r matches GameEvent::Crashed { message } && message@
                == "Process exited with status "@ + exit_code_text(code)),
    {
        if success {
            return GameEvent::Exited { code };
        }
        proof {
            reveal_strlit("Process exited with status ");
            reveal_strlit("Some(");
            reveal_strlit(")");
            reveal_strlit("None");
        }
        let mut m = text::owned("Process exited with status ");
        match code {
            Some(c) => {
                m.append("Some(");
                let d = text::signed_decimal_string(c as i64);
                m.append(d.as_str());
                m.append(")");
            },
            None => {
                m.append("None");
            },
        }
        GameEvent::Crashed { message: m }
    }

    /// Waiting for the game failed.
    pub fn wait_failed(reason: &str) -> (r: GameEvent)
        ensures
            r matches GameEvent::Crashed { message } && message@ == "Process wait error: "@ + reason@,
    {
        proof {
            reveal_strlit("Process wait error: ");
        }
        GameEvent::Crashed { message: text::concat2("Process wait error: ", reason) }
    }
}

/// The whole command line after the Java binary.
pub open spec fn command_args(
    options: LaunchOptions,
    game_dir: Seq<char>,
    assets_dir: Seq<char>,
    natives_dir: Seq<char>,
    classpath: Seq<char>,
    details: VersionDetails,
    session: AuthSession,
    platform: Platform,
) -> Seq<Seq<char>> {
    args::jvm_args(options, natives_dir, classpath, details, seq![], platform) + seq![
        details.main_class@,
    ] + args::game_args(options, game_dir, assets_dir, details, session, seq![], platform)
}

pub struct MinecraftLauncher;

impl MinecraftLauncher {
    /// The error when the Java binary is not there.
    pub fn missing_java(java_bin: &str) -> (r: LauncherError)
        ensures
            r matches LauncherError::Java(m) && m@ == "Java binary not found at "@ + java_bin@,
    {
        proof {
            reveal_strlit("Java binary not found at ");
        }
        LauncherError::Java(text::concat2("Java binary not found at ", java_bin))
    }

    /// The error when the game process could not be started.
    pub fn spawn_failed(reason: &str) -> (r: LauncherError)
        ensures
            r matches LauncherError::Launch(m) && m@ == "Failed to spawn Minecraft: "@ + reason@,
    {
        proof {
            reveal_strlit("Failed to spawn Minecraft: ");
        }
        LauncherError::Launch(text::concat2("Failed to spawn Minecraft: ", reason))
    }

    /// The arguments the Java binary is started with: the JVM arguments, the
    /// main class, then the game arguments, with no launcher feature set.
    /// Each library comes with whether its jar is present on disk; the
    /// missing ones are left off the class path.
    pub fn command_line(
        game_dir: &str,
        assets_dir: &str,
        natives_dir: &str,
        libraries: &Vec<(String, bool)>,
        client_jar: &str,
        details: &VersionDetails,
        session: &AuthSession,
        options: &LaunchOptions,
        platform: Platform,
    ) -> (r: Vec<String>)
        ensures
            args::texts(r@) == command_args(
                *options,
                game_dir@,
                assets_dir@,
                natives_dir@,
                args::classpath_text(
                    args::present_libraries(libraries@).push(client_jar@),
                    args::cp_separator(platform.os),
                ),
                *details,
                *session,
                platform,
            ),
    {
        let features: Vec<(String, bool)> = Vec::new();
        let classpath = ArgumentBuilder::build_classpath(libraries, client_jar, platform);
        let mut out = ArgumentBuilder::build_jvm_args(
            options,
            natives_dir,
            classpath.as_str(),
            details,
            &features,
            platform,
        );
        let ghost jvm = args::texts(out@);
        out.push(text::owned(details.main_class.as_str()));
        let mut game = ArgumentBuilder::build_game_args(
            options,
            game_dir,
            assets_dir,
            details,
            session,
            &features,
            platform,
        );
        let ghost gv = game@;
        assert(features@ =~= Seq::<(String, bool)>::empty());
        let ghost head = out@;
        out.append(&mut game);
        assert(out@ =~= head + gv);
        assert(args::texts(out@) =~= jvm + seq![details.main_class@] + args::texts(gv));
        out
    }
}

} // verus!
