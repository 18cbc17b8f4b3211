//! The launcher's error type.

use vstd::prelude::*;
use crate::text;

verus! {

/// Every failure the launcher reports. Messages of the operating system and
/// of the JSON decoder are carried as text.
#[derive(Debug, Clone)]
pub enum LauncherError {
    Io { path: String, message: String },
    IoRaw(String),
    Json(String),
    Network(String),
    Auth(String),
    Version(String),
    Loader(String),
    ChecksumMismatch { file: String, expected: String, actual: String },
    Java(String),
    Instance(String),
    Config(String),
    Launch(String),
    Custom(String),
}

/// The message an error is shown with.
pub open spec fn error_message(e: LauncherError) -> Seq<char> {
    match e {
        LauncherError::Io { path, message } => "IO error at "@ + path@ + ": "@ + message@,
        LauncherError::IoRaw(m) => "IO error: "@ + m@,
        LauncherError::Json(m) => "Serialization / JSON error: "@ + m@,
        LauncherError::Network(m) => "Network request error: "@ + m@,
        LauncherError::Auth(m) => "Authentication error: "@ + m@,
        LauncherError::Version(m) => "Version error: "@ + m@,
        LauncherError::Loader(m) => "Loader error: "@ + m@,
        LauncherError::ChecksumMismatch { file, expected, actual } => "Download integrity check failed for "@
            + file@ + ": expected sha1 "@ + expected@ + ", calculated "@ + actual@,
        LauncherError::Java(m) => "Java runtime error: "@ + m@,
        LauncherError::Instance(m) => "Instance error: "@ + m@,
        LauncherError::Config(m) => "Configuration error: "@ + m@,
        LauncherError::Launch(m) => "Process launch error: "@ + m@,
        LauncherError::Custom(m) => m@,
    }
}

impl LauncherError {
    /// The message the error is shown with.
    pub fn to_message(&self) -> (r: String)
        ensures
            r@ == error_message(*self),
    {
        proof {
            reveal_strlit("IO error at ");
            reveal_strlit(": ");
            reveal_strlit("IO error: ");
            reveal_strlit("Serialization / JSON error: ");
            reveal_strlit("Network request error: ");
            reveal_strlit("Authentication error: ");
            reveal_strlit("Version error: ");
            reveal_strlit("Loader error: ");
            reveal_strlit("Download integrity check failed for ");
            reveal_strlit(": expected sha1 ");
            reveal_strlit(", calculated ");
            reveal_strlit("Java runtime error: ");
            reveal_strlit("Instance error: ");
            reveal_strlit("Configuration error: ");
            reveal_strlit("Process launch error: ");
        }
        match self {
            LauncherError::Io { path, message } => {
                let mut s = text::concat2("IO error at ", path.as_str());
                s.append(": ");
                s.append(message.as_str());
                s
            },
            LauncherError::IoRaw(m) => text::concat2("IO error: ", m.as_str()),
            LauncherError::Json(m) => text::concat2("Serialization / JSON error: ", m.as_str()),
            LauncherError::Network(m) => text::concat2("Network request error: ", m.as_str()),
            LauncherError::Auth(m) => text::concat2("Authentication error: ", m.as_str()),
            LauncherError::Version(m) => text::concat2("Version error: ", m.as_str()),
            LauncherError::Loader(m) => text::concat2("Loader error: ", m.as_str()),
            LauncherError::ChecksumMismatch { file, expected, actual } => {
                let mut s = text::concat2("Download integrity check failed for ", file.as_str());
                s.append(": expected sha1 ");
                s.append(expected.as_str());
                s.append(", calculated ");
                s.append(actual.as_str());
                s
            },
            LauncherError::Java(m) => text::concat2("Java runtime error: ", m.as_str()),
            LauncherError::Instance(m) => text::concat2("Instance error: ", m.as_str()),
            LauncherError::Config(m) => text::concat2("Configuration error: ", m.as_str()),
            LauncherError::Launch(m) => text::concat2("Process launch error: ", m.as_str()),
            LauncherError::Custom(m) => text::owned(m.as_str()),
        }
    }
}

} // verus!
