//! Verified core of the Aleph Minecraft launcher: localisation, accounts,
//! paths, download planning, version metadata, argument building, the server
//! list ping protocol, mod metadata and the launcher's view logic.

pub mod text;
pub mod error;
pub mod server;
pub mod i18n;
pub mod paths;
pub mod ids;
pub mod types;
pub mod rules;
pub mod download;
pub mod version;
pub mod auth;
pub mod args;
pub mod assets;
pub mod manifest;
pub mod loaders;
pub mod java;
pub mod launch;
pub mod mods;
pub mod modrinth;
pub mod curseforge;
pub mod skins;
pub mod console;
pub mod home;
pub mod login;
pub mod mods_page;
pub mod settings;
pub mod widgets;
pub mod instances_page;
