//! Mod resolution, key staging and launch preparation for a dedicated game server.
pub mod error;
pub mod text;
pub mod paths;
pub mod modlist;
pub mod keys;
pub mod staging;
pub mod launch;
pub mod server_config;
pub mod config;
pub mod cli;
pub mod messages;
pub mod ui;

pub use modlist::ServerModList;
pub use config::Config;
pub use cli::Cli;
pub use ui::app::App;
