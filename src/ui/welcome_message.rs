//! The settings form, shown while the settings are incomplete.
use vstd::prelude::*;
use crate::config::{Config, LocationPaths};

verus! {

/// The paths entered in the form so far.
#[derive(Debug, Default)]
pub struct WelcomeView {
    pub a3_root: String,
    pub modlists: String,
    pub clientsides: String,
    pub servermods: String,
}

/// What the form asks for.
#[derive(Clone, Debug)]
pub enum Message {
    /// Pick a directory for this setting.
    ConfigOpenFileDialog(LocationPaths),
    /// Save the server root and the three mod-list directories.
    SaveUpdateConfig(String, String, String, String),
    /// The settings changed: load what depends on them again.
    ReloadViews(),
    /// Something failed; the text says what.
    Error(String),
}

impl WelcomeView {
    /// The form, filled with the current settings.
    pub fn new(config: &Config) -> (r: WelcomeView)
        ensures
            r.a3_root == config.a3_root,
            r.modlists == config.folder_modlists,
            r.clientsides == config.folder_clientside,
            r.servermods == config.folder_servermods,
    {
        WelcomeView {
            a3_root: config.a3_root.clone(),
            modlists: config.folder_modlists.clone(),
            clientsides: config.folder_clientside.clone(),
            servermods: config.folder_servermods.clone(),
        }
    }

    /// Puts `path` in the field that `location` names; the others stay.
    pub fn set_path(&mut self, location: LocationPaths, path: String)
        ensures
            final(self).a3_root == if location == LocationPaths::A3Root { path } else { old(self).a3_root },
            final(self).modlists == if location == LocationPaths::Modlists { path } else { old(self).modlists },
            final(self).clientsides == if location == LocationPaths::Clientsides { path } else { old(self).clientsides },
            final(self).servermods == if location == LocationPaths::ServerMods { path } else { old(self).servermods },
    {
        match location {
            LocationPaths::A3Root => self.a3_root = path,
            LocationPaths::Modlists => self.modlists = path,
            LocationPaths::Clientsides => self.clientsides = path,
            LocationPaths::ServerMods => self.servermods = path,
        }
    }

    /// The message that saves the form.
    pub fn save_message(&self) -> (r: Message)
        ensures
            r matches Message::SaveUpdateConfig(a, b, c, d) && a == self.a3_root && b == self.modlists
                && c == self.clientsides && d == self.servermods,
    {
        Message::SaveUpdateConfig(
            self.a3_root.clone(),
            self.modlists.clone(),
            self.clientsides.clone(),
            self.servermods.clone(),
        )
    }
}

} // verus!
