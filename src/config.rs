//! The launcher's settings: where the server and the mod lists live, and the
//! server profiles to choose from.
use vstd::prelude::*;
use crate::paths::{joined, join_path};
use crate::text::views;

verus! {

/// Which of the configured directories a path is picked for.
#[derive(Clone, Copy, Debug, PartialEq, Eq, Structural)]
pub enum LocationPaths {
    A3Root,
    Modlists,
    Clientsides,
    ServerMods,
}

/// The launcher's settings.
#[derive(Debug)]
pub struct Config {
    /// The server's root directory.
    pub a3_root: String,
    /// The server executable.
    pub a3_server_executable: String,
    /// Where the shared mod lists are.
    pub folder_modlists: String,
    /// Where the client-side mod lists are.
    pub folder_clientside: String,
    /// Where the server-side mod lists are.
    pub folder_servermods: String,
    /// The server profiles that the operator can choose from.
    pub server_profiles: Vec<String>,
}

/// Whether every path of `c` is set.
pub open spec fn config_valid(c: Config) -> bool {
    c.a3_root@.len() > 0 && c.a3_server_executable@.len() > 0 && c.folder_modlists@.len() > 0
        && c.folder_clientside@.len() > 0 && c.folder_servermods@.len() > 0
}

impl Default for Config {
    /// No paths set, and the one profile `ServerNormal`.
    fn default() -> (r: Config)
        ensures
            r.a3_root@.len() == 0,
            r.a3_server_executable@.len() == 0,
            r.folder_modlists@.len() == 0,
            r.folder_clientside@.len() == 0,
            r.folder_servermods@.len() == 0,
            views(r.server_profiles@) == seq!["ServerNormal"@],
    {
        let mut server_profiles: Vec<String> = Vec::new();
        server_profiles.push(String::from_str("ServerNormal"));
        assert(views(server_profiles@) =~= seq!["ServerNormal"@]);
        Config {
            a3_root: String::new(),
            a3_server_executable: String::new(),
            folder_modlists: String::new(),
            folder_clientside: String::new(),
            folder_servermods: String::new(),
            server_profiles,
        }
    }
}

impl Config {
    /// Whether every path is set, so that the mod lists can be loaded and the server run.
    pub fn is_config_valid(&self) -> (r: bool)
        ensures
            r == config_valid(*self),
    {
        self.a3_root.as_str().unicode_len() > 0
            && self.a3_server_executable.as_str().unicode_len() > 0
            && self.folder_modlists.as_str().unicode_len() > 0
            && self.folder_clientside.as_str().unicode_len() > 0
            && self.folder_servermods.as_str().unicode_len() > 0
    }

    /// Sets the server root and the three mod-list directories; the executable is
    /// `binary_name` under the new root. The profiles stay.
    pub fn update_config(
        &mut self,
        a3_root: String,
        folder_modlists: String,
        folder_clientside: String,
        folder_servermods: String,
        binary_name: &str,
    )
        ensures
            final(self).a3_root == a3_root,
            final(self).a3_server_executable@ == joined(a3_root@, binary_name@),
            final(self).folder_modlists == folder_modlists,
            final(self).folder_clientside == folder_clientside,
            final(self).folder_servermods == folder_servermods,
            final(self).server_profiles == old(self).server_profiles,
    {
        self.a3_server_executable = join_path(a3_root.as_str(), binary_name);
        self.a3_root = a3_root;
        self.folder_modlists = folder_modlists;
        self.folder_clientside = folder_clientside;
        self.folder_servermods = folder_servermods;
    }
}

} // verus!
