//! The whole state of the launcher's window.
use vstd::prelude::*;
use crate::cli::Cli;
use crate::config::{Config, config_valid};
use crate::modlist::ServerModList;
use crate::config::LocationPaths;
use crate::messages::Message;
use crate::text::views;
use crate::ui::errors::Errors;
use crate::ui::number_input::{self, NumberInput};
use crate::ui::profile_chooser::ProfileChooser;
use crate::ui::selection_listbox::{self, SelectionListbox, selected_mods_of};
use crate::ui::welcome_message::{self, WelcomeView};

verus! {

/// The state of the launcher's window.
#[derive(Debug)]
pub struct App {
    /// The settings.
    pub config: Config,
    /// Errors to show.
    pub errors: Errors,
    /// The options the launcher was started with.
    pub cli: Cli,
    /// The port of the server and of the headless clients.
    pub port_num: String,
    /// The shared, client-side and server-side mod lists, in that order.
    pub selection_listboxes: Vec<SelectionListbox>,
    /// How many headless clients to start.
    pub hc_launch_num: NumberInput,
    /// The server profile.
    pub server_profile_chooser: ProfileChooser,
    /// The settings form.
    pub welcome_view: WelcomeView,
}

/// Work that an event leaves to be done outside the window's state.
#[derive(Debug)]
pub enum Action {
    /// Nothing.
    Nothing,
    /// Start the server with these mods, profile and port.
    LaunchServer {
        modlist: Vec<String>,
        clientsides: Vec<String>,
        server_mods: Vec<String>,
        profile: String,
        port: String,
    },
    /// Start this many headless clients, numbered from 0, on this port.
    LaunchHeadless { count: u64, port: String },
    /// Let the operator pick a directory for this setting.
    PickFolder(LocationPaths),
    /// Save these paths as the server root and the three mod-list directories.
    SaveConfig(String, String, String, String),
    /// Load the mod lists of the configured directories again.
    ReloadLists,
}

/// The mods of the picked lists of list box `i` of `app`.
pub open spec fn picked(app: App, i: int) -> Seq<Seq<char>> {
    selected_mods_of(app.selection_listboxes[i].elements@)
}

impl App {
    /// The window holds its three list boxes.
    pub open spec fn wf(&self) -> bool {
        self.selection_listboxes.len() == 3
    }

    /// Shows the mod lists `modpacks`, `clientside` and `servermod` in the three list boxes.
    pub fn set_lists(
        &mut self,
        modpacks: Vec<ServerModList>,
        clientside: Vec<ServerModList>,
        servermod: Vec<ServerModList>,
    )
        requires
            old(self).wf(),
        ensures
            final(self).wf(),
            final(self).selection_listboxes[0].elements == modpacks,
            final(self).selection_listboxes[1].elements == clientside,
            final(self).selection_listboxes[2].elements == servermod,
            forall|i: int| 0 <= i < 3 ==> (#[trigger] final(self).selection_listboxes[i]).id
                == old(self).selection_listboxes[i].id && final(self).selection_listboxes[i].title
                == old(self).selection_listboxes[i].title,
            final(self).config == old(self).config,
            final(self).port_num == old(self).port_num,
    {
        self.replace_elements(0, modpacks);
        self.replace_elements(1, clientside);
        self.replace_elements(2, servermod);
    }

    fn replace_elements(&mut self, i: usize, elements: Vec<ServerModList>)
        requires
            old(self).wf(),
            i < 3,
        ensures
            final(self).wf(),
            final(self).selection_listboxes[i as int].elements == elements,
            final(self).selection_listboxes[i as int].id == old(self).selection_listboxes[i as int].id,
            final(self).selection_listboxes[i as int].title == old(self).selection_listboxes[i as int].title,
            forall|j: int| 0 <= j < 3 && j != i ==> #[trigger] final(self).selection_listboxes[j]
                == old(self).selection_listboxes[j],
            final(self).config == old(self).config,
            final(self).port_num == old(self).port_num,
    {
        let mut lb = self.selection_listboxes.remove(i);
        lb.elements = elements;
        self.selection_listboxes.insert(i, lb);
    }

    /// Handles the event `message`: changes the state as it says, and hands back the
    /// work it leaves to be done outside.
    ///
    /// A step of the headless-client counter past its bounds is ignored, and a
    /// server launch with no profile chosen is an error shown to the operator.
    pub fn update(&mut self, message: Message) -> (r: Action)
        requires
            old(self).wf(),
        ensures
            final(self).wf(),
            final(self).config == old(self).config,
            match message {
                Message::NoOp => r is Nothing && *final(self) == *old(self),
                Message::Error(err) => {
                    &&& r is Nothing
                    &&& final(self).errors.errors.len() == old(self).errors.errors.len() + 1
                    &&& final(self).errors.errors@.last().message == err
                },
                Message::SelectionBoxUpdate(i, selection_listbox::Message::ToggleSelection(e, checked)) => {
                    &&& r is Nothing
                    &&& forall|j: int| 0 <= j < 3 && j != i ==> #[trigger] final(self).selection_listboxes[j]
                        == old(self).selection_listboxes[j]
                    &&& i < 3 ==> {
                        let (a, b) = (old(self).selection_listboxes[i as int], final(self).selection_listboxes[i as int]);
                        &&& b.elements.len() == a.elements.len()
                        &&& e < a.elements.len() ==> b.elements[e as int].selected == checked
                        &&& forall|k: int| 0 <= k < a.elements.len() && k != e ==> (#[trigger] b.elements[k]).selected
                            == a.elements[k].selected
                    }
                },
                Message::HcInputChanged(number_input::Message::ValueIncreased()) => {
                    &&& r is Nothing
                    &&& final(self).hc_launch_num.value == if old(self).hc_launch_num.value < u64::MAX {
                        old(self).hc_launch_num.value + 1
                    } else {
                        old(self).hc_launch_num.value as int
                    }
                },
                Message::HcInputChanged(number_input::Message::ValueDecreased()) => {
                    &&& r is Nothing
                    &&& final(self).hc_launch_num.value == if old(self).hc_launch_num.value > 0 {
                        old(self).hc_launch_num.value - 1
                    } else {
                        old(self).hc_launch_num.value as int
                    }
                },
                Message::ServerProfileChanged(crate::ui::profile_chooser::Message::ProfileSelected(p)) => {
                    r is Nothing && final(self).server_profile_chooser.selected == Some(p)
                },
                Message::WelcomeViewMessage(welcome_message::Message::ConfigOpenFileDialog(loc)) => {
                    r == Action::PickFolder(loc)
                },
                Message::WelcomeViewMessage(welcome_message::Message::SaveUpdateConfig(a, b, c, d)) => {
                    r == Action::SaveConfig(a, b, c, d)
                },
                Message::WelcomeViewMessage(welcome_message::Message::ReloadViews()) => r is ReloadLists,
                Message::WelcomeViewMessage(welcome_message::Message::Error(_)) => r is Nothing,
                Message::ChangePortNumber(p) => r is Nothing && final(self).port_num == p,
                Message::LaunchServer() => match old(self).server_profile_chooser.selected {
                    Some(profile) => {
                        &&& *final(self) == *old(self)
                        &&& r matches Action::LaunchServer { modlist, clientsides, server_mods, profile: chosen, port }
                            && views(modlist@) == picked(*old(self), 0)
                            && views(clientsides@) == picked(*old(self), 1)
                            && views(server_mods@) == picked(*old(self), 2)
                            && chosen == profile
                            && port == old(self).port_num
                    },
                    None => {
                        &&& r is Nothing
                        &&& final(self).errors.errors.len() == old(self).errors.errors.len() + 1
                    },
                },
                Message::LaunchHCs() => {
                    &&& *final(self) == *old(self)
                    &&& r == Action::LaunchHeadless { count: old(self).hc_launch_num.value, port: old(self).port_num }
                },
                Message::ClearErrors() => r is Nothing && final(self).errors.errors.len() == 0,
            },
    {
        match message {
            Message::NoOp => Action::Nothing,
            Message::Error(err) => {
                self.errors.push(err);
                Action::Nothing
            },
            Message::SelectionBoxUpdate(index, listbox_msg) => {
                if index < self.selection_listboxes.len() {
                    let mut lb = self.selection_listboxes.remove(index);
                    lb.update(listbox_msg);
                    self.selection_listboxes.insert(index, lb);
                }
                Action::Nothing
            },
            Message::HcInputChanged(msg) => {
                let allowed = match msg {
                    number_input::Message::ValueIncreased() => self.hc_launch_num.value < u64::MAX,
                    number_input::Message::ValueDecreased() => self.hc_launch_num.value > 0,
                };
                if allowed {
                    self.hc_launch_num.update(msg);
                }
                Action::Nothing
            },
            Message::ServerProfileChanged(msg) => {
                self.server_profile_chooser.update(msg);
                Action::Nothing
            },
            Message::WelcomeViewMessage(msg) => match msg {
                welcome_message::Message::ConfigOpenFileDialog(loc) => Action::PickFolder(loc),
                welcome_message::Message::SaveUpdateConfig(a, b, c, d) => Action::SaveConfig(a, b, c, d),
                welcome_message::Message::ReloadViews() => Action::ReloadLists,
                welcome_message::Message::Error(_) => Action::Nothing,
            },
            Message::ChangePortNumber(new_port) => {
                self.port_num = new_port;
                Action::Nothing
            },
            Message::LaunchServer() => {
                if self.server_profile_chooser.selected.is_none() {
                    self.errors.push(String::from_str("No selected profile"));
                    return Action::Nothing;
                }
                let profile = self.server_profile_chooser.get_selected_profile();
                let modlist = self.selection_listboxes[0].selected_mods();
                let clientsides = self.selection_listboxes[1].selected_mods();
                let server_mods = self.selection_listboxes[2].selected_mods();
                Action::LaunchServer { modlist, clientsides, server_mods, profile, port: self.port_num.clone() }
            },
            Message::LaunchHCs() => {
                Action::LaunchHeadless { count: self.hc_launch_num.value, port: self.port_num.clone() }
            },
            Message::ClearErrors() => {
                self.errors.clear();
                Action::Nothing
            },
        }
    }

    /// The window's first state. The mod lists `modpacks`, `clientside` and
    /// `servermod` are shown where the settings are complete, none otherwise.
    pub fn new(
        cli: Cli,
        config: Config,
        modpacks: Vec<ServerModList>,
        clientside: Vec<ServerModList>,
        servermod: Vec<ServerModList>,
    ) -> (r: App)
        ensures
            r.port_num@ == "2302"@,
            r.errors.errors.len() == 0,
            r.hc_launch_num.value == 0,
            r.wf(),
            r.selection_listboxes[0].id == 0,
            r.selection_listboxes[1].id == 1,
            r.selection_listboxes[2].id == 2,
            r.selection_listboxes[0].title@ == "Modpacks"@,
            r.selection_listboxes[1].title@ == "Clientside"@,
            r.selection_listboxes[2].title@ == "Server mods"@,
            config_valid(config) ==> {
                &&& r.selection_listboxes[0].elements == modpacks
                &&& r.selection_listboxes[1].elements == clientside
                &&& r.selection_listboxes[2].elements == servermod
            },
            !config_valid(config) ==> {
                &&& r.selection_listboxes[0].elements.len() == 0
                &&& r.selection_listboxes[1].elements.len() == 0
                &&& r.selection_listboxes[2].elements.len() == 0
            },
            r.server_profile_chooser.options@ == config.server_profiles@,
            r.welcome_view.a3_root == config.a3_root,
            r.config == config,
            r.cli == cli,
    {
        let valid = config.is_config_valid();
        let (modpacks, clientside, servermod) = if valid {
            (modpacks, clientside, servermod)
        } else {
            (Vec::new(), Vec::new(), Vec::new())
        };
        let mut selection_listboxes: Vec<SelectionListbox> = Vec::new();
        selection_listboxes.push(SelectionListbox::new(0, String::from_str("Modpacks"), modpacks));
        selection_listboxes.push(SelectionListbox::new(1, String::from_str("Clientside"), clientside));
        selection_listboxes.push(SelectionListbox::new(2, String::from_str("Server mods"), servermod));
        let profiles = config.server_profiles.clone();
        assert(profiles@ =~= config.server_profiles@);
        let server_profile_chooser = ProfileChooser::new(profiles);
        let welcome_view = WelcomeView::new(&config);
        App {
            config,
            errors: Errors::default(),
            cli,
            port_num: String::from_str("2302"),
            selection_listboxes,
            hc_launch_num: NumberInput { value: 0 },
            server_profile_chooser,
            welcome_view,
        }
    }
}

} // verus!
