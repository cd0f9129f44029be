//! Events of the launcher's window.
use vstd::prelude::*;
use crate::ui::{number_input, profile_chooser, selection_listbox, welcome_message};

verus! {

/// Something that happened in the window and changes its state.
#[derive(Clone, Debug)]
pub enum Message {
    /// A pick in the list box at this index.
    SelectionBoxUpdate(usize, selection_listbox::Message),
    /// A step of the headless-client counter.
    HcInputChanged(number_input::Message),
    /// A choice of server profile.
    ServerProfileChanged(profile_chooser::Message),
    /// An event of the settings form.
    WelcomeViewMessage(welcome_message::Message),
    /// The port was edited.
    ChangePortNumber(String),
    /// Start the server.
    LaunchServer(),
    /// Start the headless clients.
    LaunchHCs(),
    /// Something failed; show the text.
    Error(String),
    /// Drop the errors shown.
    ClearErrors(),
    /// Nothing to do.
    NoOp,
}

} // verus!
