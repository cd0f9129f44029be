//! The state of the launcher's window, apart from its drawing.
pub mod app;
pub mod errors;
pub mod number_input;
pub mod profile_chooser;
pub mod selection_listbox;
pub mod welcome_message;
