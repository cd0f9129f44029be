//! The choice of server profile.
use vstd::prelude::*;

verus! {

/// The server profiles on offer, and the one chosen.
#[derive(Debug, Default)]
pub struct ProfileChooser {
    pub selected: Option<String>,
    pub options: Vec<String>,
}

/// A choice of profile.
#[derive(Clone, Debug)]
pub enum Message {
    ProfileSelected(String),
}

impl ProfileChooser {
    /// Offers `profiles`, the first one chosen.
    pub fn new(profiles: Vec<String>) -> (r: ProfileChooser)
        ensures
            r.options == profiles,
            profiles.len() == 0 ==> r.selected is None,
            profiles.len() > 0 ==> r.selected == Some(profiles[0]),
    {
        let selected = if profiles.len() > 0 {
            Some(profiles[0].clone())
        } else {
            None
        };
        ProfileChooser { selected, options: profiles }
    }

    /// Chooses the profile that `message` names.
    pub fn update(&mut self, message: Message)
        ensures
            final(self).options == old(self).options,
            match message {
                Message::ProfileSelected(p) => final(self).selected == Some(p),
            },
    {
        match message {
            Message::ProfileSelected(selection) => {
                self.selected = Some(selection);
            },
        }
    }

    /// The chosen profile.
    pub fn get_selected_profile(&self) -> (r: String)
        requires
            self.selected is Some,
        ensures
            r == self.selected->Some_0,
    {
        match &self.selected {
            Some(p) => p.clone(),
            None => String::new(),
        }
    }
}

} // verus!
