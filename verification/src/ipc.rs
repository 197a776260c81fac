//! The structured message envelope exchanged between UI surfaces and the
//! core, and the handler that answers the request/response subset of it.
//! Surfaces send intents; the core pushes notifications back.

use vstd::prelude::*;
use crate::profile::{
    first_index_with, lemma_first_index_with, profiles_without, registry_contains, AppData,
    WebProfile, UUID_LEN,
};

verus! {

/// A tagged message between a UI surface and the core, one-directional and
/// fire-and-forget.
#[derive(Debug)]
pub enum IpcMessage {
    // Intents from the surfaces to the core.
    AddProfile { name: String, url: String, icon_path: Option<String>, user_agent: Option<String> },
    UpdateProfile {
        uuid: String,
        name: String,
        url: String,
        icon_path: Option<String>,
        user_agent: Option<String>,
    },
    ShowProfile { uuid: String },
    RemoveProfile { uuid: String },
    ShowProfileContextMenu { uuid: String, x: i32, y: i32 },
    ReloadProfile { uuid: String },
    UpdateProfileIcon { uuid: String },
    EditProfile { uuid: String },
    GetProfiles,
    ShowAddProfileForm,
    CancelAddProfile,
    ShowWelcome,
    ShowSettings,
    UpdateSettings {
        minimize_on_open: bool,
        minimize_on_close: bool,
        hide_on_close: bool,
        enable_tray: bool,
    },
    QuitApp,
    // Notifications from the core to the surfaces.
    ProfileAdded { profile: WebProfile },
    ProfileRemoved { uuid: String },
    ProfilesList { profiles: Vec<WebProfile> },
    NavigateToUrl { url: String, user_agent: Option<String> },
    Success { message: String },
    Error { message: String },
}

/// Processes the request/response subset of the envelope against the shared
/// data container, handed in as an explicit context object.
pub struct IpcHandler {
    pub state: AppData,
}

impl IpcHandler {
    /// A handler over the given application data.
    pub fn new(state: AppData) -> (r: Self)
        ensures
            r.state == state,
    {
        IpcHandler { state }
    }

    /// Processes one message and returns the response, if the message asks
    /// for one.  Adding appends a freshly identified profile and announces
    /// it; removing drops every entry with the uuid and announces that;
    /// listing copies the registry out; showing answers with the profile's
    /// url and user agent, or with an error notification when the uuid is
    /// unknown.  Every other message changes nothing and yields nothing.
    pub fn handle_message(&mut self, message: IpcMessage) -> (r: Option<IpcMessage>)
        ensures
            final(self).state.settings == old(self).state.settings,
            match message {
                IpcMessage::AddProfile { name, url, icon_path, user_agent } => {
                    &&& final(self).state.profiles@ == old(self).state.profiles@.push(
                        final(self).state.profiles@.last(),
                    )
                    &&& final(self).state.profiles@.len() == old(self).state.profiles@.len() + 1
                    &&& final(self).state.profiles@.last().uuid@.len() == UUID_LEN
                    &&& final(self).state.profiles@.last().name == name
                    &&& final(self).state.profiles@.last().url == url
                    &&& final(self).state.profiles@.last().icon_path == icon_path
                    &&& final(self).state.profiles@.last().user_agent == user_agent
                    &&& (r matches Some(IpcMessage::ProfileAdded { profile })
                        && profile == final(self).state.profiles@.last())
                },
                IpcMessage::RemoveProfile { uuid } => {
                    &&& final(self).state.profiles@ == profiles_without(
                        old(self).state.profiles@,
                        uuid@,
                    )
                    &&& r == Some(IpcMessage::ProfileRemoved { uuid })
                },
                IpcMessage::GetProfiles => {
                    &&& *final(self) == *old(self)
                    &&& (r matches Some(IpcMessage::ProfilesList { profiles })
                        && profiles@ == old(self).state.profiles@)
                },
                IpcMessage::ShowProfile { uuid } => {
                    &&& *final(self) == *old(self)
                    &&& if registry_contains(old(self).state.profiles@, uuid@) {
                        let i = first_index_with(old(self).state.profiles@, uuid@);
                        r matches Some(IpcMessage::NavigateToUrl { url, user_agent })
                            && url == old(self).state.profiles@[i].url
                            && user_agent == old(self).state.profiles@[i].user_agent
                    } else {
                        r matches Some(IpcMessage::Error { message }) && message@
                            == "Profile not found"@
                    }
                },
                _ => *final(self) == *old(self) && r is None,
            },
    {
        match message {
            IpcMessage::AddProfile { name, url, icon_path, user_agent } => {
                let profile = WebProfile::new(name, url, icon_path, user_agent);
                let copy = profile.clone();
                self.state.push_profile(profile);
                Some(IpcMessage::ProfileAdded { profile: copy })
            },
            IpcMessage::RemoveProfile { uuid } => {
                self.state.remove_profile_entries(uuid.as_str());
                Some(IpcMessage::ProfileRemoved { uuid })
            },
            IpcMessage::GetProfiles => {
                let profiles = self.state.get_profiles();
                Some(IpcMessage::ProfilesList { profiles })
            },
            IpcMessage::ShowProfile { uuid } => {
                proof {
                    lemma_first_index_with(self.state.profiles@, uuid@);
                }
                match self.state.find_profile_index(uuid.as_str()) {
                    Some(i) => {
                        let url = self.state.profiles[i].url.clone();
                        let user_agent = crate::profile::clone_opt_string(
                            &self.state.profiles[i].user_agent,
                        );
                        Some(IpcMessage::NavigateToUrl { url, user_agent })
                    },
                    None => Some(IpcMessage::Error { message: "Profile not found".to_owned() }),
                }
            },
            _ => None,
        }
    }
}

} // verus!
