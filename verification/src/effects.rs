//! The effect vocabulary of the view controller.  Every transition returns a
//! list of effects; the platform layer executes them in order against the
//! real window, surfaces and disk.  The controller's contracts pin the lists
//! exactly, so what reaches the platform is part of what is proved.

use vstd::prelude::*;
use crate::layout::Rect;
use crate::profile::{AppSettings, WebProfile};

verus! {

/// A system screen that can occupy the content region.
#[derive(Debug)]
pub enum SystemScreen {
    Welcome,
    AddProfileForm,
    /// The edit form, pre-filled with the profile's current data.
    EditProfileForm(WebProfile),
    /// The settings surface, rendered from the given snapshot.
    SettingsForm(AppSettings),
}

/// One instruction to the platform layer.
#[derive(Debug)]
pub enum Effect {
    /// Hide every resident profile surface.
    HideProfileViews,
    /// Render the given system screen in the content region and show it.
    ShowSystemSurface(SystemScreen),
    /// Hide the system surface.
    HideSystemSurface,
    /// Construct a fresh isolated browsing context and its surface.
    CreateContextView {
        uuid: String,
        url: String,
        user_agent: Option<String>,
        /// Relative storage-partition directory for the context.
        partition: String,
        context_id: u64,
    },
    /// Show the resident context's surface.
    ShowContextView(String),
    /// Reload the resident context to the profile's current url.
    ReloadContextView { uuid: String, url: String },
    /// Close the context's surface and drop the context.
    DestroyContextView(String),
    /// Ensure the profile's storage partition exists on disk.
    CreatePartition(String),
    /// Delete the profile's storage partition from disk.
    DeletePartition(String),
    /// Persist the profile list.
    SaveProfiles(Vec<WebProfile>),
    /// Persist the settings.
    SaveSettings(AppSettings),
    /// Push the profile list to the rail surface.
    RefreshToolbar(Vec<WebProfile>),
    /// Pop up the context menu at the given position.
    OpenContextMenu { x: i32, y: i32 },
    /// Apply bounds to the rail surface.
    SetRailBounds(Rect),
    /// Apply bounds to the system content surface.
    SetContentBounds(Rect),
    /// Apply bounds to one resident context's surface.
    SetContextBounds { uuid: String, bounds: Rect },
    /// Show or hide the main window.
    SetWindowVisible(bool),
    /// Give the main window input focus.
    FocusWindow,
    /// Minimize the main window.
    MinimizeWindow,
    /// Build the tray icon and its menu.
    SetupTray,
    /// Leave the event loop.
    Exit,
}

/// The effect persists the given profile list.
pub open spec fn is_save_profiles(e: Effect, profiles: Seq<WebProfile>) -> bool {
    match e {
        Effect::SaveProfiles(v) => v@ == profiles,
        _ => false,
    }
}

/// The effect persists the given settings.
pub open spec fn is_save_settings(e: Effect, s: AppSettings) -> bool {
    e == Effect::SaveSettings(s)
}

/// The effect creates the partition of the given profile.
pub open spec fn is_create_partition(e: Effect, uuid: Seq<char>) -> bool {
    match e {
        Effect::CreatePartition(u) => u@ == uuid,
        _ => false,
    }
}

/// The effect deletes the partition of the given profile.
pub open spec fn is_delete_partition(e: Effect, uuid: Seq<char>) -> bool {
    match e {
        Effect::DeletePartition(u) => u@ == uuid,
        _ => false,
    }
}

/// The effect destroys the context surface of the given profile.
pub open spec fn is_destroy_context(e: Effect, uuid: Seq<char>) -> bool {
    match e {
        Effect::DestroyContextView(u) => u@ == uuid,
        _ => false,
    }
}

/// The effect pushes the given profile list to the rail.
pub open spec fn is_refresh_toolbar(e: Effect, profiles: Seq<WebProfile>) -> bool {
    match e {
        Effect::RefreshToolbar(v) => v@ == profiles,
        _ => false,
    }
}

/// The effect applies the given bounds to the given context's surface.
pub open spec fn is_context_bounds(e: Effect, uuid: Seq<char>, b: Rect) -> bool {
    match e {
        Effect::SetContextBounds { uuid: u, bounds } => u@ == uuid && bounds == b,
        _ => false,
    }
}

/// The effect constructs a fresh isolated context for the profile, rooted
/// in its own storage partition, aimed at the given url and user agent, and
/// carrying the given identity.
pub open spec fn is_create_context(
    e: Effect,
    uuid: Seq<char>,
    url: String,
    user_agent: Option<String>,
    id: u64,
) -> bool {
    match e {
        Effect::CreateContextView { uuid: u, url: l, user_agent: a, partition, context_id } => {
            &&& u@ == uuid
            &&& l == url
            &&& a == user_agent
            &&& partition@ == "profiles/"@ + uuid
            &&& context_id == id
        },
        _ => false,
    }
}

/// The effect shows the context surface of the given profile.
pub open spec fn is_show_context(e: Effect, uuid: Seq<char>) -> bool {
    match e {
        Effect::ShowContextView(u) => u@ == uuid,
        _ => false,
    }
}

/// The effect reloads the given profile's context to the given url.
pub open spec fn is_reload_context(e: Effect, uuid: Seq<char>, url: String) -> bool {
    match e {
        Effect::ReloadContextView { uuid: u, url: l } => u@ == uuid && l == url,
        _ => false,
    }
}

} // verus!
