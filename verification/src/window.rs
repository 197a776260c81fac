//! The view controller: the state machine that owns the window's surfaces.
//! It decides which surface occupies the content region, creates and caches
//! per-profile browsing contexts lazily, routes application events to state
//! transitions, and returns the effect lists the platform layer executes.

use vstd::prelude::*;
use crate::effects::{Effect, SystemScreen};
use crate::effects::{
    is_context_bounds, is_create_context, is_delete_partition, is_destroy_context,
    is_refresh_toolbar, is_save_profiles, is_show_context,
};
use crate::layout::{content_rect, rail_rect, TOOLBAR_WIDTH};
use crate::menu::{MenuController, ProfileMenuAction, TrayAction};
use crate::pool::{
    lemma_pool_keep, lemma_pool_without_spec, pool_contains, pool_created_shown_rel,
    pool_hidden_rel, pool_shown_only_rel, pool_without, WebContextPool,
};
use crate::profile::{
    clone_opt_string, first_index_with, lemma_first_index_with, lemma_registry_grow,
    lemma_registry_keep, lemma_profiles_without_spec, profiles_without, registry_contains, AppData,
    AppSettings, WebProfile, UUID_LEN,
};

verus! {

/// A uuid miss: the referenced profile is gone.  Fails soft, never panics.
#[derive(Clone, Copy, PartialEq, Eq, Structural, Debug)]
pub enum UiError {
    NotFound,
}

impl UiError {
    /// The notification text surfaced for this error.
    pub fn message(&self) -> (r: String)
        ensures
            r@ == "Profile not found"@,
    {
        "Profile not found".to_owned()
    }
}

/// Which surface the content region is devoted to.  Not persisted.
#[derive(Debug)]
pub enum ViewState {
    Welcome,
    AddProfileForm,
    EditProfile(String),
    Settings,
    ProfileActive(String),
}

/// A typed application event, consumed by the view controller.  UI surfaces
/// and native OS events are both parsed into these.
#[derive(Debug)]
pub enum AppEvent {
    ShowAddProfileForm,
    CancelAddProfile,
    AddProfile { name: String, url: String, icon_path: Option<String>, user_agent: Option<String> },
    UpdateProfile {
        uuid: String,
        name: String,
        url: String,
        icon_path: Option<String>,
        user_agent: Option<String>,
    },
    ShowProfile { uuid: String },
    ShowProfileContextMenu { uuid: String, x: i32, y: i32 },
    ReloadProfile { uuid: String },
    UpdateProfileIcon { uuid: String },
    ShowEditProfile { uuid: String },
    RemoveProfile { uuid: String },
    UpdateToolbar,
    ShowWelcome,
    ShowSettings,
    UpdateSettings {
        minimize_on_open: bool,
        minimize_on_close: bool,
        hide_on_close: bool,
        enable_tray: bool,
    },
    ToggleWindow,
    Quit,
}

/// The view controller's state: the shared data container, the context
/// pool, the visible surface, the pending menu target and the window's
/// visibility.
pub struct WindowManager {
    pub data: AppData,
    pub pool: WebContextPool,
    pub view_state: ViewState,
    /// Whether the system content surface (welcome, forms, settings) is
    /// shown.
    pub system_visible: bool,
    pub menu: MenuController,
    pub window_visible: bool,
}

impl WindowManager {
    /// The uuid of the active profile, when a profile context is shown.
    pub open spec fn active_uuid(self) -> Option<Seq<char>> {
        match self.view_state {
            ViewState::ProfileActive(u) => Some(u@),
            _ => None,
        }
    }

    /// Well-formedness: the pool is well formed, every resident context
    /// belongs to a registered profile, and visibility follows the view
    /// state — with a profile active, exactly its context is shown;
    /// otherwise the system surface is shown and every context is hidden.
    pub open spec fn wf(self) -> bool {
        &&& self.pool.wf()
        &&& forall|i: int|
            0 <= i < self.pool.entries@.len() ==> registry_contains(
                self.data.profiles@,
                (#[trigger] self.pool.entries@[i]).uuid@,
            )
        &&& match self.view_state {
            ViewState::ProfileActive(u) => {
                &&& !self.system_visible
                &&& registry_contains(self.data.profiles@, u@)
                &&& pool_contains(self.pool.entries@, u@)
                &&& forall|i: int|
                    0 <= i < self.pool.entries@.len()
                        ==> ((#[trigger] self.pool.entries@[i]).visible <==> self.pool.entries@[i].uuid@
                        == u@)
            },
            _ => {
                &&& self.system_visible
                &&& forall|i: int|
                    0 <= i < self.pool.entries@.len()
                        ==> (#[trigger] self.pool.entries@[i]).visible == false
            },
        }
    }

    /// Exactly one thing occupies the content region: the system surface is
    /// shown exactly when no profile context is, and at most one profile
    /// context is ever shown.
    pub open spec fn content_exclusive(self) -> bool {
        &&& (self.system_visible <==> !exists|i: int|
            0 <= i < self.pool.entries@.len() && (#[trigger] self.pool.entries@[i]).visible)
        &&& forall|i: int, j: int|
            0 <= i < self.pool.entries@.len() && 0 <= j < self.pool.entries@.len()
                && (#[trigger] self.pool.entries@[i]).visible
                && (#[trigger] self.pool.entries@[j]).visible ==> i == j
    }

    /// At every instant, exactly one of the system screen and a profile
    /// context is visible in the content region.  Every transition of the
    /// controller preserves `wf`, so this holds throughout a run.
    pub proof fn lemma_content_region_exclusive(self)
        requires
            self.wf(),
        ensures
            self.content_exclusive(),
    {
        match self.view_state {
            ViewState::ProfileActive(u) => {
                let k = choose|k: int|
                    0 <= k < self.pool.entries@.len() && #[trigger] self.pool.entries@[k].uuid@
                        == u@;
                assert(self.pool.entries@[k].visible);
                assert forall|i: int, j: int|
                    0 <= i < self.pool.entries@.len() && 0 <= j < self.pool.entries@.len()
                        && (#[trigger] self.pool.entries@[i]).visible
                        && (#[trigger] self.pool.entries@[j]).visible implies i == j by {
                    assert(self.pool.entries@[i].uuid@ == u@);
                    assert(self.pool.entries@[j].uuid@ == u@);
                    if i < j {
                        assert(false);
                    }
                    if j < i {
                        assert(false);
                    }
                }
            },
            _ => {},
        }
    }

    /// A controller over freshly loaded data: welcome screen up, no contexts
    /// yet, no pending menu, window visible.  The startup effects render the
    /// welcome surface, set up the tray when enabled, and minimize when the
    /// settings say to open minimized.
    pub fn new(profiles: Vec<WebProfile>, settings: AppSettings) -> (r: (WindowManager, Vec<Effect>))
        ensures
            r.0.data.profiles == profiles,
            r.0.data.settings == settings,
            r.0.view_state is Welcome,
            r.0.system_visible,
            r.0.pool.entries@.len() == 0,
            r.0.pool.next_id == 0,
            r.0.menu.target is None,
            r.0.window_visible,
            r.0.wf(),
            r.1@ == seq![Effect::ShowSystemSurface(SystemScreen::Welcome)] + (if settings.enable_tray {
                seq![Effect::SetupTray]
            } else {
                Seq::<Effect>::empty()
            }) + (if settings.minimize_on_open {
                seq![Effect::MinimizeWindow]
            } else {
                Seq::<Effect>::empty()
            }),
    {
        let wm = WindowManager {
            data: AppData { profiles, settings },
            pool: WebContextPool::new(),
            view_state: ViewState::Welcome,
            system_visible: true,
            menu: MenuController::new(),
            window_visible: true,
        };
        let mut effects: Vec<Effect> = Vec::new();
        effects.push(Effect::ShowSystemSurface(SystemScreen::Welcome));
        if settings.enable_tray {
            effects.push(Effect::SetupTray);
        }
        if settings.minimize_on_open {
            effects.push(Effect::MinimizeWindow);
        }
        proof {
            assert(effects@ =~= seq![Effect::ShowSystemSurface(SystemScreen::Welcome)] + (
            if settings.enable_tray {
                seq![Effect::SetupTray]
            } else {
                Seq::<Effect>::empty()
            }) + (if settings.minimize_on_open {
                seq![Effect::MinimizeWindow]
            } else {
                Seq::<Effect>::empty()
            }));
        }
        (wm, effects)
    }

    /// Hides every profile context and shows the welcome screen.
    pub fn show_welcome(&mut self) -> (r: Vec<Effect>)
        ensures
            final(self).data == old(self).data,
            final(self).menu == old(self).menu,
            final(self).window_visible == old(self).window_visible,
            final(self).view_state is Welcome,
            final(self).system_visible,
            pool_hidden_rel(old(self).pool, final(self).pool),
            r@.len() == 2,
            r@[0] is HideProfileViews,
            r@[1] == Effect::ShowSystemSurface(SystemScreen::Welcome),
            old(self).wf() ==> final(self).wf(),
    {
        self.pool.hide_all();
        self.view_state = ViewState::Welcome;
        self.system_visible = true;
        let mut effects: Vec<Effect> = Vec::new();
        effects.push(Effect::HideProfileViews);
        effects.push(Effect::ShowSystemSurface(SystemScreen::Welcome));
        effects
    }

    /// Hides every profile context and shows the add-profile form.
    pub fn show_add_profile_form(&mut self) -> (r: Vec<Effect>)
        ensures
            final(self).data == old(self).data,
            final(self).menu == old(self).menu,
            final(self).window_visible == old(self).window_visible,
            final(self).view_state is AddProfileForm,
            final(self).system_visible,
            pool_hidden_rel(old(self).pool, final(self).pool),
            r@.len() == 2,
            r@[0] is HideProfileViews,
            r@[1] == Effect::ShowSystemSurface(SystemScreen::AddProfileForm),
            old(self).wf() ==> final(self).wf(),
    {
        self.pool.hide_all();
        self.view_state = ViewState::AddProfileForm;
        self.system_visible = true;
        let mut effects: Vec<Effect> = Vec::new();
        effects.push(Effect::HideProfileViews);
        effects.push(Effect::ShowSystemSurface(SystemScreen::AddProfileForm));
        effects
    }

    /// Hides every profile context and shows the settings surface, rendered
    /// from the current settings snapshot.
    pub fn show_settings(&mut self) -> (r: Vec<Effect>)
        ensures
            final(self).data == old(self).data,
            final(self).menu == old(self).menu,
            final(self).window_visible == old(self).window_visible,
            final(self).view_state is Settings,
            final(self).system_visible,
            pool_hidden_rel(old(self).pool, final(self).pool),
            r@.len() == 2,
            r@[0] is HideProfileViews,
            r@[1] == Effect::ShowSystemSurface(SystemScreen::SettingsForm(old(self).data.settings)),
            old(self).wf() ==> final(self).wf(),
    {
        self.pool.hide_all();
        self.view_state = ViewState::Settings;
        self.system_visible = true;
        let snapshot = self.data.settings;
        let mut effects: Vec<Effect> = Vec::new();
        effects.push(Effect::HideProfileViews);
        effects.push(Effect::ShowSystemSurface(SystemScreen::SettingsForm(snapshot)));
        effects
    }

    /// Pushes the current profile list to the rail surface.
    pub fn update_toolbar_profiles(&self) -> (r: Vec<Effect>)
        ensures
            r@.len() == 1,
            is_refresh_toolbar(r@[0], self.data.profiles@),
    {
        let list = self.data.get_profiles();
        let mut effects: Vec<Effect> = Vec::new();
        effects.push(Effect::RefreshToolbar(list));
        effects
    }

    /// Recomputes the rail and content bounds for the new window size and
    /// pushes them to the rail, the system surface, and every resident
    /// context's surface — visible or not — so hidden contexts are correctly
    /// sized before their next show.
    pub fn handle_resize(&self, width: u32, height: u32) -> (r: Vec<Effect>)
        requires
            width >= TOOLBAR_WIDTH,
        ensures
            r@.len() == 2 + self.pool.entries@.len(),
            r@[0] == Effect::SetRailBounds(rail_rect(height)),
            r@[1] == Effect::SetContentBounds(content_rect(width, height)),
            forall|i: int|
                0 <= i < self.pool.entries@.len() ==> is_context_bounds(
                    #[trigger] r@[2 + i],
                    self.pool.entries@[i].uuid@,
                    content_rect(width, height),
                ),
    {
        let rail = crate::layout::toolbar_bounds(height);
        let content = crate::layout::content_bounds(width, height);
        let mut effects: Vec<Effect> = Vec::new();
        effects.push(Effect::SetRailBounds(rail));
        effects.push(Effect::SetContentBounds(content));
        let n = self.pool.entries.len();
        let mut i: usize = 0;
        while i < n
            invariant
                n == self.pool.entries@.len(),
                i <= n,
                effects@.len() == 2 + i,
                effects@[0] == Effect::SetRailBounds(rail_rect(height)),
                effects@[1] == Effect::SetContentBounds(content_rect(width, height)),
                rail == rail_rect(height),
                content == content_rect(width, height),
                forall|j: int|
                    0 <= j < i ==> is_context_bounds(
                        #[trigger] effects@[2 + j],
                        self.pool.entries@[j].uuid@,
                        content_rect(width, height),
                    ),
            decreases n - i,
        {
            let uuid = self.pool.entries[i].uuid.clone();
            effects.push(Effect::SetContextBounds { uuid, bounds: content });
            i = i + 1;
        }
        effects
    }

    /// Shows the profile's context: fails soft with `NotFound` on an
    /// unknown uuid, leaving everything unchanged; otherwise hides the
    /// current surface, gets or creates the profile's isolated context, and
    /// shows it.  Showing the already-active profile re-shows the same
    /// context: no recreation, no error.
    pub fn navigate_to_profile(&mut self, uuid: &str) -> (r: Result<Vec<Effect>, UiError>)
        requires
            old(self).wf(),
            old(self).pool.next_id < u64::MAX,
        ensures
            final(self).wf(),
            match r {
                Err(e) => {
                    &&& e == UiError::NotFound
                    &&& !registry_contains(old(self).data.profiles@, uuid@)
                    &&& *final(self) == *old(self)
                },
                Ok(effects) => {
                    &&& registry_contains(old(self).data.profiles@, uuid@)
                    &&& final(self).data == old(self).data
                    &&& final(self).menu == old(self).menu
                    &&& final(self).window_visible == old(self).window_visible
                    &&& (final(self).view_state matches ViewState::ProfileActive(u) && u@ == uuid@)
                    &&& !final(self).system_visible
                    &&& if pool_contains(old(self).pool.entries@, uuid@) {
                        &&& pool_shown_only_rel(old(self).pool, final(self).pool, uuid@)
                        &&& effects@.len() == 3
                        &&& effects@[0] is HideSystemSurface
                        &&& effects@[1] is HideProfileViews
                        &&& is_show_context(effects@[2], uuid@)
                    } else {
                        &&& pool_created_shown_rel(old(self).pool, final(self).pool, uuid@)
                        &&& effects@.len() == 5
                        &&& effects@[0] is HideSystemSurface
                        &&& effects@[1] is HideProfileViews
                        &&& crate::effects::is_create_partition(effects@[2], uuid@)
                        &&& is_create_context(
                            effects@[3],
                            uuid@,
                            old(self).data.profiles@[first_index_with(
                                old(self).data.profiles@,
                                uuid@,
                            )].url,
                            old(self).data.profiles@[first_index_with(
                                old(self).data.profiles@,
                                uuid@,
                            )].user_agent,
                            old(self).pool.next_id,
                        )
                        &&& is_show_context(effects@[4], uuid@)
                    }
                },
            },
    {
        let idx_opt = self.data.find_profile_index(uuid);
        proof {
            lemma_first_index_with(self.data.profiles@, uuid@);
        }
        match idx_opt {
            None => Err(UiError::NotFound),
            Some(i) => {
                let resident = self.pool.contains(uuid);
                let mut effects: Vec<Effect> = Vec::new();
                effects.push(Effect::HideSystemSurface);
                effects.push(Effect::HideProfileViews);
                if resident {
                    self.pool.show_only(uuid);
                    effects.push(Effect::ShowContextView(uuid.to_owned()));
                } else {
                    let url = self.data.profiles[i].url.clone();
                    let ua = clone_opt_string(&self.data.profiles[i].user_agent);
                    let created = self.pool.get_or_create(uuid);
                    self.pool.show_only(uuid);
                    let partition = crate::pool::partition_path(uuid);
                    effects.push(Effect::CreatePartition(uuid.to_owned()));
                    effects.push(Effect::CreateContextView {
                        uuid: uuid.to_owned(),
                        url,
                        user_agent: ua,
                        partition,
                        context_id: created.0,
                    });
                    effects.push(Effect::ShowContextView(uuid.to_owned()));
                }
                self.view_state = ViewState::ProfileActive(uuid.to_owned());
                self.system_visible = false;
                proof {
                    assert(self.pool.wf());
                    assert(pool_contains(self.pool.entries@, uuid@)) by {
                        if pool_contains(old(self).pool.entries@, uuid@) {
                            let k = choose|k: int|
                                0 <= k < old(self).pool.entries@.len()
                                    && #[trigger] old(self).pool.entries@[k].uuid@ == uuid@;
                            assert(self.pool.entries@[k].uuid@ == uuid@);
                        } else {
                            assert(self.pool.entries@.last().uuid@ == uuid@);
                        }
                    }
                    assert forall|k: int| 0 <= k < self.pool.entries@.len() implies registry_contains(
                        self.data.profiles@,
                        (#[trigger] self.pool.entries@[k]).uuid@,
                    ) by {
                        if k < old(self).pool.entries@.len() {
                            assert(self.pool.entries@[k].uuid@ == old(self).pool.entries@[k].uuid@);
                        } else {
                            assert(self.pool.entries@[k].uuid@ == uuid@);
                        }
                    }
                }
                Ok(effects)
            },
        }
    }

    /// Creates a profile with a fresh uuid from the given fields, appends it
    /// to the registry, persists, refreshes the rail, and returns to the
    /// welcome screen.
    pub fn add_profile(
        &mut self,
        name: String,
        url: String,
        icon_path: Option<String>,
        user_agent: Option<String>,
    ) -> (r: Vec<Effect>)
        ensures
            final(self).data.profiles@.len() == old(self).data.profiles@.len() + 1,
            final(self).data.profiles@ == old(self).data.profiles@.push(
                final(self).data.profiles@.last(),
            ),
            final(self).data.profiles@.last().uuid@.len() == UUID_LEN,
            final(self).data.profiles@.last().name == name,
            final(self).data.profiles@.last().url == url,
            final(self).data.profiles@.last().icon_path == icon_path,
            final(self).data.profiles@.last().user_agent == user_agent,
            final(self).data.profiles@.last().auto_hibernate == true,
            final(self).data.settings == old(self).data.settings,
            final(self).menu == old(self).menu,
            final(self).window_visible == old(self).window_visible,
            final(self).view_state is Welcome,
            final(self).system_visible,
            pool_hidden_rel(old(self).pool, final(self).pool),
            r@.len() == 4,
            is_save_profiles(r@[0], final(self).data.profiles@),
            is_refresh_toolbar(r@[1], final(self).data.profiles@),
            r@[2] is HideProfileViews,
            r@[3] == Effect::ShowSystemSurface(SystemScreen::Welcome),
            old(self).wf() ==> final(self).wf(),
    {
        let p = WebProfile::new(name, url, icon_path, user_agent);
        proof {
            lemma_registry_grow(self.data.profiles@, p);
        }
        self.data.push_profile(p);
        proof {
            if old(self).wf() {
                assert(self.wf());
            }
        }
        let list = self.data.get_profiles();
        let list2 = self.data.get_profiles();
        let mut effects: Vec<Effect> = Vec::new();
        effects.push(Effect::SaveProfiles(list));
        effects.push(Effect::RefreshToolbar(list2));
        let mut tail = self.show_welcome();
        effects.append(&mut tail);
        proof {
            assert(self.data.profiles@ =~= old(self).data.profiles@.push(
                self.data.profiles@.last(),
            ));
        }
        effects
    }

    /// Overwrites the fields of the first profile with the given uuid — the
    /// uuid itself is immutable — persists, refreshes the rail, and returns
    /// to the welcome screen.  Fails soft with `NotFound` on an unknown
    /// uuid, leaving everything unchanged.
    pub fn update_profile(
        &mut self,
        uuid: String,
        name: String,
        url: String,
        icon_path: Option<String>,
        user_agent: Option<String>,
    ) -> (r: Result<Vec<Effect>, UiError>)
        ensures
            match r {
                Err(e) => {
                    &&& e == UiError::NotFound
                    &&& !registry_contains(old(self).data.profiles@, uuid@)
                    &&& *final(self) == *old(self)
                },
                Ok(effects) => {
                    let i = first_index_with(old(self).data.profiles@, uuid@);
                    &&& registry_contains(old(self).data.profiles@, uuid@)
                    &&& final(self).data.profiles@.len() == old(self).data.profiles@.len()
                    &&& forall|j: int|
                        0 <= j < old(self).data.profiles@.len() && j != i
                            ==> #[trigger] final(self).data.profiles@[j] == old(
                            self,
                        ).data.profiles@[j]
                    &&& final(self).data.profiles@[i].uuid == old(self).data.profiles@[i].uuid
                    &&& final(self).data.profiles@[i].name == name
                    &&& final(self).data.profiles@[i].url == url
                    &&& final(self).data.profiles@[i].icon_path == icon_path
                    &&& final(self).data.profiles@[i].user_agent == user_agent
                    &&& final(self).data.profiles@[i].auto_hibernate == old(
                        self,
                    ).data.profiles@[i].auto_hibernate
                    &&& final(self).data.settings == old(self).data.settings
                    &&& final(self).menu == old(self).menu
                    &&& final(self).window_visible == old(self).window_visible
                    &&& final(self).view_state is Welcome
                    &&& final(self).system_visible
                    &&& pool_hidden_rel(old(self).pool, final(self).pool)
                    &&& effects@.len() == 4
                    &&& is_save_profiles(effects@[0], final(self).data.profiles@)
                    &&& is_refresh_toolbar(effects@[1], final(self).data.profiles@)
                    &&& effects@[2] is HideProfileViews
                    &&& effects@[3] == Effect::ShowSystemSurface(SystemScreen::Welcome)
                },
            },
            old(self).wf() ==> final(self).wf(),
    {
        let idx_opt = self.data.find_profile_index(uuid.as_str());
        proof {
            lemma_first_index_with(self.data.profiles@, uuid@);
        }
        match idx_opt {
            None => Err(UiError::NotFound),
            Some(i) => {
                let mut p = self.data.profiles.remove(i);
                p.name = name;
                p.url = url;
                p.icon_path = icon_path;
                p.user_agent = user_agent;
                self.data.profiles.insert(i, p);
                proof {
                    assert forall|j: int|
                        0 <= j < old(self).data.profiles@.len() && j != i implies #[trigger] self
                        .data.profiles@[j] == old(self).data.profiles@[j] by {
                        if j < i {
                        } else {
                            assert(old(self).data.profiles@.remove(i as int)[j - 1] == old(
                                self,
                            ).data.profiles@[j]);
                        }
                    }
                    if old(self).wf() {
                        assert forall|u: Seq<char>|
                            #[trigger] registry_contains(old(self).data.profiles@, u)
                                implies registry_contains(self.data.profiles@, u) by {
                            let k = choose|k: int|
                                0 <= k < old(self).data.profiles@.len()
                                    && #[trigger] old(self).data.profiles@[k].uuid@ == u;
                            assert(self.data.profiles@[k].uuid@ == u);
                        }
                        assert(self.wf());
                    }
                }
                let list = self.data.get_profiles();
                let list2 = self.data.get_profiles();
                let mut effects: Vec<Effect> = Vec::new();
                effects.push(Effect::SaveProfiles(list));
                effects.push(Effect::RefreshToolbar(list2));
                let mut tail = self.show_welcome();
                effects.append(&mut tail);
                Ok(effects)
            },
        }
    }

    /// The profile's context reloads to its current url, when resident;
    /// otherwise `NotFound`.  The state never changes.
    pub fn reload_profile(&self, uuid: &str) -> (r: Result<Vec<Effect>, UiError>)
        ensures
            match r {
                Err(e) => {
                    &&& e == UiError::NotFound
                    &&& !(pool_contains(self.pool.entries@, uuid@) && registry_contains(
                        self.data.profiles@,
                        uuid@,
                    ))
                },
                Ok(effects) => {
                    &&& pool_contains(self.pool.entries@, uuid@)
                    &&& registry_contains(self.data.profiles@, uuid@)
                    &&& effects@.len() == 1
                    &&& crate::effects::is_reload_context(
                        effects@[0],
                        uuid@,
                        self.data.profiles@[first_index_with(self.data.profiles@, uuid@)].url,
                    )
                },
            },
    {
        proof {
            lemma_first_index_with(self.data.profiles@, uuid@);
        }
        if !self.pool.contains(uuid) {
            return Err(UiError::NotFound);
        }
        match self.data.find_profile_index(uuid) {
            None => Err(UiError::NotFound),
            Some(i) => {
                let url = self.data.profiles[i].url.clone();
                let mut effects: Vec<Effect> = Vec::new();
                effects.push(Effect::ReloadContextView { uuid: uuid.to_owned(), url });
                Ok(effects)
            },
        }
    }

    /// Icon refresh is reserved: nothing changes and nothing is instructed.
    pub fn update_profile_icon(&self, uuid: &str) -> (r: Vec<Effect>)
        ensures
            r@.len() == 0,
    {
        let _ = uuid;
        Vec::new()
    }

    /// Applies a background icon-fetch outcome that arrives as its own
    /// event.  A result whose profile was removed in the meantime is
    /// detected and discarded — not applied, not an error; otherwise the
    /// profile's icon path points into its partition, the list is persisted
    /// and the rail refreshes.
    pub fn icon_fetched(&mut self, uuid: &str, extension: &str) -> (r: Vec<Effect>)
        ensures
            if r@.len() == 0 {
                !registry_contains(old(self).data.profiles@, uuid@) && *final(self) == *old(self)
            } else {
                {
                    let i = first_index_with(old(self).data.profiles@, uuid@);
                    &&& registry_contains(old(self).data.profiles@, uuid@)
                    &&& final(self).data.profiles@.len() == old(self).data.profiles@.len()
                    &&& forall|j: int|
                        0 <= j < old(self).data.profiles@.len() && j != i
                            ==> #[trigger] final(self).data.profiles@[j] == old(
                            self,
                        ).data.profiles@[j]
                    &&& final(self).data.profiles@[i].uuid == old(self).data.profiles@[i].uuid
                    &&& final(self).data.profiles@[i].name == old(self).data.profiles@[i].name
                    &&& final(self).data.profiles@[i].url == old(self).data.profiles@[i].url
                    &&& final(self).data.profiles@[i].user_agent == old(
                        self,
                    ).data.profiles@[i].user_agent
                    &&& (final(self).data.profiles@[i].icon_path matches Some(p) && p@
                        == "profiles/"@ + uuid@ + "/icon."@ + extension@)
                    &&& final(self).data.settings == old(self).data.settings
                    &&& final(self).pool == old(self).pool
                    &&& final(self).view_state == old(self).view_state
                    &&& final(self).system_visible == old(self).system_visible
                    &&& final(self).menu == old(self).menu
                    &&& final(self).window_visible == old(self).window_visible
                    &&& r@.len() == 2
                    &&& is_save_profiles(r@[0], final(self).data.profiles@)
                    &&& is_refresh_toolbar(r@[1], final(self).data.profiles@)
                }
            },
            old(self).wf() ==> final(self).wf(),
    {
        let idx_opt = self.data.find_profile_index(uuid);
        proof {
            lemma_first_index_with(self.data.profiles@, uuid@);
        }
        match idx_opt {
            None => Vec::new(),
            Some(i) => {
                let mut p = self.data.profiles.remove(i);
                p.icon_path = Some(crate::store::icon_relative_path(uuid, extension));
                self.data.profiles.insert(i, p);
                proof {
                    assert forall|j: int|
                        0 <= j < old(self).data.profiles@.len() && j != i implies #[trigger] self
                        .data.profiles@[j] == old(self).data.profiles@[j] by {
                        if j > i {
                            assert(old(self).data.profiles@.remove(i as int)[j - 1] == old(
                                self,
                            ).data.profiles@[j]);
                        }
                    }
                    if old(self).wf() {
                        assert forall|u: Seq<char>|
                            #[trigger] registry_contains(old(self).data.profiles@, u)
                                implies registry_contains(self.data.profiles@, u) by {
                            let k = choose|k: int|
                                0 <= k < old(self).data.profiles@.len()
                                    && #[trigger] old(self).data.profiles@[k].uuid@ == u;
                            assert(self.data.profiles@[k].uuid@ == u);
                        }
                        assert(self.wf());
                    }
                }
                let list = self.data.get_profiles();
                let list2 = self.data.get_profiles();
                let mut effects: Vec<Effect> = Vec::new();
                effects.push(Effect::SaveProfiles(list));
                effects.push(Effect::RefreshToolbar(list2));
                effects
            },
        }
    }

    /// Shows the edit form pre-filled with the profile's current data.
    /// Fails soft with `NotFound` on an unknown uuid, leaving everything
    /// unchanged.
    pub fn show_edit_profile(&mut self, uuid: &str) -> (r: Result<Vec<Effect>, UiError>)
        ensures
            match r {
                Err(e) => {
                    &&& e == UiError::NotFound
                    &&& !registry_contains(old(self).data.profiles@, uuid@)
                    &&& *final(self) == *old(self)
                },
                Ok(effects) => {
                    &&& registry_contains(old(self).data.profiles@, uuid@)
                    &&& final(self).data == old(self).data
                    &&& final(self).menu == old(self).menu
                    &&& final(self).window_visible == old(self).window_visible
                    &&& (final(self).view_state matches ViewState::EditProfile(u) && u@ == uuid@)
                    &&& final(self).system_visible
                    &&& pool_hidden_rel(old(self).pool, final(self).pool)
                    &&& effects@.len() == 2
                    &&& effects@[0] is HideProfileViews
                    &&& effects@[1] == Effect::ShowSystemSurface(
                        SystemScreen::EditProfileForm(
                            old(self).data.profiles@[first_index_with(
                                old(self).data.profiles@,
                                uuid@,
                            )],
                        ),
                    )
                },
            },
            old(self).wf() ==> final(self).wf(),
    {
        let idx_opt = self.data.find_profile_index(uuid);
        proof {
            lemma_first_index_with(self.data.profiles@, uuid@);
        }
        match idx_opt {
            None => Err(UiError::NotFound),
            Some(i) => {
                let p = self.data.profiles[i].clone();
                self.pool.hide_all();
                self.view_state = ViewState::EditProfile(uuid.to_owned());
                self.system_visible = true;
                let mut effects: Vec<Effect> = Vec::new();
                effects.push(Effect::HideProfileViews);
                effects.push(Effect::ShowSystemSurface(SystemScreen::EditProfileForm(p)));
                Ok(effects)
            },
        }
    }
}

/// How the rail surface's messages become application events: navigation
/// and per-profile intents are forwarded; anything else falls through to
/// the request/response handler.
pub open spec fn toolbar_route(m: crate::ipc::IpcMessage) -> Option<AppEvent> {
    match m {
        crate::ipc::IpcMessage::ShowAddProfileForm => Some(AppEvent::ShowAddProfileForm),
        crate::ipc::IpcMessage::ShowProfile { uuid } => Some(AppEvent::ShowProfile { uuid }),
        crate::ipc::IpcMessage::ShowWelcome => Some(AppEvent::ShowWelcome),
        crate::ipc::IpcMessage::GetProfiles => Some(AppEvent::UpdateToolbar),
        crate::ipc::IpcMessage::ShowSettings => Some(AppEvent::ShowSettings),
        crate::ipc::IpcMessage::ShowProfileContextMenu { uuid, x, y } => Some(
            AppEvent::ShowProfileContextMenu { uuid, x, y },
        ),
        crate::ipc::IpcMessage::ReloadProfile { uuid } => Some(AppEvent::ReloadProfile { uuid }),
        crate::ipc::IpcMessage::UpdateProfileIcon { uuid } => Some(
            AppEvent::UpdateProfileIcon { uuid },
        ),
        crate::ipc::IpcMessage::EditProfile { uuid } => Some(AppEvent::ShowEditProfile { uuid }),
        crate::ipc::IpcMessage::RemoveProfile { uuid } => Some(AppEvent::RemoveProfile { uuid }),
        _ => None,
    }
}

/// Parses a rail-surface message into its application event, exactly as
/// `toolbar_route` says.
pub fn toolbar_event_for(message: crate::ipc::IpcMessage) -> (r: Option<AppEvent>)
    ensures
        r == toolbar_route(message),
{
    match message {
        crate::ipc::IpcMessage::ShowAddProfileForm => Some(AppEvent::ShowAddProfileForm),
        crate::ipc::IpcMessage::ShowProfile { uuid } => Some(AppEvent::ShowProfile { uuid }),
        crate::ipc::IpcMessage::ShowWelcome => Some(AppEvent::ShowWelcome),
        crate::ipc::IpcMessage::GetProfiles => Some(AppEvent::UpdateToolbar),
        crate::ipc::IpcMessage::ShowSettings => Some(AppEvent::ShowSettings),
        crate::ipc::IpcMessage::ShowProfileContextMenu { uuid, x, y } => Some(
            AppEvent::ShowProfileContextMenu { uuid, x, y },
        ),
        crate::ipc::IpcMessage::ReloadProfile { uuid } => Some(AppEvent::ReloadProfile { uuid }),
        crate::ipc::IpcMessage::UpdateProfileIcon { uuid } => Some(
            AppEvent::UpdateProfileIcon { uuid },
        ),
        crate::ipc::IpcMessage::EditProfile { uuid } => Some(AppEvent::ShowEditProfile { uuid }),
        crate::ipc::IpcMessage::RemoveProfile { uuid } => Some(AppEvent::RemoveProfile { uuid }),
        _ => None,
    }
}

/// How the content surface's messages become application events: form
/// submissions and window-level intents are forwarded; anything else falls
/// through to the request/response handler.
pub open spec fn welcome_route(m: crate::ipc::IpcMessage) -> Option<AppEvent> {
    match m {
        crate::ipc::IpcMessage::AddProfile { name, url, icon_path, user_agent } => Some(
            AppEvent::AddProfile { name, url, icon_path, user_agent },
        ),
        crate::ipc::IpcMessage::UpdateProfile { uuid, name, url, icon_path, user_agent } => Some(
            AppEvent::UpdateProfile { uuid, name, url, icon_path, user_agent },
        ),
        crate::ipc::IpcMessage::UpdateSettings {
            minimize_on_open,
            minimize_on_close,
            hide_on_close,
            enable_tray,
        } => Some(
            AppEvent::UpdateSettings {
                minimize_on_open,
                minimize_on_close,
                hide_on_close,
                enable_tray,
            },
        ),
        crate::ipc::IpcMessage::CancelAddProfile => Some(AppEvent::CancelAddProfile),
        crate::ipc::IpcMessage::ShowWelcome => Some(AppEvent::ShowWelcome),
        crate::ipc::IpcMessage::QuitApp => Some(AppEvent::Quit),
        _ => None,
    }
}

/// Parses a content-surface message into its application event, exactly as
/// `welcome_route` says.
pub fn welcome_event_for(message: crate::ipc::IpcMessage) -> (r: Option<AppEvent>)
    ensures
        r == welcome_route(message),
{
    match message {
        crate::ipc::IpcMessage::AddProfile { name, url, icon_path, user_agent } => Some(
            AppEvent::AddProfile { name, url, icon_path, user_agent },
        ),
        crate::ipc::IpcMessage::UpdateProfile { uuid, name, url, icon_path, user_agent } => Some(
            AppEvent::UpdateProfile { uuid, name, url, icon_path, user_agent },
        ),
        crate::ipc::IpcMessage::UpdateSettings {
            minimize_on_open,
            minimize_on_close,
            hide_on_close,
            enable_tray,
        } => Some(
            AppEvent::UpdateSettings {
                minimize_on_open,
                minimize_on_close,
                hide_on_close,
                enable_tray,
            },
        ),
        crate::ipc::IpcMessage::CancelAddProfile => Some(AppEvent::CancelAddProfile),
        crate::ipc::IpcMessage::ShowWelcome => Some(AppEvent::ShowWelcome),
        crate::ipc::IpcMessage::QuitApp => Some(AppEvent::Quit),
        _ => None,
    }
}

/// The application event a tray-menu entry triggers: the toggle entry
/// flips the main window's visibility, and the quit entry always moves the
/// loop toward termination, regardless of any close policy.
pub open spec fn tray_route(action: TrayAction) -> AppEvent {
    match action {
        TrayAction::Toggle => AppEvent::ToggleWindow,
        TrayAction::Quit => AppEvent::Quit,
    }
}

/// Turns a tray-menu action into its application event, exactly as
/// `tray_route` says.
pub fn tray_event(action: TrayAction) -> (r: AppEvent)
    ensures
        r == tray_route(action),
{
    match action {
        TrayAction::Toggle => AppEvent::ToggleWindow,
        TrayAction::Quit => AppEvent::Quit,
    }
}

/// What updating the settings does: the flags are overwritten and
/// persisted, and the view returns to the welcome screen.
pub open spec fn update_settings_post(
    pre: WindowManager,
    post: WindowManager,
    flags: AppSettings,
    effects: Seq<Effect>,
) -> bool {
    &&& post.data.settings == flags
    &&& post.data.profiles == pre.data.profiles
    &&& post.menu == pre.menu
    &&& post.window_visible == pre.window_visible
    &&& post.view_state is Welcome
    &&& post.system_visible
    &&& pool_hidden_rel(pre.pool, post.pool)
    &&& effects.len() == 3
    &&& crate::effects::is_save_settings(effects[0], flags)
    &&& effects[1] is HideProfileViews
    &&& effects[2] == Effect::ShowSystemSurface(SystemScreen::Welcome)
}

/// The event a resolved context-menu action turns into, aimed at the bound
/// profile.
pub open spec fn menu_event(action: ProfileMenuAction, uuid: String) -> AppEvent {
    match action {
        ProfileMenuAction::Reload => AppEvent::ReloadProfile { uuid },
        ProfileMenuAction::UpdateIcon => AppEvent::UpdateProfileIcon { uuid },
        ProfileMenuAction::Edit => AppEvent::ShowEditProfile { uuid },
        ProfileMenuAction::Remove => AppEvent::RemoveProfile { uuid },
    }
}

/// What resolving a context menu does: the pending target is consumed
/// exactly once; the action becomes an event only when the bound profile
/// still exists, and is silently dropped otherwise.  Nothing else changes.
pub open spec fn resolve_menu_post(
    pre: WindowManager,
    post: WindowManager,
    action: ProfileMenuAction,
    r: Option<AppEvent>,
) -> bool {
    &&& post.menu.target is None
    &&& post.data == pre.data
    &&& post.pool == pre.pool
    &&& post.view_state == pre.view_state
    &&& post.system_visible == pre.system_visible
    &&& post.window_visible == pre.window_visible
    &&& match pre.menu.target {
        None => r is None,
        Some(t) => if registry_contains(pre.data.profiles@, t@) {
            r == Some(menu_event(action, t))
        } else {
            r is None
        },
    }
}

impl WindowManager {
    /// Overwrites the settings, persists them, and returns to the welcome
    /// screen.
    pub fn update_settings(
        &mut self,
        minimize_on_open: bool,
        minimize_on_close: bool,
        hide_on_close: bool,
        enable_tray: bool,
    ) -> (r: Vec<Effect>)
        ensures
            update_settings_post(
                *old(self),
                *final(self),
                AppSettings { minimize_on_open, minimize_on_close, hide_on_close, enable_tray },
                r@,
            ),
            old(self).wf() ==> final(self).wf(),
    {
        self.data.settings = AppSettings {
            minimize_on_open,
            minimize_on_close,
            hide_on_close,
            enable_tray,
        };
        let mut effects: Vec<Effect> = Vec::new();
        effects.push(Effect::SaveSettings(self.data.settings));
        let mut tail = self.show_welcome();
        effects.append(&mut tail);
        effects
    }

    /// The close-request policy, read from the settings at the moment of
    /// the request: hide the window, else minimize it, else leave the loop.
    pub fn close_requested(&mut self) -> (r: Vec<Effect>)
        ensures
            final(self).data == old(self).data,
            final(self).pool == old(self).pool,
            final(self).view_state == old(self).view_state,
            final(self).system_visible == old(self).system_visible,
            final(self).menu == old(self).menu,
            old(self).data.settings.hide_on_close ==> !final(self).window_visible && r@ == seq![
                Effect::SetWindowVisible(false),
            ],
            !old(self).data.settings.hide_on_close && old(self).data.settings.minimize_on_close
                ==> final(self).window_visible == old(self).window_visible && r@ == seq![
                Effect::MinimizeWindow,
            ],
            !old(self).data.settings.hide_on_close && !old(self).data.settings.minimize_on_close
                ==> final(self).window_visible == old(self).window_visible && r@ == seq![
                Effect::Exit,
            ],
            old(self).wf() ==> final(self).wf(),
    {
        let mut effects: Vec<Effect> = Vec::new();
        if self.data.settings.hide_on_close {
            self.window_visible = false;
            effects.push(Effect::SetWindowVisible(false));
        } else if self.data.settings.minimize_on_close {
            effects.push(Effect::MinimizeWindow);
        } else {
            effects.push(Effect::Exit);
        }
        effects
    }

    /// Flips the main window's visibility; a window coming back to view
    /// also receives input focus.
    pub fn toggle_window(&mut self) -> (r: Vec<Effect>)
        ensures
            final(self).data == old(self).data,
            final(self).pool == old(self).pool,
            final(self).view_state == old(self).view_state,
            final(self).system_visible == old(self).system_visible,
            final(self).menu == old(self).menu,
            final(self).window_visible == !old(self).window_visible,
            r@ == if old(self).window_visible {
                seq![Effect::SetWindowVisible(false)]
            } else {
                seq![Effect::SetWindowVisible(true), Effect::FocusWindow]
            },
            old(self).wf() ==> final(self).wf(),
    {
        let mut effects: Vec<Effect> = Vec::new();
        if self.window_visible {
            self.window_visible = false;
            effects.push(Effect::SetWindowVisible(false));
        } else {
            self.window_visible = true;
            effects.push(Effect::SetWindowVisible(true));
            effects.push(Effect::FocusWindow);
        }
        proof {
            if old(self).window_visible {
                assert(effects@ =~= seq![Effect::SetWindowVisible(false)]);
            } else {
                assert(effects@ =~= seq![Effect::SetWindowVisible(true), Effect::FocusWindow]);
            }
        }
        effects
    }

    /// Binds the context menu to the profile — last-opened wins — and pops
    /// the menu up at the given position.
    pub fn show_profile_context_menu(&mut self, uuid: String, x: i32, y: i32) -> (r: Vec<Effect>)
        ensures
            final(self).data == old(self).data,
            final(self).pool == old(self).pool,
            final(self).view_state == old(self).view_state,
            final(self).system_visible == old(self).system_visible,
            final(self).window_visible == old(self).window_visible,
            final(self).menu.target == Some(uuid),
            r@ == seq![Effect::OpenContextMenu { x, y }],
            old(self).wf() ==> final(self).wf(),
    {
        self.menu.open_for(uuid);
        let mut effects: Vec<Effect> = Vec::new();
        effects.push(Effect::OpenContextMenu { x, y });
        proof {
            assert(effects@ =~= seq![Effect::OpenContextMenu { x, y }]);
        }
        effects
    }

    /// Resolves the open context menu to an action: consumes the pending
    /// target, re-validates that the bound profile still exists, and either
    /// yields the action's event or silently drops it.
    pub fn resolve_menu_action(&mut self, action: ProfileMenuAction) -> (r: Option<AppEvent>)
        ensures
            resolve_menu_post(*old(self), *final(self), action, r),
            old(self).wf() ==> final(self).wf(),
    {
        let target = self.menu.take_target();
        match target {
            None => None,
            Some(t) => {
                match self.data.find_profile_index(t.as_str()) {
                    None => None,
                    Some(_) => Some(
                        match action {
                            ProfileMenuAction::Reload => AppEvent::ReloadProfile { uuid: t },
                            ProfileMenuAction::UpdateIcon => AppEvent::UpdateProfileIcon { uuid: t },
                            ProfileMenuAction::Edit => AppEvent::ShowEditProfile { uuid: t },
                            ProfileMenuAction::Remove => AppEvent::RemoveProfile { uuid: t },
                        },
                    ),
                }
            },
        }
    }

    /// Routes one application event to its transition and returns the
    /// effects.  A failed lookup surfaces nowhere: the state stays as it
    /// was.
    pub fn apply_event(&mut self, event: AppEvent) -> (r: Vec<Effect>)
        requires
            old(self).wf(),
            old(self).pool.next_id < u64::MAX,
        ensures
            final(self).wf(),
            apply_event_post(*old(self), *final(self), event, r@),
    {
        match event {
            AppEvent::ShowAddProfileForm => self.show_add_profile_form(),
            AppEvent::CancelAddProfile => self.show_welcome(),
            AppEvent::AddProfile { name, url, icon_path, user_agent } => self.add_profile(
                name,
                url,
                icon_path,
                user_agent,
            ),
            AppEvent::UpdateProfile { uuid, name, url, icon_path, user_agent } => {
                match self.update_profile(uuid, name, url, icon_path, user_agent) {
                    Ok(effects) => effects,
                    Err(_) => Vec::new(),
                }
            },
            AppEvent::ShowProfile { uuid } => {
                match self.navigate_to_profile(uuid.as_str()) {
                    Ok(effects) => effects,
                    Err(_) => Vec::new(),
                }
            },
            AppEvent::ShowProfileContextMenu { uuid, x, y } => self.show_profile_context_menu(
                uuid,
                x,
                y,
            ),
            AppEvent::ReloadProfile { uuid } => {
                match self.reload_profile(uuid.as_str()) {
                    Ok(effects) => effects,
                    Err(_) => Vec::new(),
                }
            },
            AppEvent::UpdateProfileIcon { uuid } => self.update_profile_icon(uuid.as_str()),
            AppEvent::ShowEditProfile { uuid } => {
                match self.show_edit_profile(uuid.as_str()) {
                    Ok(effects) => effects,
                    Err(_) => Vec::new(),
                }
            },
            AppEvent::RemoveProfile { uuid } => self.remove_profile(uuid.as_str()),
            AppEvent::UpdateToolbar => self.update_toolbar_profiles(),
            AppEvent::ShowWelcome => self.show_welcome(),
            AppEvent::ShowSettings => self.show_settings(),
            AppEvent::UpdateSettings {
                minimize_on_open,
                minimize_on_close,
                hide_on_close,
                enable_tray,
            } => self.update_settings(
                minimize_on_open,
                minimize_on_close,
                hide_on_close,
                enable_tray,
            ),
            AppEvent::ToggleWindow => self.toggle_window(),
            AppEvent::Quit => {
                let mut effects: Vec<Effect> = Vec::new();
                effects.push(Effect::Exit);
                proof {
                    assert(effects@ =~= seq![Effect::Exit]);
                }
                effects
            },
        }
    }
}

/// What dispatching one event guarantees: the per-event clause of
/// `apply_event`, as a relation between the state before, the state after,
/// the event, and the effects returned for it.
pub open spec fn apply_event_post(
    pre: WindowManager,
    post: WindowManager,
    event: AppEvent,
    effects: Seq<Effect>,
) -> bool {
    &&& post.pool.next_id <= pre.pool.next_id + 1
    &&& match event {
        AppEvent::ShowWelcome | AppEvent::CancelAddProfile => post.view_state is Welcome
            && post.system_visible,
        AppEvent::ShowAddProfileForm => post.view_state is AddProfileForm,
        AppEvent::ShowSettings => post.view_state is Settings,
        AppEvent::AddProfile { name, url, .. } => {
            &&& post.data.profiles@.len() == pre.data.profiles@.len() + 1
            &&& post.data.profiles@.last().name == name
            &&& post.data.profiles@.last().url == url
            &&& post.view_state is Welcome
        },
        AppEvent::UpdateProfile { uuid, .. } => !registry_contains(pre.data.profiles@, uuid@)
            ==> post == pre,
        AppEvent::ShowProfile { uuid } => {
            &&& (!registry_contains(pre.data.profiles@, uuid@) ==> post == pre)
            &&& (registry_contains(pre.data.profiles@, uuid@) ==> (post.view_state
                matches ViewState::ProfileActive(u) && u@ == uuid@))
        },
        AppEvent::ReloadProfile { .. } => post == pre,
        AppEvent::UpdateProfileIcon { .. } => post == pre,
        AppEvent::ShowEditProfile { uuid } => !registry_contains(pre.data.profiles@, uuid@)
            ==> post == pre,
        AppEvent::RemoveProfile { uuid } => remove_profile_post(pre, post, uuid@, effects),
        AppEvent::UpdateToolbar => post == pre && effects.len() == 1,
        AppEvent::UpdateSettings {
            minimize_on_open,
            minimize_on_close,
            hide_on_close,
            enable_tray,
        } => update_settings_post(
            pre,
            post,
            AppSettings { minimize_on_open, minimize_on_close, hide_on_close, enable_tray },
            effects,
        ),
        AppEvent::ShowProfileContextMenu { uuid, .. } => post.menu.target == Some(uuid),
        AppEvent::ToggleWindow => post.window_visible == !pre.window_visible,
        AppEvent::Quit => post == pre && effects == seq![Effect::Exit],
    }
}

/// What a whole tick guarantees: the events were applied one at a time, in
/// order.  There is a run of intermediate states from the state before the
/// tick to the state after it in which each event's step is exactly as
/// `apply_event_post` says, and the returned effects are the steps'
/// effects concatenated in that order.
pub open spec fn dispatched(
    pre: WindowManager,
    events: Seq<AppEvent>,
    post: WindowManager,
    effects: Seq<Effect>,
) -> bool {
    exists|states: Seq<WindowManager>, steps: Seq<Seq<Effect>>|
        #![trigger states.len(), steps.len()]
        {
            &&& states.len() == events.len() + 1
            &&& steps.len() == events.len()
            &&& states[0] == pre
            &&& states.last() == post
            &&& (forall|i: int|
                0 <= i < events.len() ==> #[trigger] apply_event_post(
                    states[i],
                    states[i + 1],
                    events[i],
                    steps[i],
                ))
            &&& effects == steps.flatten()
        }
}

/// The single FIFO queue of typed application events, drained on the loop
/// thread once per tick.
pub struct EventQueue {
    pub events: Vec<AppEvent>,
}

impl EventQueue {
    /// An empty queue.
    pub fn new() -> (r: Self)
        ensures
            r.events@.len() == 0,
    {
        EventQueue { events: Vec::new() }
    }

    /// Appends an event at the back.
    pub fn enqueue(&mut self, event: AppEvent)
        ensures
            final(self).events@ == old(self).events@.push(event),
    {
        self.events.push(event);
    }

    /// Takes the oldest event off the front: strict FIFO order.
    pub fn dequeue(&mut self) -> (r: Option<AppEvent>)
        ensures
            old(self).events@.len() == 0 ==> r is None && *final(self) == *old(self),
            old(self).events@.len() > 0 ==> r == Some(old(self).events@[0]) && final(self).events@
                == old(self).events@.drop_first(),
    {
        if self.events.len() == 0 {
            None
        } else {
            let e = self.events.remove(0);
            proof {
                assert(self.events@ =~= old(self).events@.drop_first());
            }
            Some(e)
        }
    }
}

impl WindowManager {
    /// One tick of the cooperative loop: drains the queue completely, in
    /// FIFO order, applying one event at a time — run-to-completion, no
    /// reentrant dispatch — and collects the effects in order.  What came
    /// out is exactly the events' dispatch: `dispatched` ties the final
    /// state and the returned effects to every drained event.
    pub fn run_tick(&mut self, queue: &mut EventQueue) -> (r: Vec<Effect>)
        requires
            old(self).wf(),
            old(self).pool.next_id + old(queue).events@.len() <= u64::MAX,
        ensures
            final(self).wf(),
            final(queue).events@.len() == 0,
            dispatched(*old(self), old(queue).events@, *final(self), r@),
    {
        let ghost all_events = old(queue).events@;
        let ghost n = all_events.len() as int;
        let ghost mut k: int = 0;
        let ghost mut trace: Seq<WindowManager> = seq![*old(self)];
        let ghost mut steps: Seq<Seq<Effect>> = Seq::empty();
        let mut effects: Vec<Effect> = Vec::new();
        proof {
            assert(queue.events@ =~= all_events.subrange(0, n));
            assert(steps.flatten() =~= Seq::<Effect>::empty());
        }
        while queue.events.len() > 0
            invariant
                self.wf(),
                self.pool.next_id + queue.events@.len() <= u64::MAX,
                0 <= k <= n,
                n == all_events.len(),
                k + queue.events@.len() == n,
                queue.events@ == all_events.subrange(k, n),
                trace.len() == k + 1,
                steps.len() == k,
                trace[0] == *old(self),
                trace.last() == *self,
                forall|i: int|
                    0 <= i < k ==> #[trigger] apply_event_post(
                        trace[i],
                        trace[i + 1],
                        all_events[i],
                        steps[i],
                    ),
                effects@ == steps.flatten(),
            decreases queue.events@.len(),
        {
            let ghost pre_step = *self;
            let next = queue.dequeue();
            if let Some(ev) = next {
                proof {
                    assert(all_events.subrange(k, n)[0] == all_events[k]);
                    assert(queue.events@ =~= all_events.subrange(k + 1, n));
                }
                let mut es = self.apply_event(ev);
                proof {
                    steps.lemma_flatten_push(es@);
                    trace = trace.push(*self);
                    steps = steps.push(es@);
                    k = k + 1;
                    assert(trace[k - 1] == pre_step);
                    assert forall|i: int|
                        0 <= i < k implies #[trigger] apply_event_post(
                        trace[i],
                        trace[i + 1],
                        all_events[i],
                        steps[i],
                    ) by {
                        if i < k - 1 {
                            assert(trace[i] == trace.drop_last()[i]);
                            assert(trace[i + 1] == trace.drop_last()[i + 1]);
                            assert(steps[i] == steps.drop_last()[i]);
                        }
                    }
                }
                effects.append(&mut es);
            }
        }
        proof {
            assert(trace.len() == n + 1);
            assert(steps.len() == n);
        }
        effects
    }
}

/// What removing a profile does: the registry entry, the cached context and
/// the pending menu target referring to the uuid all go, the new list is
/// persisted, the partition is deleted, the rail refreshes — and the view
/// returns to the welcome screen only when the removed profile was active.
pub open spec fn remove_profile_post(
    pre: WindowManager,
    post: WindowManager,
    uuid: Seq<char>,
    effects: Seq<Effect>,
) -> bool {
    let was_active = pre.active_uuid() == Some(uuid);
    let was_resident = pool_contains(pre.pool.entries@, uuid);
    let new_profiles = profiles_without(pre.data.profiles@, uuid);
    let k: int = if was_resident { 1 } else { 0 };
    &&& post.data.profiles@ == new_profiles
    &&& post.data.settings == pre.data.settings
    &&& post.pool.entries@ == pool_without(pre.pool.entries@, uuid)
    &&& post.pool.next_id == pre.pool.next_id
    &&& post.window_visible == pre.window_visible
    &&& post.menu.target == (match pre.menu.target {
        Some(t) => if t@ == uuid { None } else { Some(t) },
        None => None::<String>,
    })
    &&& (if was_active {
        post.view_state is Welcome && post.system_visible
    } else {
        post.view_state == pre.view_state && post.system_visible == pre.system_visible
    })
    &&& effects.len() == k + 3 + (if was_active { 2int } else { 0 })
    &&& (was_resident ==> is_destroy_context(effects[0], uuid))
    &&& is_save_profiles(effects[k], new_profiles)
    &&& is_delete_partition(effects[k + 1], uuid)
    &&& is_refresh_toolbar(effects[k + 2], new_profiles)
    &&& (was_active ==> effects[k + 3] is HideProfileViews && effects[k + 4]
        == Effect::ShowSystemSurface(SystemScreen::Welcome))
}

/// Adding a profile and then removing it by uuid leaves nothing of it
/// behind: the registry, the context pool, and — once the removal's effects
/// have run against any store — the on-disk partition all report the uuid
/// absent.
pub proof fn lemma_removed_profile_fully_absent(
    pre: WindowManager,
    mid: WindowManager,
    post: WindowManager,
    p: WebProfile,
    effects: Seq<Effect>,
    disk: crate::store::StoreModel,
)
    requires
        mid.data.profiles@ == pre.data.profiles@.push(p),
        remove_profile_post(mid, post, p.uuid@, effects),
    ensures
        !registry_contains(post.data.profiles@, p.uuid@),
        !pool_contains(post.pool.entries@, p.uuid@),
        !crate::store::apply_effects_model(disk, effects).partitions.contains(p.uuid@),
{
    lemma_profiles_without_spec(mid.data.profiles@, p.uuid@);
    lemma_pool_without_spec(mid.pool.entries@, p.uuid@);
    let was_active = mid.active_uuid() == Some(p.uuid@);
    let was_resident = pool_contains(mid.pool.entries@, p.uuid@);
    let k: int = if was_resident { 1 } else { 0 };
    assert(crate::effects::is_delete_partition(effects[k + 1], p.uuid@));
    assert forall|j: int|
        k + 1 < j < effects.len() implies !crate::effects::is_create_partition(
        #[trigger] effects[j],
        p.uuid@,
    ) by {
        if j == k + 2 {
            assert(crate::effects::is_refresh_toolbar(
                effects[j],
                profiles_without(mid.data.profiles@, p.uuid@),
            ));
        } else {
            assert(was_active);
            if j == k + 3 {
                assert(effects[j] is HideProfileViews);
            } else {
                assert(effects[j] == Effect::ShowSystemSurface(SystemScreen::Welcome));
            }
        }
    }
    crate::store::lemma_partition_absent_after(disk, effects, k + 1, p.uuid@);
}

/// Updated settings survive a restart: after the update's effects have run
/// against any store, a fresh load of the settings yields exactly the flags
/// that were set.
pub proof fn lemma_settings_survive_restart(
    pre: WindowManager,
    post: WindowManager,
    flags: AppSettings,
    effects: Seq<Effect>,
    disk: crate::store::StoreModel,
)
    requires
        update_settings_post(pre, post, flags, effects),
    ensures
        crate::store::apply_effects_model(disk, effects).settings == flags,
{
    let p1 = effects.drop_last();
    let p0 = p1.drop_last();
    assert(p0.drop_last() =~= Seq::<Effect>::empty());
    assert(crate::store::apply_effects_model(disk, Seq::<Effect>::empty()) == disk);
    assert(p0.last() == effects[0]);
    assert(effects[0] == Effect::SaveSettings(flags));
    assert(p1.last() == effects[1]);
    assert(effects.last() == effects[2]);
    assert(crate::store::apply_effects_model(disk, p0).settings == flags);
    assert(crate::store::apply_effects_model(disk, p1).settings == flags);
}

/// A context menu opened for a profile that is then independently removed
/// resolves to nothing: the pending target was dropped with the profile, so
/// the action is discarded — no second removal, no error.
pub proof fn lemma_stale_menu_target_dropped(
    opened: WindowManager,
    removed: WindowManager,
    resolved: WindowManager,
    uuid: Seq<char>,
    effects: Seq<Effect>,
    action: ProfileMenuAction,
    r: Option<AppEvent>,
)
    requires
        opened.menu.target matches Some(t) && t@ == uuid,
        remove_profile_post(opened, removed, uuid, effects),
        resolve_menu_post(removed, resolved, action, r),
    ensures
        r is None,
        resolved.data == removed.data,
        resolved.pool == removed.pool,
        resolved.view_state == removed.view_state,
{
}

impl WindowManager {
    /// Removes the profile: destroys its cached context, deletes its
    /// registry entries and its storage partition, drops a pending menu
    /// target bound to it, persists and refreshes the rail.  The view
    /// returns to the welcome screen when the removed profile was active,
    /// and stays put otherwise.  Removing an unknown uuid is a no-op apart
    /// from the persist and refresh.
    pub fn remove_profile(&mut self, uuid: &str) -> (r: Vec<Effect>)
        ensures
            remove_profile_post(*old(self), *final(self), uuid@, r@),
            old(self).wf() ==> final(self).wf(),
    {
        let was_resident = self.pool.contains(uuid);
        let was_active = match &self.view_state {
            ViewState::ProfileActive(u) => crate::strutil::str_eq(u.as_str(), uuid),
            _ => false,
        };
        self.pool.remove(uuid);
        self.data.remove_profile_entries(uuid);
        self.menu.clear_if(uuid);
        let list = self.data.get_profiles();
        let list2 = self.data.get_profiles();
        let mut effects: Vec<Effect> = Vec::new();
        if was_resident {
            effects.push(Effect::DestroyContextView(uuid.to_owned()));
        }
        effects.push(Effect::SaveProfiles(list));
        effects.push(Effect::DeletePartition(uuid.to_owned()));
        effects.push(Effect::RefreshToolbar(list2));
        if was_active {
            self.view_state = ViewState::Welcome;
            self.system_visible = true;
            effects.push(Effect::HideProfileViews);
            effects.push(Effect::ShowSystemSurface(SystemScreen::Welcome));
        }
        proof {
            lemma_profiles_without_spec(old(self).data.profiles@, uuid@);
            lemma_pool_without_spec(old(self).pool.entries@, uuid@);
            if old(self).wf() {
                lemma_pool_keep(old(self).pool, self.pool, uuid@);
                lemma_registry_keep(old(self).data.profiles@, uuid@);
                assert forall|i: int|
                    0 <= i < self.pool.entries@.len() implies registry_contains(
                    self.data.profiles@,
                    (#[trigger] self.pool.entries@[i]).uuid@,
                ) by {
                    assert(old(self).pool.entries@.contains(self.pool.entries@[i]));
                    let k = choose|k: int|
                        0 <= k < old(self).pool.entries@.len() && old(self).pool.entries@[k]
                            == self.pool.entries@[i];
                    assert(registry_contains(
                        old(self).data.profiles@,
                        old(self).pool.entries@[k].uuid@,
                    ));
                    assert(self.pool.entries@[i].uuid@ != uuid@);
                }
                match old(self).view_state {
                    ViewState::ProfileActive(u) => {
                        if u@ == uuid@ {
                            assert forall|i: int|
                                0 <= i < self.pool.entries@.len() implies (
                            #[trigger] self.pool.entries@[i]).visible == false by {
                                assert(old(self).pool.entries@.contains(self.pool.entries@[i]));
                                let k = choose|k: int|
                                    0 <= k < old(self).pool.entries@.len() && old(
                                        self,
                                    ).pool.entries@[k] == self.pool.entries@[i];
                                assert(self.pool.entries@[i].uuid@ != uuid@);
                            }
                        } else {
                            assert(pool_contains(self.pool.entries@, u@));
                            assert(registry_contains(self.data.profiles@, u@));
                            assert forall|i: int|
                                0 <= i < self.pool.entries@.len() implies ((
                            #[trigger] self.pool.entries@[i]).visible <==> self.pool.entries@[i].uuid@
                                == u@) by {
                                assert(old(self).pool.entries@.contains(self.pool.entries@[i]));
                                let k = choose|k: int|
                                    0 <= k < old(self).pool.entries@.len() && old(
                                        self,
                                    ).pool.entries@[k] == self.pool.entries@[i];
                                assert((old(self).pool.entries@[k].visible <==> old(
                                    self,
                                ).pool.entries@[k].uuid@ == u@));
                            }
                        }
                    },
                    _ => {
                        assert forall|i: int|
                            0 <= i < self.pool.entries@.len() implies (
                        #[trigger] self.pool.entries@[i]).visible == false by {
                            assert(old(self).pool.entries@.contains(self.pool.entries@[i]));
                            let k = choose|k: int|
                                0 <= k < old(self).pool.entries@.len() && old(self).pool.entries@[k]
                                    == self.pool.entries@[i];
                            assert(old(self).pool.entries@[k].visible == false);
                        }
                    },
                }
            }
        }
        effects
    }
}

} // verus!
