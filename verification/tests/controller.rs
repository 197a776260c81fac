use feather_alloy::effects::{Effect, SystemScreen};
use feather_alloy::ipc::{IpcHandler, IpcMessage};
use feather_alloy::layout::Rect;
use feather_alloy::menu::ProfileMenuAction;
use feather_alloy::profile::{create_app_state, AppSettings, WebProfile};
use feather_alloy::store::{Store, StoredFile};
use feather_alloy::window::{AppEvent, EventQueue, UiError, ViewState, WindowManager};

fn manager_with(profiles: Vec<WebProfile>) -> WindowManager {
    let (wm, _effects) = WindowManager::new(profiles, AppSettings::default());
    wm
}

fn added_uuid(wm: &WindowManager) -> String {
    wm.data.profiles[wm.data.profiles.len() - 1].uuid.clone()
}

#[test]
fn test_save_and_load_profiles() {
    let test_profile = WebProfile::new(
        "Test Service".to_string(),
        "https://example.com".to_string(),
        None,
        None,
    );

    let profiles = vec![test_profile];

    let mut store = Store::new();
    store.save_profiles(&profiles);

    let loaded = store.load_profiles();

    assert_eq!(loaded.len(), 1);
    assert_eq!(loaded[0].name, "Test Service");
    assert_eq!(loaded[0].url, "https://example.com");
}

#[test]
fn add_profile_registers_and_persists_one_entry() {
    let mut wm = manager_with(Vec::new());
    let effects = wm.add_profile(
        "Test Service".to_string(),
        "https://example.com".to_string(),
        None,
        None,
    );

    assert_eq!(wm.data.profiles.len(), 1);
    assert_eq!(wm.data.profiles[0].name, "Test Service");
    assert_eq!(wm.data.profiles[0].url, "https://example.com");
    assert_eq!(wm.data.profiles[0].uuid.len(), 36);
    assert!(!wm.data.profiles[0].uuid.is_empty());

    let mut store = Store::new();
    store.apply_effects(&effects);
    let reloaded = store.load_profiles();
    assert_eq!(reloaded.len(), 1);
    assert_eq!(reloaded[0].name, "Test Service");
    assert_eq!(reloaded[0].url, "https://example.com");
    assert_eq!(reloaded[0].uuid, wm.data.profiles[0].uuid);
}

#[test]
fn removed_profile_is_gone_from_registry_pool_and_disk() {
    let mut wm = manager_with(Vec::new());
    let mut store = Store::new();

    let effects = wm.add_profile("A".to_string(), "https://a.example".to_string(), None, None);
    store.apply_effects(&effects);
    let uuid = added_uuid(&wm);

    let effects = wm.navigate_to_profile(&uuid).expect("profile exists");
    store.apply_effects(&effects);
    assert!(store.partitions.iter().any(|p| p.as_str() == uuid.as_str()));
    assert!(wm.pool.contains(&uuid));

    let effects = wm.remove_profile(&uuid);
    store.apply_effects(&effects);

    assert!(wm.data.find_profile_index(&uuid).is_none());
    assert!(!wm.pool.contains(&uuid));
    assert!(!store.partitions.iter().any(|p| p.as_str() == uuid.as_str()));
    assert!(store.load_profiles().is_empty());
}

#[test]
fn show_profile_unknown_uuid_is_not_found_and_leaves_state() {
    let mut wm = manager_with(Vec::new());
    wm.add_profile("A".to_string(), "https://a.example".to_string(), None, None);
    assert!(matches!(wm.view_state, ViewState::Welcome));

    let r = wm.navigate_to_profile("no-such-uuid");
    assert!(matches!(r, Err(UiError::NotFound)));
    assert!(matches!(wm.view_state, ViewState::Welcome));
    assert!(wm.system_visible);
    assert_eq!(wm.pool.entries.len(), 0);
}

#[test]
fn exactly_one_surface_is_visible_at_every_step() {
    let mut wm = manager_with(Vec::new());
    wm.add_profile("A".to_string(), "https://a.example".to_string(), None, None);
    let uuid = added_uuid(&wm);

    let visible = |wm: &WindowManager| wm.pool.entries.iter().filter(|e| e.visible).count();

    assert!(wm.system_visible);
    assert_eq!(visible(&wm), 0);

    wm.navigate_to_profile(&uuid).expect("profile exists");
    assert!(!wm.system_visible);
    assert_eq!(visible(&wm), 1);

    wm.show_settings();
    assert!(wm.system_visible);
    assert_eq!(visible(&wm), 0);

    wm.navigate_to_profile(&uuid).expect("profile exists");
    assert!(!wm.system_visible);
    assert_eq!(visible(&wm), 1);

    wm.show_welcome();
    assert!(wm.system_visible);
    assert_eq!(visible(&wm), 0);
}

#[test]
fn updated_settings_survive_a_simulated_restart() {
    let mut wm = manager_with(Vec::new());
    let effects = wm.update_settings(true, false, false, true);

    let mut store = Store::new();
    store.apply_effects(&effects);

    let reloaded = store.load_settings();
    assert_eq!(
        reloaded,
        AppSettings {
            minimize_on_open: true,
            minimize_on_close: false,
            hide_on_close: false,
            enable_tray: true,
        }
    );
}

#[test]
fn resize_pushes_rail_and_content_bounds_to_every_surface() {
    let mut wm = manager_with(Vec::new());
    wm.add_profile("A".to_string(), "https://a.example".to_string(), None, None);
    let uuid = added_uuid(&wm);
    wm.navigate_to_profile(&uuid).expect("profile exists");
    wm.show_welcome();

    let effects = wm.handle_resize(1200, 800);
    assert_eq!(effects.len(), 3);
    match &effects[0] {
        Effect::SetRailBounds(r) => assert_eq!(*r, Rect { x: 0, y: 0, width: 70, height: 800 }),
        other => panic!("expected rail bounds, got {:?}", other),
    }
    match &effects[1] {
        Effect::SetContentBounds(r) => {
            assert_eq!(*r, Rect { x: 70, y: 0, width: 1130, height: 800 })
        }
        other => panic!("expected content bounds, got {:?}", other),
    }
    match &effects[2] {
        Effect::SetContextBounds { uuid: u, bounds } => {
            assert_eq!(u, &uuid);
            assert_eq!(*bounds, Rect { x: 70, y: 0, width: 1130, height: 800 });
        }
        other => panic!("expected context bounds for the hidden context, got {:?}", other),
    }
}

#[test]
fn resolving_a_menu_for_a_removed_profile_is_a_no_op() {
    let mut wm = manager_with(Vec::new());
    wm.add_profile("A".to_string(), "https://a.example".to_string(), None, None);
    let uuid = added_uuid(&wm);

    wm.show_profile_context_menu(uuid.clone(), 10, 20);
    wm.remove_profile(&uuid);
    assert!(wm.menu.target.is_none());

    let resolved = wm.resolve_menu_action(ProfileMenuAction::Remove);
    assert!(resolved.is_none());
    assert!(wm.data.profiles.is_empty());
}

#[test]
fn last_opened_menu_wins() {
    let mut wm = manager_with(Vec::new());
    wm.add_profile("A".to_string(), "https://a.example".to_string(), None, None);
    let a = added_uuid(&wm);
    wm.add_profile("B".to_string(), "https://b.example".to_string(), None, None);
    let b = added_uuid(&wm);

    wm.show_profile_context_menu(a, 0, 0);
    wm.show_profile_context_menu(b.clone(), 0, 0);

    match wm.resolve_menu_action(ProfileMenuAction::Edit) {
        Some(AppEvent::ShowEditProfile { uuid }) => assert_eq!(uuid, b),
        other => panic!("expected an edit event for the second profile, got {:?}", other),
    }
    assert!(wm.menu.target.is_none());
}

#[test]
fn context_pool_returns_the_same_identity_for_repeated_shows() {
    let mut wm = manager_with(Vec::new());
    wm.add_profile("A".to_string(), "https://a.example".to_string(), None, None);
    let a = added_uuid(&wm);
    wm.add_profile("B".to_string(), "https://b.example".to_string(), None, None);
    let b = added_uuid(&wm);

    let effects = wm.navigate_to_profile(&a).expect("profile exists");
    assert_eq!(effects.len(), 5);
    assert!(matches!(&effects[3], Effect::CreateContextView { .. }));
    let id_a_first = wm.pool.entries.iter().find(|e| e.uuid == a).unwrap().id;

    wm.navigate_to_profile(&b).expect("profile exists");

    let effects = wm.navigate_to_profile(&a).expect("profile exists");
    assert_eq!(effects.len(), 3, "a resident context is re-shown, not recreated");
    let id_a_second = wm.pool.entries.iter().find(|e| e.uuid == a).unwrap().id;

    assert_eq!(id_a_first, id_a_second);
    assert_eq!(wm.pool.entries.len(), 2);
}

#[test]
fn removing_an_inactive_profile_keeps_the_current_view() {
    let mut wm = manager_with(Vec::new());
    wm.add_profile("A".to_string(), "https://a.example".to_string(), None, None);
    let a = added_uuid(&wm);
    wm.add_profile("B".to_string(), "https://b.example".to_string(), None, None);
    let b = added_uuid(&wm);

    wm.navigate_to_profile(&a).expect("profile exists");
    assert!(matches!(wm.view_state, ViewState::ProfileActive(_)));

    wm.remove_profile(&b);
    match &wm.view_state {
        ViewState::ProfileActive(u) => assert_eq!(u, &a),
        other => panic!("expected the first profile to stay active, got {:?}", other),
    }
    assert!(!wm.system_visible);
    assert_eq!(wm.data.profiles.len(), 1);

    wm.remove_profile(&a);
    assert!(matches!(wm.view_state, ViewState::Welcome));
    assert!(wm.system_visible);
}

#[test]
fn close_policy_follows_the_settings_at_request_time() {
    let mut wm = manager_with(Vec::new());

    // Defaults hide on close.
    let effects = wm.close_requested();
    assert_eq!(effects.len(), 1);
    assert!(matches!(effects[0], Effect::SetWindowVisible(false)));
    assert!(!wm.window_visible);

    wm.update_settings(false, true, false, true);
    let effects = wm.close_requested();
    assert_eq!(effects.len(), 1);
    assert!(matches!(effects[0], Effect::MinimizeWindow));

    wm.update_settings(false, false, false, true);
    let effects = wm.close_requested();
    assert_eq!(effects.len(), 1);
    assert!(matches!(effects[0], Effect::Exit));
}

#[test]
fn tray_toggle_flips_visibility_and_focuses_on_show() {
    let mut wm = manager_with(Vec::new());
    assert!(wm.window_visible);

    let effects = wm.toggle_window();
    assert_eq!(effects.len(), 1);
    assert!(matches!(effects[0], Effect::SetWindowVisible(false)));

    let effects = wm.toggle_window();
    assert_eq!(effects.len(), 2);
    assert!(matches!(effects[0], Effect::SetWindowVisible(true)));
    assert!(matches!(effects[1], Effect::FocusWindow));
}

#[test]
fn run_tick_drains_the_queue_in_order() {
    let mut wm = manager_with(Vec::new());
    let mut queue = EventQueue::new();
    queue.enqueue(AppEvent::AddProfile {
        name: "A".to_string(),
        url: "https://a.example".to_string(),
        icon_path: None,
        user_agent: None,
    });
    queue.enqueue(AppEvent::ShowAddProfileForm);

    let effects = wm.run_tick(&mut queue);

    assert_eq!(queue.events.len(), 0);
    assert_eq!(wm.data.profiles.len(), 1);
    assert!(matches!(wm.view_state, ViewState::AddProfileForm));

    // The effects are the two events' effects, concatenated in order.
    assert_eq!(effects.len(), 6);
    assert!(matches!(effects[0], Effect::SaveProfiles(_)));
    assert!(matches!(
        effects[5],
        Effect::ShowSystemSurface(SystemScreen::AddProfileForm)
    ));
}

#[test]
fn edit_form_is_prefilled_with_the_profile() {
    let mut wm = manager_with(Vec::new());
    wm.add_profile(
        "A".to_string(),
        "https://a.example".to_string(),
        Some("icons/a.png".to_string()),
        None,
    );
    let uuid = added_uuid(&wm);

    let effects = wm.show_edit_profile(&uuid).expect("profile exists");
    assert_eq!(effects.len(), 2);
    match &effects[1] {
        Effect::ShowSystemSurface(SystemScreen::EditProfileForm(p)) => {
            assert_eq!(p.uuid, uuid);
            assert_eq!(p.name, "A");
            assert_eq!(p.icon_path.as_deref(), Some("icons/a.png"));
        }
        other => panic!("expected the edit form, got {:?}", other),
    }
    assert!(matches!(wm.view_state, ViewState::EditProfile(_)));

    assert!(matches!(wm.show_edit_profile("missing"), Err(UiError::NotFound)));
}

#[test]
fn update_profile_overwrites_fields_but_never_the_uuid() {
    let mut wm = manager_with(Vec::new());
    wm.add_profile("A".to_string(), "https://a.example".to_string(), None, None);
    let uuid = added_uuid(&wm);

    wm.update_profile(
        uuid.clone(),
        "B".to_string(),
        "https://b.example".to_string(),
        None,
        Some("agent".to_string()),
    )
    .expect("profile exists");

    assert_eq!(wm.data.profiles.len(), 1);
    assert_eq!(wm.data.profiles[0].uuid, uuid);
    assert_eq!(wm.data.profiles[0].name, "B");
    assert_eq!(wm.data.profiles[0].url, "https://b.example");
    assert_eq!(wm.data.profiles[0].user_agent.as_deref(), Some("agent"));
    assert!(wm.data.profiles[0].auto_hibernate);

    let missing = wm.update_profile(
        "missing".to_string(),
        "C".to_string(),
        "https://c.example".to_string(),
        None,
        None,
    );
    assert!(matches!(missing, Err(UiError::NotFound)));
    assert_eq!(wm.data.profiles[0].name, "B");
}

#[test]
fn reload_reaches_only_resident_contexts() {
    let mut wm = manager_with(Vec::new());
    wm.add_profile("A".to_string(), "https://a.example".to_string(), None, None);
    let uuid = added_uuid(&wm);

    assert!(matches!(wm.reload_profile(&uuid), Err(UiError::NotFound)));

    wm.navigate_to_profile(&uuid).expect("profile exists");
    wm.update_profile(
        uuid.clone(),
        "A".to_string(),
        "https://a2.example".to_string(),
        None,
        None,
    )
    .expect("profile exists");

    let effects = wm.reload_profile(&uuid).expect("context resident");
    assert_eq!(effects.len(), 1);
    match &effects[0] {
        Effect::ReloadContextView { uuid: u, url } => {
            assert_eq!(u, &uuid);
            assert_eq!(url, "https://a2.example");
        }
        other => panic!("expected a reload, got {:?}", other),
    }
}

#[test]
fn icon_refresh_is_reserved_and_changes_nothing() {
    let mut wm = manager_with(Vec::new());
    wm.add_profile("A".to_string(), "https://a.example".to_string(), None, None);
    let uuid = added_uuid(&wm);
    let effects = wm.update_profile_icon(&uuid);
    assert!(effects.is_empty());
}

#[test]
fn stale_icon_fetch_results_are_discarded() {
    let mut wm = manager_with(Vec::new());
    wm.add_profile("A".to_string(), "https://a.example".to_string(), None, None);
    let uuid = added_uuid(&wm);

    // A live result lands in the profile's partition and refreshes the rail.
    let effects = wm.icon_fetched(&uuid, "png");
    assert_eq!(effects.len(), 2);
    assert_eq!(
        wm.data.profiles[0].icon_path.as_deref(),
        Some(format!("profiles/{}/icon.png", uuid).as_str())
    );

    // A result for a removed profile is dropped without error.
    wm.remove_profile(&uuid);
    let effects = wm.icon_fetched(&uuid, "png");
    assert!(effects.is_empty());
    assert!(wm.data.profiles.is_empty());
}

#[test]
fn startup_effects_follow_the_settings() {
    let (_wm, effects) = WindowManager::new(Vec::new(), AppSettings::default());
    assert_eq!(effects.len(), 2);
    assert!(matches!(
        effects[0],
        Effect::ShowSystemSurface(SystemScreen::Welcome)
    ));
    assert!(matches!(effects[1], Effect::SetupTray));

    let minimized = AppSettings {
        minimize_on_open: true,
        minimize_on_close: false,
        hide_on_close: true,
        enable_tray: false,
    };
    let (_wm, effects) = WindowManager::new(Vec::new(), minimized);
    assert_eq!(effects.len(), 2);
    assert!(matches!(
        effects[0],
        Effect::ShowSystemSurface(SystemScreen::Welcome)
    ));
    assert!(matches!(effects[1], Effect::MinimizeWindow));
}

#[test]
fn ipc_handler_answers_the_request_response_subset() {
    let mut handler = IpcHandler::new(create_app_state());

    let added = handler.handle_message(IpcMessage::AddProfile {
        name: "Svc".to_string(),
        url: "https://svc.example".to_string(),
        icon_path: None,
        user_agent: Some("agent".to_string()),
    });
    let uuid = match added {
        Some(IpcMessage::ProfileAdded { profile }) => {
            assert_eq!(profile.name, "Svc");
            assert_eq!(profile.uuid.len(), 36);
            profile.uuid
        }
        other => panic!("expected a profile-added notification, got {:?}", other),
    };

    match handler.handle_message(IpcMessage::GetProfiles) {
        Some(IpcMessage::ProfilesList { profiles }) => {
            assert_eq!(profiles.len(), 1);
            assert_eq!(profiles[0].uuid, uuid);
        }
        other => panic!("expected the profile list, got {:?}", other),
    }

    match handler.handle_message(IpcMessage::ShowProfile { uuid: uuid.clone() }) {
        Some(IpcMessage::NavigateToUrl { url, user_agent }) => {
            assert_eq!(url, "https://svc.example");
            assert_eq!(user_agent.as_deref(), Some("agent"));
        }
        other => panic!("expected a navigation, got {:?}", other),
    }

    match handler.handle_message(IpcMessage::ShowProfile { uuid: "missing".to_string() }) {
        Some(IpcMessage::Error { message }) => assert_eq!(message, "Profile not found"),
        other => panic!("expected an error notification, got {:?}", other),
    }

    match handler.handle_message(IpcMessage::RemoveProfile { uuid: uuid.clone() }) {
        Some(IpcMessage::ProfileRemoved { uuid: removed }) => assert_eq!(removed, uuid),
        other => panic!("expected a profile-removed notification, got {:?}", other),
    }
    assert!(handler.state.profiles.is_empty());

    assert!(handler.handle_message(IpcMessage::ShowWelcome).is_none());
}

#[test]
fn corrupt_or_missing_files_recover_to_defaults() {
    let store = Store {
        profiles_file: StoredFile::Corrupt,
        settings_file: StoredFile::Corrupt,
        partitions: Vec::new(),
    };
    assert!(store.load_profiles().is_empty());
    assert_eq!(store.load_settings(), AppSettings::default());

    let fresh = Store::new();
    assert!(fresh.load_profiles().is_empty());
    let defaults = fresh.load_settings();
    assert!(!defaults.minimize_on_open);
    assert!(!defaults.minimize_on_close);
    assert!(defaults.hide_on_close);
    assert!(defaults.enable_tray);
}

#[test]
fn quit_event_asks_the_loop_to_exit() {
    let mut wm = manager_with(Vec::new());
    let effects = wm.apply_event(AppEvent::Quit);
    assert_eq!(effects.len(), 1);
    assert!(matches!(effects[0], Effect::Exit));
}
