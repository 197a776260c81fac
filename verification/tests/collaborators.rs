use feather_alloy::assets::{asset_mime_type, asset_request_path, request_target, static_content_type};
use feather_alloy::favicon::{
    extension_of_path, fallback_sources, icon_extension, icon_hrefs_to_try, pick_icon_href,
    IconLink,
};
use feather_alloy::layout::{content_bounds, toolbar_bounds, Rect, TOOLBAR_WIDTH};
use feather_alloy::ipc::IpcMessage;
use feather_alloy::menu::TrayAction;
use feather_alloy::profile::WebProfile;
use feather_alloy::store::icon_relative_path;
use feather_alloy::strutil::{contains_sub, str_eq};
use feather_alloy::window::{toolbar_event_for, tray_event, welcome_event_for, AppEvent, UiError};

#[test]
fn rail_and_content_bounds_split_the_window() {
    assert_eq!(TOOLBAR_WIDTH, 70);
    assert_eq!(
        toolbar_bounds(600),
        Rect { x: 0, y: 0, width: 70, height: 600 }
    );
    assert_eq!(
        content_bounds(800, 600),
        Rect { x: 70, y: 0, width: 730, height: 600 }
    );
}

#[test]
fn substring_search_and_equality() {
    assert!(contains_sub("apple-touch-icon", "icon"));
    assert!(contains_sub("icon", ""));
    assert!(!contains_sub("stylesheet", "icon"));
    assert!(!contains_sub("ico", "icon"));
    assert!(str_eq("icon", "icon"));
    assert!(!str_eq("icon", "Icon"));
}

#[test]
fn icon_candidates_are_scored_and_the_first_best_wins() {
    let links = vec![
        IconLink { rel: "stylesheet".to_string(), href: "/style.css".to_string() },
        IconLink { rel: "SHORTCUT ICON".to_string(), href: "/favicon.ico".to_string() },
        IconLink { rel: "Icon".to_string(), href: "/plain.png".to_string() },
        IconLink { rel: "apple-touch-icon".to_string(), href: "/touch.png".to_string() },
        IconLink { rel: "apple-touch-icon-precomposed".to_string(), href: "/late.png".to_string() },
    ];
    assert_eq!(pick_icon_href(&links).as_deref(), Some("/touch.png"));

    let ties = vec![
        IconLink { rel: "icon".to_string(), href: "/first.png".to_string() },
        IconLink { rel: "icon".to_string(), href: "/second.png".to_string() },
    ];
    assert_eq!(pick_icon_href(&ties).as_deref(), Some("/first.png"));

    let none = vec![IconLink { rel: "stylesheet".to_string(), href: "/style.css".to_string() }];
    assert_eq!(pick_icon_href(&none), None);

    // An upper-case rel only qualifies because it is folded first.
    let upper = vec![IconLink { rel: "ICON".to_string(), href: "/upper.png".to_string() }];
    assert_eq!(pick_icon_href(&upper).as_deref(), Some("/upper.png"));
}

#[test]
fn icon_attempts_default_to_the_root_icon_and_retry_it_once() {
    // A declared icon is tried first, the root icon second.
    let links = vec![IconLink { rel: "icon".to_string(), href: "/logo.png".to_string() }];
    assert_eq!(icon_hrefs_to_try(&links), vec!["/logo.png", "/favicon.ico"]);

    // No declared icon: only the root attempt.
    let none = vec![IconLink { rel: "stylesheet".to_string(), href: "/style.css".to_string() }];
    assert_eq!(icon_hrefs_to_try(&none), vec!["/favicon.ico"]);

    // An empty reference falls back to the root attempt alone.
    let empty = vec![IconLink { rel: "icon".to_string(), href: "".to_string() }];
    assert_eq!(icon_hrefs_to_try(&empty), vec!["/favicon.ico"]);

    // A declared root icon gets no separate retry.
    let root = vec![IconLink { rel: "icon".to_string(), href: "/favicon.ico".to_string() }];
    assert_eq!(icon_hrefs_to_try(&root), vec!["/favicon.ico"]);
}

#[test]
fn tray_entries_toggle_or_quit() {
    assert!(matches!(tray_event(TrayAction::Toggle), AppEvent::ToggleWindow));
    assert!(matches!(tray_event(TrayAction::Quit), AppEvent::Quit));
}

#[test]
fn icon_extension_prefers_the_content_type() {
    assert_eq!(icon_extension(Some("image/png"), "/favicon.ico"), "png");
    assert_eq!(icon_extension(Some("image/svg+xml"), "/x"), "svg");
    assert_eq!(icon_extension(Some("image/jpeg"), "/x"), "jpg");
    assert_eq!(icon_extension(Some("image/webp"), "/x"), "webp");
    assert_eq!(icon_extension(Some("image/x-icon"), "/x"), "ico");
    assert_eq!(icon_extension(Some("text/plain"), "/site/favicon.ico"), "ico");
    assert_eq!(icon_extension(None, "/assets/logo.svg"), "svg");
    assert_eq!(extension_of_path("noext"), "noext");
}

#[test]
fn fallback_sources_try_root_domain_then_icon_service() {
    let sources = fallback_sources("https://mail.example.com/inbox");
    assert_eq!(sources.len(), 2);
    assert_eq!(sources[0], "https://example.com");
    assert_eq!(
        sources[1],
        "https://www.google.com/s2/favicons?domain=mail.example.com&sz=128"
    );

    let sources = fallback_sources("https://example.com");
    assert_eq!(sources.len(), 1);
    assert_eq!(
        sources[0],
        "https://www.google.com/s2/favicons?domain=example.com&sz=128"
    );

    assert!(fallback_sources("not a url").is_empty());
    assert!(fallback_sources("https://127.0.0.1/").is_empty());
}

#[test]
fn mime_types_follow_the_extension() {
    assert_eq!(asset_mime_type("png"), "image/png");
    assert_eq!(asset_mime_type("svg"), "image/svg+xml");
    assert_eq!(asset_mime_type("ico"), "image/x-icon");
    assert_eq!(asset_mime_type("html"), "text/html");
    assert_eq!(asset_mime_type("css"), "text/css");
    assert_eq!(asset_mime_type("js"), "text/javascript");
    assert_eq!(asset_mime_type("bin"), "application/octet-stream");

    assert_eq!(static_content_type("html"), "text/html");
    assert_eq!(static_content_type("js"), "application/javascript");
    assert_eq!(static_content_type("json"), "application/json");
    assert_eq!(static_content_type("jpeg"), "image/jpeg");
    assert_eq!(static_content_type("woff"), "application/octet-stream");
}

#[test]
fn asset_paths_are_rejoined_and_stripped() {
    assert_eq!(asset_request_path(Some("icons"), "/32x32.png"), "icons/32x32.png");
    assert_eq!(asset_request_path(None, "/icons/a.png"), "icons/a.png");
    assert_eq!(asset_request_path(None, "plain.png"), "plain.png");
}

#[test]
fn request_target_is_the_second_token_or_root() {
    assert_eq!(request_target("GET /ui/index.html HTTP/1.1"), "/ui/index.html");
    assert_eq!(request_target("GET / HTTP/1.1"), "/");
    assert_eq!(request_target("GET"), "/");
    assert_eq!(request_target(""), "/");
    assert_eq!(request_target("  GET   /spaced  "), "/spaced");
}

#[test]
fn profiles_are_created_with_fresh_ids_and_the_reserved_flag() {
    let a = WebProfile::new("A".to_string(), "https://a.example".to_string(), None, None);
    let b = WebProfile::new("A".to_string(), "https://a.example".to_string(), None, None);
    assert_eq!(a.uuid.len(), 36);
    assert_eq!(b.uuid.len(), 36);
    assert_ne!(a.uuid, b.uuid);
    assert!(a.auto_hibernate);
    assert_eq!(a.icon_path, None);
}

#[test]
fn saved_icons_live_inside_the_profile_partition() {
    assert_eq!(icon_relative_path("u-1", "png"), "profiles/u-1/icon.png");
}

#[test]
fn surface_messages_route_to_events() {
    assert!(matches!(
        toolbar_event_for(IpcMessage::GetProfiles),
        Some(AppEvent::UpdateToolbar)
    ));
    assert!(matches!(
        toolbar_event_for(IpcMessage::ShowSettings),
        Some(AppEvent::ShowSettings)
    ));
    match toolbar_event_for(IpcMessage::EditProfile { uuid: "u".to_string() }) {
        Some(AppEvent::ShowEditProfile { uuid }) => assert_eq!(uuid, "u"),
        other => panic!("expected an edit event, got {:?}", other),
    }
    assert!(toolbar_event_for(IpcMessage::QuitApp).is_none());

    assert!(matches!(
        welcome_event_for(IpcMessage::QuitApp),
        Some(AppEvent::Quit)
    ));
    match welcome_event_for(IpcMessage::AddProfile {
        name: "n".to_string(),
        url: "https://u.example".to_string(),
        icon_path: None,
        user_agent: None,
    }) {
        Some(AppEvent::AddProfile { name, url, .. }) => {
            assert_eq!(name, "n");
            assert_eq!(url, "https://u.example");
        }
        other => panic!("expected an add event, got {:?}", other),
    }
    assert!(welcome_event_for(IpcMessage::GetProfiles).is_none());
}

#[test]
fn not_found_reads_as_a_message() {
    assert_eq!(UiError::NotFound.message(), "Profile not found");
}
