//! Core of a multi-profile desktop shell: a single window hosts several
//! isolated web sessions ("profiles"), switchable through a persistent side
//! rail.  This crate holds the verified logic of that shell — the profile
//! registry and settings, the browsing-context pool, the view-state machine,
//! the context-menu and tray controllers, the event queue and the layout
//! rules — as plain data and transition functions.  The platform layer
//! (window, embedded views, disk, network) consumes the effect lists these
//! functions return.

pub mod profile;
pub mod strutil;
pub mod layout;
pub mod pool;
pub mod menu;
pub mod effects;
pub mod store;
pub mod window;
pub mod ipc;
pub mod favicon;
pub mod assets;
