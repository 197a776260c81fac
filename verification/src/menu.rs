//! The ephemeral per-profile context menu and the background tray menu.
//! The menu controller tracks at most one pending target: the uuid bound
//! when a context menu opens, consumed exactly once when an action resolves,
//! or discarded when the menu is dismissed or the profile is removed first.

use vstd::prelude::*;

verus! {

/// The four actions a profile's context menu can resolve to.
#[derive(Clone, Copy, PartialEq, Eq, Structural, Debug)]
pub enum ProfileMenuAction {
    Reload,
    UpdateIcon,
    Edit,
    Remove,
}

/// The two entries of the background tray menu.
#[derive(Clone, Copy, PartialEq, Eq, Structural, Debug)]
pub enum TrayAction {
    Toggle,
    Quit,
}

/// Tracks the profile a context menu was opened for.
pub struct MenuController {
    pub target: Option<String>,
}

impl MenuController {
    /// No menu pending.
    pub fn new() -> (r: Self)
        ensures
            r.target is None,
    {
        MenuController { target: None }
    }

    /// Binds the menu to a profile.  Opening a new menu supersedes any prior
    /// unresolved target: last-opened wins.
    pub fn open_for(&mut self, uuid: String)
        ensures
            final(self).target == Some(uuid),
    {
        self.target = Some(uuid);
    }

    /// Discards the pending target without resolving it.
    pub fn dismiss(&mut self)
        ensures
            final(self).target is None,
    {
        self.target = None;
    }

    /// Consumes the pending target: resolution happens at most once per
    /// opened menu.
    pub fn take_target(&mut self) -> (r: Option<String>)
        ensures
            final(self).target is None,
            r == old(self).target,
    {
        let mut t: Option<String> = None;
        core::mem::swap(&mut t, &mut self.target);
        t
    }

    /// Drops the pending target when it refers to the given profile: a
    /// removed profile leaves no dangling menu target behind.
    pub fn clear_if(&mut self, uuid: &str)
        ensures
            final(self).target == match old(self).target {
                Some(t) => if t@ == uuid@ { None } else { Some(t) },
                None => None::<String>,
            },
    {
        let clear = match &self.target {
            Some(t) => crate::strutil::str_eq(t.as_str(), uuid),
            None => false,
        };
        if clear {
            self.target = None;
        }
    }
}

} // verus!
