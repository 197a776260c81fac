//! Profile registry and application settings: the single shared data
//! container behind every surface of the shell.

use vstd::prelude::*;

verus! {

/// A named, addressable, isolated web session identity: a destination url
/// plus an optional icon and user-agent override.  Owned by the registry and
/// referenced by uuid everywhere else.
#[derive(Debug)]
pub struct WebProfile {
    pub uuid: String,
    pub name: String,
    pub url: String,
    pub icon_path: Option<String>,
    pub user_agent: Option<String>,
    /// Reserved flag; no behaviour consumes it yet.
    pub auto_hibernate: bool,
}

impl Clone for WebProfile {
    fn clone(&self) -> (r: Self)
        ensures
            r == *self,
    {
        WebProfile {
            uuid: self.uuid.clone(),
            name: self.name.clone(),
            url: self.url.clone(),
            icon_path: clone_opt_string(&self.icon_path),
            user_agent: clone_opt_string(&self.user_agent),
            auto_hibernate: self.auto_hibernate,
        }
    }
}

/// Clones an optional string, keeping its value exactly.
pub fn clone_opt_string(o: &Option<String>) -> (r: Option<String>)
    ensures
        r == *o,
{
    match o {
        Some(s) => Some(s.clone()),
        None => None,
    }
}

/// The number of characters in the hyphenated form of a generated id.
pub const UUID_LEN: usize = 36;

/// Relies on `uuid::Uuid::new_v4` and its `Display` form: a freshly drawn
/// random version-4 id, rendered as the 36-character hyphenated string.  The
/// draw is random, so nothing is promised beyond the length.
#[verifier::external_body]
fn fresh_uuid_string() -> (r: String)
    ensures
        r@.len() == UUID_LEN,
{
    uuid::Uuid::new_v4().to_string()
}

impl WebProfile {
    /// Creates a profile with a freshly generated uuid and the given fields.
    pub fn new(
        name: String,
        url: String,
        icon_path: Option<String>,
        user_agent: Option<String>,
    ) -> (r: Self)
        ensures
            r.uuid@.len() == UUID_LEN,
            r.name == name,
            r.url == url,
            r.icon_path == icon_path,
            r.user_agent == user_agent,
            r.auto_hibernate == true,
    {
        WebProfile {
            uuid: fresh_uuid_string(),
            name,
            url,
            icon_path,
            user_agent,
            auto_hibernate: true,
        }
    }
}

/// Boolean policy flags, one instance per application.
#[derive(Clone, Copy, PartialEq, Eq, Structural, Debug)]
pub struct AppSettings {
    pub minimize_on_open: bool,
    pub minimize_on_close: bool,
    pub hide_on_close: bool,
    pub enable_tray: bool,
}

/// The default policy: keep running hidden, with the tray available.
pub open spec fn default_settings() -> AppSettings {
    AppSettings {
        minimize_on_open: false,
        minimize_on_close: false,
        hide_on_close: true,
        enable_tray: true,
    }
}

impl Default for AppSettings {
    fn default() -> (r: Self)
        ensures
            r == default_settings(),
    {
        AppSettings {
            minimize_on_open: false,
            minimize_on_close: false,
            hide_on_close: true,
            enable_tray: true,
        }
    }
}

/// The single shared mutable container holding the profile list and the
/// settings.  Handlers receive it as an explicit context object.
pub struct AppData {
    pub profiles: Vec<WebProfile>,
    pub settings: AppSettings,
}

/// A fresh application state: no profiles, default settings.
pub fn create_app_state() -> (r: AppData)
    ensures
        r.profiles@.len() == 0,
        r.settings == default_settings(),
{
    AppData { profiles: Vec::new(), settings: AppSettings::default() }
}

/// Whether some entry of the registry carries the given uuid.
pub open spec fn registry_contains(profiles: Seq<WebProfile>, uuid: Seq<char>) -> bool {
    exists|i: int| 0 <= i < profiles.len() && #[trigger] profiles[i].uuid@ == uuid
}

/// The registry with every entry carrying the given uuid removed.
pub open spec fn profiles_without(profiles: Seq<WebProfile>, uuid: Seq<char>) -> Seq<WebProfile>
    decreases profiles.len(),
{
    if profiles.len() == 0 {
        Seq::empty()
    } else {
        let rest = profiles_without(profiles.drop_last(), uuid);
        if profiles.last().uuid@ == uuid {
            rest
        } else {
            rest.push(profiles.last())
        }
    }
}

/// The index of the first registry entry with the given uuid, or -1.
pub open spec fn first_index_with(profiles: Seq<WebProfile>, uuid: Seq<char>) -> int
    decreases profiles.len(),
{
    if profiles.len() == 0 {
        -1
    } else if profiles[0].uuid@ == uuid {
        0
    } else {
        let r = first_index_with(profiles.drop_first(), uuid);
        if r < 0 {
            -1
        } else {
            r + 1
        }
    }
}

/// `first_index_with` finds exactly the first match.
pub proof fn lemma_first_index_with(profiles: Seq<WebProfile>, uuid: Seq<char>)
    ensures
        registry_contains(profiles, uuid) <==> 0 <= first_index_with(profiles, uuid),
        0 <= first_index_with(profiles, uuid) ==> {
            &&& first_index_with(profiles, uuid) < profiles.len()
            &&& profiles[first_index_with(profiles, uuid)].uuid@ == uuid
            &&& forall|j: int|
                0 <= j < first_index_with(profiles, uuid) ==> #[trigger] profiles[j].uuid@ != uuid
        },
    decreases profiles.len(),
{
    if profiles.len() > 0 {
        if profiles[0].uuid@ == uuid {
        } else {
            let rest = profiles.drop_first();
            lemma_first_index_with(rest, uuid);
            assert forall|i: int|
                0 <= i < profiles.len() && #[trigger] profiles[i].uuid@ == uuid implies
                registry_contains(rest, uuid) by {
                assert(rest[i - 1].uuid@ == uuid);
            }
            if registry_contains(rest, uuid) {
                let i = choose|i: int| 0 <= i < rest.len() && #[trigger] rest[i].uuid@ == uuid;
                assert(profiles[i + 1].uuid@ == uuid);
            }
            let r = first_index_with(profiles, uuid);
            if 0 <= r {
                assert forall|j: int| 0 <= j < r implies #[trigger] profiles[j].uuid@ != uuid by {
                    if j > 0 {
                        assert(rest[j - 1].uuid@ != uuid);
                    }
                }
            }
        }
    }
}

/// Appending an entry keeps every present uuid present, and makes the new
/// entry's uuid present.
pub proof fn lemma_registry_grow(profiles: Seq<WebProfile>, p: WebProfile)
    ensures
        forall|u: Seq<char>|
            #[trigger] registry_contains(profiles, u) ==> registry_contains(profiles.push(p), u),
        registry_contains(profiles.push(p), p.uuid@),
{
    assert forall|u: Seq<char>| #[trigger] registry_contains(profiles, u) implies registry_contains(
        profiles.push(p),
        u,
    ) by {
        let i = choose|i: int| 0 <= i < profiles.len() && #[trigger] profiles[i].uuid@ == u;
        assert(profiles.push(p)[i].uuid@ == u);
    }
    assert(profiles.push(p)[profiles.len() as int].uuid@ == p.uuid@);
}

/// Removing one uuid keeps every other present uuid present.
pub proof fn lemma_registry_keep(profiles: Seq<WebProfile>, uuid: Seq<char>)
    ensures
        forall|u: Seq<char>|
            u != uuid && #[trigger] registry_contains(profiles, u) ==> registry_contains(
                profiles_without(profiles, uuid),
                u,
            ),
{
    lemma_profiles_without_spec(profiles, uuid);
    assert forall|u: Seq<char>|
        u != uuid && #[trigger] registry_contains(profiles, u) implies registry_contains(
        profiles_without(profiles, uuid),
        u,
    ) by {
        let i = choose|i: int| 0 <= i < profiles.len() && #[trigger] profiles[i].uuid@ == u;
        assert(profiles_without(profiles, uuid).contains(profiles[i]));
        let j = choose|j: int|
            0 <= j < profiles_without(profiles, uuid).len() && profiles_without(profiles, uuid)[j]
                == profiles[i];
        assert(profiles_without(profiles, uuid)[j].uuid@ == u);
    }
}

/// No two registry entries share a uuid.
pub open spec fn uuids_unique(profiles: Seq<WebProfile>) -> bool {
    forall|i: int, j: int|
        0 <= i < j < profiles.len() ==> #[trigger] profiles[i].uuid@ != #[trigger] profiles[j].uuid@
}

/// Removal removes every entry with the uuid and keeps every other entry, in
/// order.
pub proof fn lemma_profiles_without_spec(profiles: Seq<WebProfile>, uuid: Seq<char>)
    ensures
        !registry_contains(profiles_without(profiles, uuid), uuid),
        forall|i: int|
            0 <= i < profiles_without(profiles, uuid).len()
                ==> #[trigger] profiles_without(profiles, uuid)[i].uuid@ != uuid,
        forall|i: int|
            0 <= i < profiles.len() && profiles[i].uuid@ != uuid
                ==> #[trigger] profiles_without(profiles, uuid).contains(profiles[i]),
        profiles_without(profiles, uuid).len() <= profiles.len(),
    decreases profiles.len(),
{
    if profiles.len() > 0 {
        lemma_profiles_without_spec(profiles.drop_last(), uuid);
        let r = profiles_without(profiles, uuid);
        let rest = profiles_without(profiles.drop_last(), uuid);
        assert forall|i: int|
            0 <= i < profiles.len() && profiles[i].uuid@ != uuid implies #[trigger] profiles_without(
            profiles,
            uuid,
        ).contains(profiles[i]) by {
            if i < profiles.len() - 1 {
                assert(profiles.drop_last()[i] == profiles[i]);
                assert(rest.contains(profiles.drop_last()[i]));
                let j = choose|j: int| 0 <= j < rest.len() && rest[j] == profiles[i];
                assert(r[j] == profiles[i]);
            } else {
                assert(r.last() == profiles[i]);
            }
        }
        assert forall|i: int| 0 <= i < r.len() implies #[trigger] r[i].uuid@ != uuid by {
            if i < rest.len() {
                assert(rest[i].uuid@ != uuid);
            }
        }
    }
}

/// Removal preserves uuid uniqueness, and pushing an entry whose uuid is
/// absent preserves it too: a uuid is unique once assigned.
pub proof fn lemma_uuid_uniqueness_preserved(profiles: Seq<WebProfile>, p: WebProfile, uuid: Seq<char>)
    ensures
        uuids_unique(profiles) && !registry_contains(profiles, p.uuid@) ==> uuids_unique(
            profiles.push(p),
        ),
        uuids_unique(profiles) ==> uuids_unique(profiles_without(profiles, uuid)),
    decreases profiles.len(),
{
    if uuids_unique(profiles) && !registry_contains(profiles, p.uuid@) {
        let s = profiles.push(p);
        assert forall|i: int, j: int| 0 <= i < j < s.len() implies #[trigger] s[i].uuid@
            != #[trigger] s[j].uuid@ by {
            if j == profiles.len() {
                assert(s[i] == profiles[i]);
            }
        }
    }
    if uuids_unique(profiles) && profiles.len() > 0 {
        lemma_uuid_uniqueness_preserved(profiles.drop_last(), p, uuid);
        assert(uuids_unique(profiles.drop_last()));
        let rest = profiles_without(profiles.drop_last(), uuid);
        let r = profiles_without(profiles, uuid);
        if profiles.last().uuid@ != uuid {
            lemma_profiles_without_subset(profiles.drop_last(), uuid);
            assert forall|i: int, j: int| 0 <= i < j < r.len() implies #[trigger] r[i].uuid@
                != #[trigger] r[j].uuid@ by {
                if j < rest.len() {
                } else {
                    assert(r[j] == profiles.last());
                    assert(rest.contains(rest[i]));
                    let k = choose|k: int|
                        0 <= k < profiles.drop_last().len() && profiles.drop_last()[k] == rest[i];
                    assert(profiles[k] == rest[i]);
                    assert(profiles[k].uuid@ != profiles.last().uuid@);
                }
            }
        }
    }
}

/// Every entry that removal keeps was present before.
pub proof fn lemma_profiles_without_subset(profiles: Seq<WebProfile>, uuid: Seq<char>)
    ensures
        forall|i: int|
            0 <= i < profiles_without(profiles, uuid).len()
                ==> profiles.contains(#[trigger] profiles_without(profiles, uuid)[i]),
    decreases profiles.len(),
{
    if profiles.len() > 0 {
        lemma_profiles_without_subset(profiles.drop_last(), uuid);
        let rest = profiles_without(profiles.drop_last(), uuid);
        let r = profiles_without(profiles, uuid);
        assert forall|i: int| 0 <= i < r.len() implies profiles.contains(#[trigger] r[i]) by {
            if i < rest.len() {
                let k = choose|k: int|
                    0 <= k < profiles.drop_last().len() && profiles.drop_last()[k] == rest[i];
                assert(profiles[k] == r[i]);
            } else {
                assert(r[i] == profiles.last());
                assert(profiles[profiles.len() - 1] == r[i]);
            }
        }
    }
}

impl AppData {
    /// The index of the first registry entry with the given uuid, if any.
    pub fn find_profile_index(&self, uuid: &str) -> (r: Option<usize>)
        ensures
            match r {
                Some(i) => i < self.profiles@.len() && self.profiles@[i as int].uuid@ == uuid@
                    && forall|j: int| 0 <= j < i ==> #[trigger] self.profiles@[j].uuid@ != uuid@,
                None => !registry_contains(self.profiles@, uuid@),
            },
    {
        let n = self.profiles.len();
        let mut i: usize = 0;
        while i < n
            invariant
                n == self.profiles@.len(),
                i <= n,
                forall|j: int| 0 <= j < i ==> #[trigger] self.profiles@[j].uuid@ != uuid@,
            decreases n - i,
        {
            if crate::strutil::str_eq(self.profiles[i].uuid.as_str(), uuid) {
                return Some(i);
            }
            i = i + 1;
        }
        None
    }

    /// Appends a profile to the registry.
    pub fn push_profile(&mut self, p: WebProfile)
        ensures
            final(self).profiles@ == old(self).profiles@.push(p),
            final(self).settings == old(self).settings,
    {
        self.profiles.push(p);
    }

    /// Drops every registry entry with the given uuid, keeping the rest in
    /// order.
    pub fn remove_profile_entries(&mut self, uuid: &str)
        ensures
            final(self).profiles@ == profiles_without(old(self).profiles@, uuid@),
            final(self).settings == old(self).settings,
    {
        let n = self.profiles.len();
        let mut kept: Vec<WebProfile> = Vec::new();
        let mut i: usize = 0;
        while i < n
            invariant
                n == self.profiles@.len(),
                i <= n,
                kept@ == profiles_without(self.profiles@.subrange(0, i as int), uuid@),
            decreases n - i,
        {
            let p = self.profiles[i].clone();
            proof {
                let pre = self.profiles@.subrange(0, i as int);
                let cur = self.profiles@.subrange(0, i + 1 as int);
                assert(cur.drop_last() =~= pre);
                assert(cur.last() == self.profiles@[i as int]);
            }
            if !crate::strutil::str_eq(p.uuid.as_str(), uuid) {
                kept.push(p);
            }
            i = i + 1;
        }
        proof {
            assert(self.profiles@.subrange(0, n as int) =~= self.profiles@);
        }
        self.profiles = kept;
    }

    /// A copy of the registry, for rendering and notifications.
    pub fn get_profiles(&self) -> (r: Vec<WebProfile>)
        ensures
            r@ == self.profiles@,
    {
        let n = self.profiles.len();
        let mut out: Vec<WebProfile> = Vec::new();
        let mut i: usize = 0;
        while i < n
            invariant
                n == self.profiles@.len(),
                i <= n,
                out@ == self.profiles@.subrange(0, i as int),
            decreases n - i,
        {
            out.push(self.profiles[i].clone());
            proof {
                assert(out@ =~= self.profiles@.subrange(0, i + 1 as int));
            }
            i = i + 1;
        }
        proof {
            assert(out@ =~= self.profiles@);
        }
        out
    }
}

} // verus!
