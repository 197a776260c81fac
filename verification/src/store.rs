//! A model of the persistence collaborator: the two persisted files and the
//! set of on-disk storage partitions.  Loading recovers from a missing or
//! corrupt file with an empty list or default settings; saving overwrites.
//! The platform layer mirrors these operations on the real disk; tests and
//! laws run them on this model, so a simulated restart is just a fresh load
//! from the same store.

use vstd::prelude::*;
use vstd::string::StringExecFns;
use crate::effects::Effect;
use crate::profile::{default_settings, AppSettings, WebProfile};

verus! {

/// What a persisted file can hold: nothing yet, unreadable content, or a
/// value.
pub enum StoredFile<T> {
    Missing,
    Corrupt,
    Saved(T),
}

/// The persistence collaborator's state.
pub struct Store {
    pub profiles_file: StoredFile<Vec<WebProfile>>,
    pub settings_file: StoredFile<AppSettings>,
    /// The uuids whose storage partitions exist on disk.
    pub partitions: Vec<String>,
}

/// The abstract content of a store: what loading yields and which
/// partitions exist.
#[verifier::ext_equal]
pub struct StoreModel {
    pub profiles: Seq<WebProfile>,
    pub settings: AppSettings,
    pub partitions: Set<Seq<char>>,
}

/// The set of uuids with a partition.
pub open spec fn partitions_set(parts: Seq<String>) -> Set<Seq<char>> {
    Set::new(|u: Seq<char>| exists|i: int| 0 <= i < parts.len() && #[trigger] parts[i]@ == u)
}

/// The abstract content of a store.
pub open spec fn store_model(s: Store) -> StoreModel {
    StoreModel {
        profiles: match s.profiles_file {
            StoredFile::Saved(v) => v@,
            _ => Seq::empty(),
        },
        settings: match s.settings_file {
            StoredFile::Saved(st) => st,
            _ => default_settings(),
        },
        partitions: partitions_set(s.partitions@),
    }
}

/// What one effect does to the persisted state.  Effects that do not touch
/// the disk leave it unchanged.
pub open spec fn apply_effect_model(m: StoreModel, e: Effect) -> StoreModel {
    match e {
        Effect::SaveProfiles(v) => StoreModel { profiles: v@, ..m },
        Effect::SaveSettings(st) => StoreModel { settings: st, ..m },
        Effect::CreatePartition(u) => StoreModel { partitions: m.partitions.insert(u@), ..m },
        Effect::DeletePartition(u) => StoreModel { partitions: m.partitions.remove(u@), ..m },
        _ => m,
    }
}

/// What a whole effect list does to the persisted state, in order.
pub open spec fn apply_effects_model(m: StoreModel, effects: Seq<Effect>) -> StoreModel
    decreases effects.len(),
{
    if effects.len() == 0 {
        m
    } else {
        apply_effect_model(apply_effects_model(m, effects.drop_last()), effects.last())
    }
}

/// The relative path a profile's saved icon is stored under: inside the
/// profile's partition, named `icon` with the source file's extension.
pub fn icon_relative_path(uuid: &str, extension: &str) -> (r: String)
    ensures
        r@ == "profiles/"@ + uuid@ + "/icon."@ + extension@,
{
    let mut s = String::new();
    s.append("profiles/");
    s.append(uuid);
    s.append("/icon.");
    s.append(extension);
    proof {
        assert(s@ =~= "profiles/"@ + uuid@ + "/icon."@ + extension@);
    }
    s
}

/// Once an effect list deletes a profile's partition and never recreates
/// it, the partition is absent from the persisted state the list leaves
/// behind, whatever store the list ran against.
pub proof fn lemma_partition_absent_after(
    disk: StoreModel,
    effects: Seq<Effect>,
    d: int,
    uuid: Seq<char>,
)
    requires
        0 <= d < effects.len(),
        crate::effects::is_delete_partition(effects[d], uuid),
        forall|j: int|
            d < j < effects.len() ==> !crate::effects::is_create_partition(
                #[trigger] effects[j],
                uuid,
            ),
    ensures
        !apply_effects_model(disk, effects).partitions.contains(uuid),
    decreases effects.len(),
{
    let last = effects.last();
    let prefix = effects.drop_last();
    let m = apply_effects_model(disk, prefix);
    if d == effects.len() - 1 {
        assert(apply_effects_model(disk, effects) == apply_effect_model(m, last));
    } else {
        assert forall|j: int|
            d < j < prefix.len() implies !crate::effects::is_create_partition(
            #[trigger] prefix[j],
            uuid,
        ) by {
            assert(prefix[j] == effects[j]);
        }
        lemma_partition_absent_after(disk, prefix, d, uuid);
        assert(!crate::effects::is_create_partition(last, uuid));
        match last {
            Effect::CreatePartition(u) => {
                assert(u@ != uuid);
            },
            _ => {},
        }
    }
}

/// Adding a string to the partition list inserts its view into the set.
proof fn lemma_partitions_push(parts: Seq<String>, x: String)
    ensures
        partitions_set(parts.push(x)) == partitions_set(parts).insert(x@),
{
    let a = partitions_set(parts.push(x));
    let b = partitions_set(parts).insert(x@);
    assert forall|u: Seq<char>| a.contains(u) implies b.contains(u) by {
        let i = choose|i: int| 0 <= i < parts.push(x).len() && #[trigger] parts.push(x)[i]@ == u;
        if i < parts.len() {
            assert(parts[i]@ == u);
        }
    }
    assert forall|u: Seq<char>| b.contains(u) implies a.contains(u) by {
        if u == x@ {
            assert(parts.push(x)[parts.len() as int]@ == u);
        } else {
            let i = choose|i: int| 0 <= i < parts.len() && #[trigger] parts[i]@ == u;
            assert(parts.push(x)[i]@ == u);
        }
    }
    assert(a =~= b);
}

impl Store {
    /// A store with nothing persisted yet.
    pub fn new() -> (r: Self)
        ensures
            store_model(r).profiles == Seq::<WebProfile>::empty(),
            store_model(r).settings == default_settings(),
            store_model(r).partitions == Set::<Seq<char>>::empty(),
    {
        let r = Store {
            profiles_file: StoredFile::Missing,
            settings_file: StoredFile::Missing,
            partitions: Vec::new(),
        };
        proof {
            assert(store_model(r).partitions =~= Set::<Seq<char>>::empty());
        }
        r
    }

    /// Loads the profile list: the saved list, or the empty list when the
    /// file is missing or corrupt.  Never fatal.
    pub fn load_profiles(&self) -> (r: Vec<WebProfile>)
        ensures
            r@ == store_model(*self).profiles,
    {
        match &self.profiles_file {
            StoredFile::Saved(v) => {
                let r = v.clone();
                proof {
                    assert(r@ =~= v@);
                }
                r
            },
            _ => Vec::new(),
        }
    }

    /// Loads the settings: the saved flags, or the defaults when the file is
    /// missing or corrupt.  Never fatal.
    pub fn load_settings(&self) -> (r: AppSettings)
        ensures
            r == store_model(*self).settings,
    {
        match &self.settings_file {
            StoredFile::Saved(st) => *st,
            _ => AppSettings::default(),
        }
    }

    /// Overwrites the persisted profile list.
    pub fn save_profiles(&mut self, profiles: &Vec<WebProfile>)
        ensures
            store_model(*final(self)) == (StoreModel {
                profiles: profiles@,
                ..store_model(*old(self))
            }),
    {
        let copy = profiles.clone();
        proof {
            assert(copy@ =~= profiles@);
        }
        self.profiles_file = StoredFile::Saved(copy);
        proof {
            assert(store_model(*self) =~~= (StoreModel {
                profiles: profiles@,
                ..store_model(*old(self))
            }));
        }
    }

    /// Overwrites the persisted settings.
    pub fn save_settings(&mut self, settings: AppSettings)
        ensures
            store_model(*final(self)) == (StoreModel {
                settings,
                ..store_model(*old(self))
            }),
    {
        self.settings_file = StoredFile::Saved(settings);
        proof {
            assert(store_model(*self) =~~= (StoreModel {
                settings,
                ..store_model(*old(self))
            }));
        }
    }

    /// Ensures the partition for the uuid exists.
    pub fn create_partition(&mut self, uuid: &str)
        ensures
            store_model(*final(self)) == (StoreModel {
                partitions: store_model(*old(self)).partitions.insert(uuid@),
                ..store_model(*old(self))
            }),
    {
        let mut present = false;
        let n = self.partitions.len();
        let mut i: usize = 0;
        while i < n
            invariant
                n == self.partitions@.len(),
                i <= n,
                present == exists|j: int| 0 <= j < i && #[trigger] self.partitions@[j]@ == uuid@,
            decreases n - i,
        {
            if crate::strutil::str_eq(self.partitions[i].as_str(), uuid) {
                present = true;
            }
            i = i + 1;
        }
        if present {
            proof {
                assert(partitions_set(self.partitions@).contains(uuid@));
                assert(store_model(*self) =~~= (StoreModel {
                    partitions: store_model(*old(self)).partitions.insert(uuid@),
                    ..store_model(*old(self))
                }));
            }
        } else {
            let owned = uuid.to_owned();
            proof {
                lemma_partitions_push(self.partitions@, owned);
            }
            self.partitions.push(owned);
            proof {
                assert(store_model(*self) =~~= (StoreModel {
                    partitions: store_model(*old(self)).partitions.insert(uuid@),
                    ..store_model(*old(self))
                }));
            }
        }
    }

    /// Removes the partition for the uuid, if it exists.
    pub fn delete_partition(&mut self, uuid: &str)
        ensures
            store_model(*final(self)) == (StoreModel {
                partitions: store_model(*old(self)).partitions.remove(uuid@),
                ..store_model(*old(self))
            }),
    {
        let n = self.partitions.len();
        let mut kept: Vec<String> = Vec::new();
        let mut i: usize = 0;
        while i < n
            invariant
                n == self.partitions@.len(),
                i <= n,
                partitions_set(kept@) == partitions_set(self.partitions@.subrange(0, i as int)).remove(
                    uuid@,
                ),
            decreases n - i,
        {
            let p = self.partitions[i].clone();
            proof {
                let pre = self.partitions@.subrange(0, i as int);
                let cur = self.partitions@.subrange(0, i + 1 as int);
                assert(cur.drop_last() =~= pre);
                assert(cur.last() == self.partitions@[i as int]);
                lemma_partitions_push(pre, self.partitions@[i as int]);
                assert(partitions_set(cur) == partitions_set(pre).insert(
                    self.partitions@[i as int]@,
                )) by {
                    assert(cur =~= pre.push(self.partitions@[i as int]));
                    lemma_partitions_push(pre, self.partitions@[i as int]);
                }
            }
            if !crate::strutil::str_eq(p.as_str(), uuid) {
                proof {
                    lemma_partitions_push(kept@, p);
                }
                kept.push(p);
                proof {
                    let pre = self.partitions@.subrange(0, i as int);
                    let cur = self.partitions@.subrange(0, i + 1 as int);
                    assert(partitions_set(kept@) =~= partitions_set(cur).remove(uuid@));
                }
            } else {
                proof {
                    let pre = self.partitions@.subrange(0, i as int);
                    let cur = self.partitions@.subrange(0, i + 1 as int);
                    assert(partitions_set(kept@) =~= partitions_set(cur).remove(uuid@));
                }
            }
            i = i + 1;
        }
        proof {
            assert(self.partitions@.subrange(0, n as int) =~= self.partitions@);
        }
        self.partitions = kept;
        proof {
            assert(store_model(*self) =~~= (StoreModel {
                partitions: store_model(*old(self)).partitions.remove(uuid@),
                ..store_model(*old(self))
            }));
        }
    }

    /// Applies one effect's disk action; effects that do not touch the disk
    /// leave the store unchanged.
    pub fn apply_effect(&mut self, e: &Effect)
        ensures
            store_model(*final(self)) == apply_effect_model(store_model(*old(self)), *e),
    {
        match e {
            Effect::SaveProfiles(v) => self.save_profiles(v),
            Effect::SaveSettings(st) => self.save_settings(*st),
            Effect::CreatePartition(u) => self.create_partition(u.as_str()),
            Effect::DeletePartition(u) => self.delete_partition(u.as_str()),
            _ => {
                proof {
                    assert(store_model(*self) =~~= apply_effect_model(store_model(*self), *e));
                }
            },
        }
        proof {
            assert(store_model(*self) =~~= apply_effect_model(store_model(*old(self)), *e));
        }
    }

    /// Applies a whole effect list's disk actions, in order.
    pub fn apply_effects(&mut self, effects: &Vec<Effect>)
        ensures
            store_model(*final(self)) == apply_effects_model(store_model(*old(self)), effects@),
    {
        let n = effects.len();
        let mut i: usize = 0;
        while i < n
            invariant
                n == effects@.len(),
                store_model(*self) == apply_effects_model(
                    store_model(*old(self)),
                    effects@.subrange(0, i as int),
                ),
                i <= n,
            decreases n - i,
        {
            self.apply_effect(&effects[i]);
            proof {
                let pre = effects@.subrange(0, i as int);
                let cur = effects@.subrange(0, i + 1 as int);
                assert(cur.drop_last() =~= pre);
                assert(cur.last() == effects@[i as int]);
            }
            i = i + 1;
        }
        proof {
            assert(effects@.subrange(0, n as int) =~= effects@);
        }
    }
}

} // verus!
