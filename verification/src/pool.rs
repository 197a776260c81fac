//! The browsing-context pool: one isolated, persistent rendering context per
//! profile, created lazily on first navigation and cached for the rest of
//! the process.  Contexts are identified by a number that never changes for
//! a resident context, so callers can check that a context is reused rather
//! than recreated.

use vstd::prelude::*;
use vstd::string::StringExecFns;

verus! {

/// A resident browsing context: the profile it belongs to, its stable
/// identity, and whether its surface currently occupies the content region.
pub struct ContextEntry {
    pub uuid: String,
    pub id: u64,
    pub visible: bool,
}

impl Clone for ContextEntry {
    fn clone(&self) -> (r: Self)
        ensures
            r == *self,
    {
        ContextEntry { uuid: self.uuid.clone(), id: self.id, visible: self.visible }
    }
}

/// Whether some entry of the pool carries the given uuid.
pub open spec fn pool_contains(entries: Seq<ContextEntry>, uuid: Seq<char>) -> bool {
    exists|i: int| 0 <= i < entries.len() && #[trigger] entries[i].uuid@ == uuid
}

/// The pool with every entry carrying the given uuid removed.
pub open spec fn pool_without(entries: Seq<ContextEntry>, uuid: Seq<char>) -> Seq<ContextEntry>
    decreases entries.len(),
{
    if entries.len() == 0 {
        Seq::empty()
    } else {
        let rest = pool_without(entries.drop_last(), uuid);
        if entries.last().uuid@ == uuid {
            rest
        } else {
            rest.push(entries.last())
        }
    }
}

/// No entry of the removed pool carries the uuid, and the pool never grows.
pub proof fn lemma_pool_without_spec(entries: Seq<ContextEntry>, uuid: Seq<char>)
    ensures
        !pool_contains(pool_without(entries, uuid), uuid),
        forall|i: int|
            0 <= i < pool_without(entries, uuid).len()
                ==> #[trigger] pool_without(entries, uuid)[i].uuid@ != uuid,
        pool_without(entries, uuid).len() <= entries.len(),
        forall|i: int|
            0 <= i < pool_without(entries, uuid).len()
                ==> entries.contains(#[trigger] pool_without(entries, uuid)[i]),
        forall|i: int|
            0 <= i < entries.len() && entries[i].uuid@ != uuid
                ==> pool_without(entries, uuid).contains(#[trigger] entries[i]),
    decreases entries.len(),
{
    if entries.len() > 0 {
        lemma_pool_without_spec(entries.drop_last(), uuid);
        let r = pool_without(entries, uuid);
        let rest = pool_without(entries.drop_last(), uuid);
        assert forall|i: int| 0 <= i < r.len() implies #[trigger] r[i].uuid@ != uuid by {
            if i < rest.len() {
                assert(rest[i].uuid@ != uuid);
            }
        }
        assert forall|i: int| 0 <= i < r.len() implies entries.contains(#[trigger] r[i]) by {
            if i < rest.len() {
                assert(entries.drop_last().contains(rest[i]));
                let k = choose|k: int|
                    0 <= k < entries.drop_last().len() && entries.drop_last()[k] == rest[i];
                assert(entries[k] == r[i]);
            } else {
                assert(entries[entries.len() - 1] == r[i]);
            }
        }
        assert forall|i: int|
            0 <= i < entries.len() && entries[i].uuid@ != uuid implies pool_without(
            entries,
            uuid,
        ).contains(#[trigger] entries[i]) by {
            if i < entries.len() - 1 {
                assert(entries.drop_last()[i] == entries[i]);
                assert(rest.contains(entries.drop_last()[i]));
                let j = choose|j: int| 0 <= j < rest.len() && rest[j] == entries[i];
                assert(r[j] == entries[i]);
            } else {
                assert(r.last() == entries[i]);
            }
        }
    }
}

/// Removing one uuid keeps every other resident uuid resident, and keeps
/// the pool well formed.
pub proof fn lemma_pool_keep(pre: WebContextPool, post: WebContextPool, uuid: Seq<char>)
    requires
        pre.wf(),
        post.entries@ == pool_without(pre.entries@, uuid),
        post.next_id == pre.next_id,
    ensures
        post.wf(),
        forall|u: Seq<char>|
            u != uuid && #[trigger] pool_contains(pre.entries@, u) ==> pool_contains(
                post.entries@,
                u,
            ),
{
    lemma_pool_without_spec(pre.entries@, uuid);
    let r = pool_without(pre.entries@, uuid);
    assert forall|i: int| 0 <= i < r.len() implies #[trigger] r[i].id < post.next_id by {
        assert(pre.entries@.contains(r[i]));
        let k = choose|k: int| 0 <= k < pre.entries@.len() && pre.entries@[k] == r[i];
        assert(pre.entries@[k].id < pre.next_id);
    }
    assert forall|i: int, j: int| 0 <= i < j < r.len() implies #[trigger] r[i].uuid@
        != #[trigger] r[j].uuid@ by {
        lemma_pool_without_distinct(pre.entries@, uuid, i, j);
    }
    assert forall|u: Seq<char>|
        u != uuid && #[trigger] pool_contains(pre.entries@, u) implies pool_contains(
        post.entries@,
        u,
    ) by {
        let i = choose|i: int| 0 <= i < pre.entries@.len() && #[trigger] pre.entries@[i].uuid@ == u;
        assert(r.contains(pre.entries@[i]));
        let j = choose|j: int| 0 <= j < r.len() && r[j] == pre.entries@[i];
        assert(r[j].uuid@ == u);
    }
}

/// Two distinct positions of the removed pool come from two distinct
/// positions of the pool before removal, so unique uuids stay unique.
proof fn lemma_pool_without_distinct(entries: Seq<ContextEntry>, uuid: Seq<char>, i: int, j: int)
    requires
        forall|a: int, b: int|
            0 <= a < b < entries.len() ==> #[trigger] entries[a].uuid@ != #[trigger] entries[b].uuid@,
        0 <= i < j < pool_without(entries, uuid).len(),
    ensures
        pool_without(entries, uuid)[i].uuid@ != pool_without(entries, uuid)[j].uuid@,
    decreases entries.len(),
{
    if entries.len() > 0 {
        let r = pool_without(entries, uuid);
        let rest = pool_without(entries.drop_last(), uuid);
        assert(forall|a: int, b: int|
            0 <= a < b < entries.drop_last().len() ==> #[trigger] entries.drop_last()[a].uuid@
                != #[trigger] entries.drop_last()[b].uuid@);
        if entries.last().uuid@ == uuid {
            lemma_pool_without_distinct(entries.drop_last(), uuid, i, j);
        } else {
            if j < rest.len() {
                lemma_pool_without_distinct(entries.drop_last(), uuid, i, j);
            } else {
                assert(r[j] == entries.last());
                lemma_pool_without_spec(entries.drop_last(), uuid);
                assert(entries.drop_last().contains(rest[i]));
                let k = choose|k: int|
                    0 <= k < entries.drop_last().len() && entries.drop_last()[k] == rest[i];
                assert(entries[k].uuid@ != entries[entries.len() - 1].uuid@);
            }
        }
    }
}

/// The pool of resident browsing contexts.
pub struct WebContextPool {
    pub entries: Vec<ContextEntry>,
    /// The identity the next created context will receive.
    pub next_id: u64,
}

/// What `get_or_create` does: a resident context is returned as it stands;
/// otherwise a fresh, hidden context with a fresh identity is appended.
pub open spec fn get_or_create_post(
    pre: WebContextPool,
    post: WebContextPool,
    uuid: Seq<char>,
    id: u64,
    created: bool,
) -> bool {
    if pool_contains(pre.entries@, uuid) {
        &&& post == pre
        &&& created == false
        &&& exists|i: int|
            0 <= i < pre.entries@.len() && #[trigger] pre.entries@[i].uuid@ == uuid
                && pre.entries@[i].id == id
    } else {
        &&& created == true
        &&& id == pre.next_id
        &&& post.next_id == pre.next_id + 1
        &&& post.entries@.len() == pre.entries@.len() + 1
        &&& forall|i: int|
            0 <= i < pre.entries@.len() ==> #[trigger] post.entries@[i] == pre.entries@[i]
        &&& post.entries@.last().uuid@ == uuid
        &&& post.entries@.last().id == id
        &&& post.entries@.last().visible == false
    }
}

/// The pool after hiding every surface: same contexts, same identities,
/// nothing visible.
pub open spec fn pool_hidden_rel(pre: WebContextPool, post: WebContextPool) -> bool {
    &&& post.entries@.len() == pre.entries@.len()
    &&& post.next_id == pre.next_id
    &&& forall|i: int|
        0 <= i < pre.entries@.len() ==> {
            &&& (#[trigger] post.entries@[i]).uuid == pre.entries@[i].uuid
            &&& post.entries@[i].id == pre.entries@[i].id
            &&& post.entries@[i].visible == false
        }
}

/// The pool after showing exactly the context with the given uuid: same
/// contexts, same identities, visibility follows the uuid.
pub open spec fn pool_shown_only_rel(pre: WebContextPool, post: WebContextPool, uuid: Seq<char>) -> bool {
    &&& post.entries@.len() == pre.entries@.len()
    &&& post.next_id == pre.next_id
    &&& forall|i: int|
        0 <= i < pre.entries@.len() ==> {
            &&& (#[trigger] post.entries@[i]).uuid == pre.entries@[i].uuid
            &&& post.entries@[i].id == pre.entries@[i].id
            &&& post.entries@[i].visible == (pre.entries@[i].uuid@ == uuid)
        }
}

/// The pool after creating and showing a fresh context for the uuid: the
/// old entries keep their contexts and identities and end hidden, and a new
/// visible entry with the next identity is appended.
pub open spec fn pool_created_shown_rel(pre: WebContextPool, post: WebContextPool, uuid: Seq<char>) -> bool {
    &&& post.entries@.len() == pre.entries@.len() + 1
    &&& post.next_id == pre.next_id + 1
    &&& forall|i: int|
        0 <= i < pre.entries@.len() ==> {
            &&& (#[trigger] post.entries@[i]).uuid == pre.entries@[i].uuid
            &&& post.entries@[i].id == pre.entries@[i].id
            &&& post.entries@[i].visible == (pre.entries@[i].uuid@ == uuid)
        }
    &&& post.entries@.last().uuid@ == uuid
    &&& post.entries@.last().id == pre.next_id
    &&& post.entries@.last().visible == true
}

impl WebContextPool {
    /// Entries never share a uuid, and every identity is below the counter.
    pub open spec fn wf(self) -> bool {
        &&& forall|i: int, j: int|
            0 <= i < j < self.entries@.len()
                ==> #[trigger] self.entries@[i].uuid@ != #[trigger] self.entries@[j].uuid@
        &&& forall|i: int|
            0 <= i < self.entries@.len() ==> #[trigger] self.entries@[i].id < self.next_id
    }

    /// An empty pool.
    pub fn new() -> (r: Self)
        ensures
            r.entries@.len() == 0,
            r.next_id == 0,
            r.wf(),
    {
        WebContextPool { entries: Vec::new(), next_id: 0 }
    }

    /// The index of the entry with the given uuid, if any.
    pub fn find_entry(&self, uuid: &str) -> (r: Option<usize>)
        ensures
            match r {
                Some(i) => i < self.entries@.len() && self.entries@[i as int].uuid@ == uuid@
                    && forall|j: int| 0 <= j < i ==> #[trigger] self.entries@[j].uuid@ != uuid@,
                None => !pool_contains(self.entries@, uuid@),
            },
    {
        let n = self.entries.len();
        let mut i: usize = 0;
        while i < n
            invariant
                n == self.entries@.len(),
                i <= n,
                forall|j: int| 0 <= j < i ==> #[trigger] self.entries@[j].uuid@ != uuid@,
            decreases n - i,
        {
            if crate::strutil::str_eq(self.entries[i].uuid.as_str(), uuid) {
                return Some(i);
            }
            i = i + 1;
        }
        None
    }

    /// Whether a context for the uuid is resident.
    pub fn contains(&self, uuid: &str) -> (r: bool)
        ensures
            r == pool_contains(self.entries@, uuid@),
    {
        self.find_entry(uuid).is_some()
    }

    /// Returns the resident context's identity, or creates a fresh hidden
    /// context.  A resident context is never recreated: its identity is
    /// stable across calls.
    pub fn get_or_create(&mut self, uuid: &str) -> (r: (u64, bool))
        requires
            old(self).next_id < u64::MAX,
            old(self).wf(),
        ensures
            get_or_create_post(*old(self), *final(self), uuid@, r.0, r.1),
            final(self).wf(),
            final(self).next_id >= old(self).next_id,
    {
        match self.find_entry(uuid) {
            Some(i) => {
                let id = self.entries[i].id;
                (id, false)
            },
            None => {
                let id = self.next_id;
                let entry = ContextEntry { uuid: uuid.to_owned(), id, visible: false };
                self.entries.push(entry);
                self.next_id = self.next_id + 1;
                proof {
                    assert forall|i: int, j: int|
                        0 <= i < j < self.entries@.len() implies #[trigger] self.entries@[i].uuid@
                        != #[trigger] self.entries@[j].uuid@ by {
                        if j == self.entries@.len() - 1 {
                            assert(old(self).entries@[i].uuid@ != uuid@);
                        }
                    }
                }
                (id, true)
            },
        }
    }

    /// Hides every resident context's surface.
    pub fn hide_all(&mut self)
        ensures
            pool_hidden_rel(*old(self), *final(self)),
    {
        let n = self.entries.len();
        let mut out: Vec<ContextEntry> = Vec::new();
        let mut i: usize = 0;
        while i < n
            invariant
                n == self.entries@.len(),
                i <= n,
                out@.len() == i,
                forall|j: int|
                    0 <= j < i ==> {
                        &&& (#[trigger] out@[j]).uuid == self.entries@[j].uuid
                        &&& out@[j].id == self.entries@[j].id
                        &&& out@[j].visible == false
                    },
            decreases n - i,
        {
            let e = &self.entries[i];
            out.push(ContextEntry { uuid: e.uuid.clone(), id: e.id, visible: false });
            i = i + 1;
        }
        self.entries = out;
    }

    /// Makes exactly the context with the given uuid visible (when resident)
    /// and hides every other one.
    pub fn show_only(&mut self, uuid: &str)
        ensures
            pool_shown_only_rel(*old(self), *final(self), uuid@),
    {
        let n = self.entries.len();
        let mut out: Vec<ContextEntry> = Vec::new();
        let mut i: usize = 0;
        while i < n
            invariant
                n == self.entries@.len(),
                i <= n,
                out@.len() == i,
                forall|j: int|
                    0 <= j < i ==> {
                        &&& (#[trigger] out@[j]).uuid == self.entries@[j].uuid
                        &&& out@[j].id == self.entries@[j].id
                        &&& out@[j].visible == (self.entries@[j].uuid@ == uuid@)
                    },
            decreases n - i,
        {
            let e = &self.entries[i];
            let vis = crate::strutil::str_eq(e.uuid.as_str(), uuid);
            out.push(ContextEntry { uuid: e.uuid.clone(), id: e.id, visible: vis });
            i = i + 1;
        }
        self.entries = out;
    }

    /// Destroys the context for the uuid, if resident: the entry leaves the
    /// pool and its surface with it.
    pub fn remove(&mut self, uuid: &str)
        ensures
            final(self).entries@ == pool_without(old(self).entries@, uuid@),
            final(self).next_id == old(self).next_id,
    {
        let n = self.entries.len();
        let mut kept: Vec<ContextEntry> = Vec::new();
        let mut i: usize = 0;
        while i < n
            invariant
                n == self.entries@.len(),
                i <= n,
                kept@ == pool_without(self.entries@.subrange(0, i as int), uuid@),
            decreases n - i,
        {
            let e = self.entries[i].clone();
            proof {
                let pre = self.entries@.subrange(0, i as int);
                let cur = self.entries@.subrange(0, i + 1 as int);
                assert(cur.drop_last() =~= pre);
                assert(cur.last() == self.entries@[i as int]);
            }
            if !crate::strutil::str_eq(e.uuid.as_str(), uuid) {
                kept.push(e);
            }
            i = i + 1;
        }
        proof {
            assert(self.entries@.subrange(0, n as int) =~= self.entries@);
        }
        self.entries = kept;
    }
}

/// Asking for a profile's context twice yields the same context identity
/// both times, and the second ask changes nothing: a resident context is
/// cached, never recreated.
pub proof fn lemma_context_identity_stable(
    p0: WebContextPool,
    p1: WebContextPool,
    p2: WebContextPool,
    uuid: Seq<char>,
    id1: u64,
    id2: u64,
    c1: bool,
    c2: bool,
)
    requires
        p0.wf(),
        get_or_create_post(p0, p1, uuid, id1, c1),
        get_or_create_post(p1, p2, uuid, id2, c2),
    ensures
        id2 == id1,
        p2 == p1,
{
    if pool_contains(p0.entries@, uuid) {
        let i = choose|i: int|
            0 <= i < p0.entries@.len() && #[trigger] p0.entries@[i].uuid@ == uuid
                && p0.entries@[i].id == id1;
        let j = choose|j: int|
            0 <= j < p1.entries@.len() && #[trigger] p1.entries@[j].uuid@ == uuid
                && p1.entries@[j].id == id2;
        if i < j {
            assert(false);
        }
        if j < i {
            assert(false);
        }
    } else {
        assert(pool_contains(p1.entries@, uuid)) by {
            assert(p1.entries@[p1.entries@.len() - 1].uuid@ == uuid);
        }
        let j = choose|j: int|
            0 <= j < p1.entries@.len() && #[trigger] p1.entries@[j].uuid@ == uuid
                && p1.entries@[j].id == id2;
        if j < p0.entries@.len() {
            assert(p1.entries@[j] == p0.entries@[j]);
            assert(pool_contains(p0.entries@, uuid));
            assert(false);
        } else {
            assert(p1.entries@[j] == p1.entries@.last());
        }
    }
}

/// The relative storage-partition directory for a profile: each context's
/// cookies, cache and session data live under its own subtree, keyed by the
/// profile's uuid.
pub fn partition_path(uuid: &str) -> (r: String)
    ensures
        r@ == "profiles/"@ + uuid@,
{
    let mut s = String::new();
    s.append("profiles/");
    s.append(uuid);
    proof {
        assert(s@ =~= "profiles/"@ + uuid@);
    }
    s
}

} // verus!
