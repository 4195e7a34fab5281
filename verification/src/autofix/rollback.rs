//! Rollback points: the state a fix changed, kept so the fix can be
//! undone, at most a given number of them, each usable once.
//!
//! Reading and writing the points file and restoring system state are the
//! caller's; the manager here keeps the points and decides.

use vstd::prelude::*;
use crate::autofix::clock::{earlier, now, random_uuid, uuid_text, Timestamp};
use crate::autofix::error::AutofixError;
use crate::net::{ip_list_text, push_ip_list, IpAddress};
use crate::text::{str_eq, str_to_string};

verus! {

/// State that can be restored during rollback.
#[derive(Debug)]
pub enum RollbackState {
    /// DNS server configuration.
    DnsServers {
        /// Interface name.
        interface: String,
        /// Original DNS servers.
        servers: Vec<IpAddress>,
    },
    /// Network configuration file backup.
    ConfigFile {
        /// Path to the config file.
        path: String,
        /// Original contents.
        contents: String,
    },
    /// Multiple states combined.
    Multiple(Vec<RollbackState>),
    /// No state to restore (action is not reversible).
    NoState,
}

/// A point in time that can be rolled back to.
#[derive(Debug)]
pub struct RollbackPoint {
    /// Unique identifier.
    pub id: String,
    /// When this point was created.
    pub created_at: Timestamp,
    /// Description of what was changed.
    pub description: String,
    /// The original state that can be restored.
    pub state: RollbackState,
    /// Whether this rollback point is still valid.
    pub valid: bool,
    /// Associated fix action ID.
    pub action_id: Option<u128>,
}

/// The points keyed as the entries say, later entries replacing earlier
/// ones with the same key.
pub open spec fn entries_map(s: Seq<(String, RollbackPoint)>) -> Map<Seq<char>, RollbackPoint>
    decreases s.len(),
{
    if s.len() == 0 {
        Map::empty()
    } else {
        entries_map(s.drop_last()).insert(s.last().0@, s.last().1)
    }
}

/// No key occurs twice.
pub open spec fn keys_unique(s: Seq<(String, RollbackPoint)>) -> bool {
    forall|i: int, j: int| 0 <= i < j < s.len() ==> (#[trigger] s[i]).0@ != (#[trigger] s[j]).0@
}

/// Some entry has the key.
pub open spec fn has_key(s: Seq<(String, RollbackPoint)>, k: Seq<char>) -> bool {
    exists|i: int| 0 <= i < s.len() && (#[trigger] s[i]).0@ == k
}

/// With unique keys, the map holds each entry under its key, and nothing
/// else.
proof fn entries_map_facts(s: Seq<(String, RollbackPoint)>)
    requires
        keys_unique(s),
    ensures
        entries_map(s).dom().finite(),
        entries_map(s).len() == s.len(),
        forall|k: Seq<char>|
            #![trigger entries_map(s).contains_key(k)]
            #![trigger has_key(s, k)]
            entries_map(s).contains_key(k) <==> has_key(s, k),
        forall|i: int| 0 <= i < s.len() ==> entries_map(s)[(#[trigger] s[i]).0@] == s[i].1,
    decreases s.len(),
{
    if s.len() > 0 {
        let d = s.drop_last();
        assert(keys_unique(d)) by {
            assert forall|i: int, j: int| 0 <= i < j < d.len() implies (#[trigger] d[i]).0@ != (#[trigger] d[j]).0@ by {
                assert(d[i] == s[i] && d[j] == s[j]);
            }
        }
        entries_map_facts(d);
        let last = s.last();
        assert(!has_key(d, last.0@)) by {
            if has_key(d, last.0@) {
                let i = choose|i: int| 0 <= i < d.len() && (#[trigger] d[i]).0@ == last.0@;
                assert(s[i] == d[i]);
                assert(s[s.len() - 1] == last);
            }
        }
        assert forall|k: Seq<char>| entries_map(s).contains_key(k) <==> has_key(s, k) by {
            if has_key(s, k) {
                let i = choose|i: int| 0 <= i < s.len() && (#[trigger] s[i]).0@ == k;
                if i < s.len() - 1 {
                    assert(d[i] == s[i]);
                }
            }
            if has_key(d, k) {
                let i = choose|i: int| 0 <= i < d.len() && (#[trigger] d[i]).0@ == k;
                assert(s[i] == d[i]);
            }
        }
        assert forall|i: int| 0 <= i < s.len() implies entries_map(s)[(#[trigger] s[i]).0@] == s[i].1 by {
            if i < s.len() - 1 {
                assert(d[i] == s[i]);
                assert(s[i].0@ != s[s.len() - 1].0@);
            }
        }
    }
}

/// Replacing the entry at an index by one with the same key replaces the
/// point in the map.
proof fn entries_map_update(s: Seq<(String, RollbackPoint)>, i: int, e: (String, RollbackPoint))
    requires
        keys_unique(s),
        0 <= i < s.len(),
        e.0@ == s[i].0@,
    ensures
        keys_unique(s.update(i, e)),
        entries_map(s.update(i, e)) == entries_map(s).insert(e.0@, e.1),
{
    let t = s.update(i, e);
    assert(keys_unique(t)) by {
        assert forall|a: int, b: int| 0 <= a < b < t.len() implies (#[trigger] t[a]).0@ != (#[trigger] t[b]).0@ by {
            assert(t[a].0@ == s[a].0@ && t[b].0@ == s[b].0@);
        }
    }
    entries_map_facts(s);
    entries_map_facts(t);
    assert forall|k: Seq<char>| has_key(t, k) <==> has_key(s, k) by {
        if has_key(t, k) {
            let j = choose|j: int| 0 <= j < t.len() && (#[trigger] t[j]).0@ == k;
            assert(s[j].0@ == t[j].0@);
        }
        if has_key(s, k) {
            let j = choose|j: int| 0 <= j < s.len() && (#[trigger] s[j]).0@ == k;
            assert(s[j].0@ == t[j].0@);
        }
    }
    assert forall|k: Seq<char>| #[trigger] entries_map(t).contains_key(k) implies entries_map(t)[k] == entries_map(s).insert(e.0@, e.1)[k] by {
        assert(has_key(t, k));
        let j = choose|j: int| 0 <= j < t.len() && (#[trigger] t[j]).0@ == k;
        assert(entries_map(t)[t[j].0@] == t[j].1);
        if j != i {
            assert(t[j] == s[j]);
            assert(entries_map(s)[s[j].0@] == s[j].1);
        }
    }
    assert(entries_map(t) =~= entries_map(s).insert(e.0@, e.1));
}

/// Removing the entry at an index removes its key from the map.
proof fn entries_map_remove(s: Seq<(String, RollbackPoint)>, i: int)
    requires
        keys_unique(s),
        0 <= i < s.len(),
    ensures
        keys_unique(s.remove(i)),
        entries_map(s.remove(i)) == entries_map(s).remove(s[i].0@),
{
    let t = s.remove(i);
    assert(keys_unique(t)) by {
        assert forall|a: int, b: int| 0 <= a < b < t.len() implies (#[trigger] t[a]).0@ != (#[trigger] t[b]).0@ by {
            let sa = if a < i { a } else { a + 1 };
            let sb = if b < i { b } else { b + 1 };
            assert(t[a] == s[sa] && t[b] == s[sb]);
        }
    }
    entries_map_facts(s);
    entries_map_facts(t);
    assert forall|k: Seq<char>| #[trigger] has_key(t, k) <==> (has_key(s, k) && k != s[i].0@) by {
        if has_key(t, k) {
            let j = choose|j: int| 0 <= j < t.len() && (#[trigger] t[j]).0@ == k;
            let sj = if j < i { j } else { j + 1 };
            assert(t[j] == s[sj]);
        }
        if has_key(s, k) && k != s[i].0@ {
            let j = choose|j: int| 0 <= j < s.len() && (#[trigger] s[j]).0@ == k;
            if j < i {
                assert(t[j] == s[j]);
            } else {
                assert(t[j - 1] == s[j]);
            }
        }
    }
    assert forall|k: Seq<char>| #[trigger] entries_map(t).contains_key(k) implies entries_map(t)[k] == entries_map(s)[k] by {
        assert(has_key(t, k));
        let j = choose|j: int| 0 <= j < t.len() && (#[trigger] t[j]).0@ == k;
        let sj = if j < i { j } else { j + 1 };
        assert(t[j] == s[sj]);
        assert(entries_map(t)[t[j].0@] == t[j].1);
        assert(entries_map(s)[s[sj].0@] == s[sj].1);
    }
    assert(entries_map(t) =~= entries_map(s).remove(s[i].0@));
}

/// `k` names a point no other point is older than.
pub open spec fn oldest(m: Map<Seq<char>, RollbackPoint>, k: Seq<char>) -> bool {
    &&& m.contains_key(k)
    &&& forall|k2: Seq<char>| #[trigger] m.contains_key(k2) ==> !earlier(m[k2].created_at, m[k].created_at)
}

/// `new` is `old` with point `p` added under its id: when `old` already
/// holds `max` points or more, one of its oldest points gives way first.
pub open spec fn adds(old: Map<Seq<char>, RollbackPoint>, new: Map<Seq<char>, RollbackPoint>, max: usize, p: RollbackPoint) -> bool {
    if old.len() >= max && old.len() > 0 {
        exists|k: Seq<char>| #[trigger] oldest(old, k) && new == old.remove(k).insert(p.id@, p)
    } else {
        new == old.insert(p.id@, p)
    }
}

/// The point with its validity taken away.
pub open spec fn spent(p: RollbackPoint) -> RollbackPoint {
    RollbackPoint { valid: false, ..p }
}

/// The points after the one under `id` is marked used (unchanged when
/// there is none).
pub open spec fn mark_spent(m: Map<Seq<char>, RollbackPoint>, id: Seq<char>) -> Map<Seq<char>, RollbackPoint> {
    if m.contains_key(id) { m.insert(id, spent(m[id])) } else { m }
}

/// Why a rollback to `id` can or cannot go ahead.
#[derive(Debug)]
pub enum RollbackVerdict {
    /// No point has the id.
    Missing,
    /// The point was used or invalidated.
    Spent,
    /// The point can be restored.
    Ready,
}

/// Whether a rollback to `id` can go ahead.
pub open spec fn rollback_verdict(m: Map<Seq<char>, RollbackPoint>, id: Seq<char>) -> RollbackVerdict {
    if !m.contains_key(id) {
        RollbackVerdict::Missing
    } else if !m[id].valid {
        RollbackVerdict::Spent
    } else {
        RollbackVerdict::Ready
    }
}

/// The keys whose points are kept by a cleanup at `cutoff`: those created
/// after it, and the valid ones.
pub open spec fn kept_keys(m: Map<Seq<char>, RollbackPoint>, cutoff: Timestamp) -> Set<Seq<char>> {
    m.dom().filter(|k: Seq<char>| earlier(cutoff, m[k].created_at) || m[k].valid)
}

/// The keys of the valid points.
pub open spec fn valid_keys(m: Map<Seq<char>, RollbackPoint>) -> Set<Seq<char>> {
    m.dom().filter(|k: Seq<char>| m[k].valid)
}

/// Manages rollback points.
#[derive(Debug)]
pub struct RollbackManager {
    /// Storage directory for rollback data.
    storage_dir: String,
    /// The points with their keys; no key occurs twice.
    entries: Vec<(String, RollbackPoint)>,
    /// Maximum number of rollback points to keep.
    max_points: usize,
}

impl RollbackManager {
    /// No key occurs twice.
    #[verifier::type_invariant]
    spec fn keys_distinct(self) -> bool {
        keys_unique(self.entries@)
    }

    /// The points, by key.
    pub closed spec fn points(self) -> Map<Seq<char>, RollbackPoint> {
        entries_map(self.entries@)
    }

    /// The most points the manager keeps when adding.
    pub closed spec fn limit(self) -> usize {
        self.max_points
    }

    /// The storage directory.
    pub closed spec fn directory(self) -> Seq<char> {
        self.storage_dir@
    }

    /// Creates a new rollback manager.
    pub fn new(storage_dir: String, max_points: usize) -> (m: Self)
        ensures
            m.points() == Map::<Seq<char>, RollbackPoint>::empty(),
            m.limit() == max_points,
            m.directory() == storage_dir@,
    {
        RollbackManager { storage_dir, entries: Vec::new(), max_points }
    }

    /// The storage directory.
    pub fn storage_dir(&self) -> (r: &str)
        ensures
            r@ == self.directory(),
    {
        self.storage_dir.as_str()
    }

    /// The number of points held.
    pub fn len(&self) -> (r: usize)
        ensures
            r == self.points().len(),
            self.points().dom().finite(),
    {
        proof {
            use_type_invariant(self);
            entries_map_facts(self.entries@);
        }
        self.entries.len()
    }

    /// The points with their keys, for saving; no key occurs twice.
    pub fn entries(&self) -> (r: &Vec<(String, RollbackPoint)>)
        ensures
            keys_unique(r@),
            entries_map(r@) == self.points(),
    {
        proof { use_type_invariant(self); }
        &self.entries
    }

    /// The position of the entry with the key.
    fn position(&self, id: &str) -> (r: Option<usize>)
        ensures
            match r {
                Some(i) => i < self.entries@.len() && self.entries@[i as int].0@ == id@,
                None => !has_key(self.entries@, id@),
            },
    {
        let mut i: usize = 0;
        while i < self.entries.len()
            invariant
                i <= self.entries@.len(),
                forall|j: int| 0 <= j < i ==> (#[trigger] self.entries@[j]).0@ != id@,
            decreases self.entries@.len() - i,
        {
            if str_eq(self.entries[i].0.as_str(), id) {
                return Some(i);
            }
            i = i + 1;
        }
        None
    }

    /// Puts a point under a key, replacing the one there.
    fn upsert(&mut self, key: String, p: RollbackPoint)
        ensures
            final(self).points() == old(self).points().insert(key@, p),
            final(self).limit() == old(self).limit(),
            final(self).directory() == old(self).directory(),
    {
        proof { use_type_invariant(&*self); }
        match self.position(key.as_str()) {
            Some(i) => {
                let ghost before = self.entries@;
                let ghost k = self.entries@[i as int].0;
                let mut entries: Vec<(String, RollbackPoint)> = Vec::new();
                std::mem::swap(&mut entries, &mut self.entries);
                let ghost e = (key, p);
                entries.set(i, (key, p));
                proof {
                    assert(entries@ =~= before.update(i as int, e));
                    entries_map_update(before, i as int, e);
                }
                self.entries = entries;
            }
            None => {
                let ghost before = self.entries@;
                let mut entries: Vec<(String, RollbackPoint)> = Vec::new();
                std::mem::swap(&mut entries, &mut self.entries);
                entries.push((key, p));
                proof {
                    assert(keys_unique(entries@)) by {
                        assert forall|a: int, b: int| 0 <= a < b < entries@.len() implies (#[trigger] entries@[a]).0@ != (#[trigger] entries@[b]).0@ by {
                            if b == entries@.len() - 1 {
                                assert(entries@[a] == before[a]);
                            } else {
                                assert(entries@[a] == before[a] && entries@[b] == before[b]);
                            }
                        }
                    }
                    assert(entries@.drop_last() =~= before);
                }
                self.entries = entries;
            }
        }
    }

    /// The position of a point no other is older than.
    fn oldest_position(&self) -> (r: usize)
        requires
            self.entries@.len() > 0,
        ensures
            r < self.entries@.len(),
            forall|j: int| 0 <= j < self.entries@.len() ==> !earlier((#[trigger] self.entries@[j]).1.created_at, self.entries@[r as int].1.created_at),
    {
        let mut best: usize = 0;
        let mut i: usize = 1;
        while i < self.entries.len()
            invariant
                1 <= i <= self.entries@.len(),
                best < i,
                forall|j: int| 0 <= j < i ==> !earlier((#[trigger] self.entries@[j]).1.created_at, self.entries@[best as int].1.created_at),
            decreases self.entries@.len() - i,
        {
            if self.entries[i].1.created_at.is_before(&self.entries[best].1.created_at) {
                best = i;
            }
            i = i + 1;
        }
        best
    }

    /// Adds a rollback point under its id; when the manager already holds
    /// its limit, one of the oldest points gives way first.
    pub fn add_point(&mut self, point: RollbackPoint)
        ensures
            adds(old(self).points(), final(self).points(), old(self).limit(), point),
            final(self).limit() == old(self).limit(),
            final(self).directory() == old(self).directory(),
    {
        proof {
            use_type_invariant(&*self);
            entries_map_facts(self.entries@);
        }
        let ghost m0 = self.points();
        if self.entries.len() >= self.max_points && self.entries.len() > 0 {
            let i = self.oldest_position();
            let ghost before = self.entries@;
            let ghost k = before[i as int].0@;
            let mut entries: Vec<(String, RollbackPoint)> = Vec::new();
                std::mem::swap(&mut entries, &mut self.entries);
            entries.remove(i);
            proof {
                entries_map_remove(before, i as int);
                assert(oldest(m0, k)) by {
                    assert forall|k2: Seq<char>| #[trigger] m0.contains_key(k2) implies !earlier(m0[k2].created_at, m0[k].created_at) by {
                        assert(has_key(before, k2));
                        let j = choose|j: int| 0 <= j < before.len() && (#[trigger] before[j]).0@ == k2;
                        assert(m0[before[j].0@] == before[j].1);
                        assert(m0[before[i as int].0@] == before[i as int].1);
                    }
                }
            }
            self.entries = entries;
            let key = point.id.clone();
            self.upsert(key, point);
            assert(self.points() == m0.remove(k).insert(point.id@, point));
        } else {
            let key = point.id.clone();
            self.upsert(key, point);
        }
    }

    /// Makes a point with a fresh id and the current time, and adds it.
    fn add_new(&mut self, description: String, state: RollbackState, action_id: Option<u128>) -> (id: String)
        ensures
            final(self).points().contains_key(id@),
            adds(old(self).points(), final(self).points(), old(self).limit(), final(self).points()[id@]),
            final(self).points()[id@].id@ == id@,
            final(self).points()[id@].description == description,
            final(self).points()[id@].state == state,
            final(self).points()[id@].valid,
            final(self).points()[id@].action_id == action_id,
            final(self).limit() == old(self).limit(),
            final(self).directory() == old(self).directory(),
    {
        let id = uuid_text(random_uuid());
        let point = RollbackPoint { id: id.clone(), created_at: now(), description, state, valid: true, action_id };
        let ghost p = point;
        self.add_point(point);
        assert(self.points().contains_key(p.id@) && self.points()[p.id@] == p) by {
            if old(self).points().len() >= old(self).limit() && old(self).points().len() > 0 {
                let k = choose|k: Seq<char>| #[trigger] oldest(old(self).points(), k)
                    && self.points() == old(self).points().remove(k).insert(p.id@, p);
            }
        }
        id
    }

    /// Creates a rollback point for DNS server changes.
    pub fn create_dns_point(&mut self, interface: &str, current_servers: Vec<IpAddress>, action_id: Option<u128>) -> (id: String)
        ensures
            final(self).points().contains_key(id@),
            adds(old(self).points(), final(self).points(), old(self).limit(), final(self).points()[id@]),
            final(self).points()[id@].id@ == id@,
            final(self).points()[id@].description@ == "DNS servers for "@ + interface@ + ": "@ + ip_list_text(current_servers@),
            final(self).points()[id@].state matches RollbackState::DnsServers { interface: i, servers: s }
                && i@ == interface@ && s == current_servers,
            final(self).points()[id@].valid,
            final(self).points()[id@].action_id == action_id,
            final(self).limit() == old(self).limit(),
    {
        let mut description = str_to_string("DNS servers for ");
        description.append(interface);
        description.append(": ");
        push_ip_list(&mut description, &current_servers);
        let state = RollbackState::DnsServers { interface: str_to_string(interface), servers: current_servers };
        self.add_new(description, state, action_id)
    }

    /// Creates a rollback point for a config file, from its path and the
    /// contents read from it.
    pub fn create_config_point(&mut self, path: &str, contents: String, action_id: Option<u128>) -> (id: String)
        ensures
            final(self).points().contains_key(id@),
            adds(old(self).points(), final(self).points(), old(self).limit(), final(self).points()[id@]),
            final(self).points()[id@].id@ == id@,
            final(self).points()[id@].description@ == "Config file: "@ + path@,
            final(self).points()[id@].state matches RollbackState::ConfigFile { path: p, contents: c }
                && p@ == path@ && c == contents,
            final(self).points()[id@].valid,
            final(self).points()[id@].action_id == action_id,
            final(self).limit() == old(self).limit(),
    {
        let mut description = str_to_string("Config file: ");
        description.append(path);
        let state = RollbackState::ConfigFile { path: str_to_string(path), contents };
        self.add_new(description, state, action_id)
    }

    /// Creates a rollback point with multiple states.
    pub fn create_multi_point(&mut self, description: String, states: Vec<RollbackState>, action_id: Option<u128>) -> (id: String)
        ensures
            final(self).points().contains_key(id@),
            adds(old(self).points(), final(self).points(), old(self).limit(), final(self).points()[id@]),
            final(self).points()[id@].id@ == id@,
            final(self).points()[id@].description == description,
            final(self).points()[id@].state == RollbackState::Multiple(states),
            final(self).points()[id@].valid,
            final(self).points()[id@].action_id == action_id,
            final(self).limit() == old(self).limit(),
    {
        self.add_new(description, RollbackState::Multiple(states), action_id)
    }

    /// Gets a rollback point by ID.
    pub fn get(&self, id: &str) -> (r: Option<&RollbackPoint>)
        ensures
            match r {
                Some(p) => self.points().contains_key(id@) && *p == self.points()[id@],
                None => !self.points().contains_key(id@),
            },
    {
        proof {
            use_type_invariant(self);
            entries_map_facts(self.entries@);
        }
        match self.position(id) {
            Some(i) => Some(&self.entries[i].1),
            None => None,
        }
    }

    /// Checks that a rollback to `id` can go ahead, and gives the point to
    /// restore.
    pub fn begin_rollback(&self, id: &str) -> (r: Result<&RollbackPoint, AutofixError>)
        ensures
            match rollback_verdict(self.points(), id@) {
                RollbackVerdict::Missing => r matches Err(AutofixError::RollbackNotFound { id: x }) && x@ == id@,
                RollbackVerdict::Spent => r matches Err(AutofixError::RollbackFailed { message: m })
                    && m@ == "Rollback point is no longer valid"@,
                RollbackVerdict::Ready => r matches Ok(p) && *p == self.points()[id@],
            },
    {
        match self.get(id) {
            None => Err(AutofixError::RollbackNotFound { id: str_to_string(id) }),
            Some(p) => {
                if !p.valid {
                    Err(AutofixError::rollback_failed("Rollback point is no longer valid"))
                } else {
                    Ok(p)
                }
            }
        }
    }

    /// Invalidates a rollback point without restoring (also how a used
    /// point is marked).
    pub fn invalidate(&mut self, id: &str)
        ensures
            final(self).points() == mark_spent(old(self).points(), id@),
            final(self).limit() == old(self).limit(),
            final(self).directory() == old(self).directory(),
    {
        proof {
            use_type_invariant(&*self);
            entries_map_facts(self.entries@);
        }
        match self.position(id) {
            Some(i) => {
                let ghost before = self.entries@;
                let mut entries: Vec<(String, RollbackPoint)> = Vec::new();
                std::mem::swap(&mut entries, &mut self.entries);
                let (k, p) = entries.remove(i);
                let ghost p0 = p;
                let mut p = p;
                p.valid = false;
                assert(p == spent(p0));
                entries.insert(i, (k, p));
                proof {
                    assert(entries@ =~= before.update(i as int, (k, spent(p0))));
                    entries_map_update(before, i as int, (k, spent(p0)));
                }
                self.entries = entries;
            }
            None => {}
        }
    }

    /// Replaces the points with those loaded from storage (later entries
    /// replacing earlier ones with the same key), keeping the valid ones.
    pub fn load(&mut self, loaded: Vec<(String, RollbackPoint)>)
        ensures
            final(self).points() == entries_map(loaded@).restrict(valid_keys(entries_map(loaded@))),
            final(self).limit() == old(self).limit(),
            final(self).directory() == old(self).directory(),
    {
        self.entries = Vec::new();
        let n0 = loaded.len();
        let ghost src = loaded@;
        let mut rest = loaded;
        let mut k: usize = 0;
        assert(src.take(0) =~= Seq::<(String, RollbackPoint)>::empty());
        while rest.len() > 0
            invariant
                src.len() <= usize::MAX,
                k + rest@.len() == src.len(),
                rest@ == src.skip(k as int),
                self.points() == entries_map(src.take(k as int)),
                self.limit() == old(self).limit(),
                self.directory() == old(self).directory(),
            decreases rest@.len(),
        {
            let (key, p) = rest.remove(0);
            assert(rest@ =~= src.skip(k + 1));
            assert(src.take(k + 1).drop_last() =~= src.take(k as int));
            assert(src.take(k + 1).last() == src[k as int]);
            self.upsert(key, p);
            k = k + 1;
        }
        assert(src.take(k as int) =~= src);
        let ghost m = self.points();
        self.retain_where(false, Timestamp { secs: 0, nanos: 0 });
        assert(self.points() =~= m.restrict(valid_keys(m))) by {
            assert(kept_keys_when(m, false, Timestamp { secs: 0, nanos: 0 }) =~= valid_keys(m));
        }
    }

    /// Keeps the points that are valid, or (when `by_age`) created after
    /// `cutoff`.
    fn retain_where(&mut self, by_age: bool, cutoff: Timestamp)
        ensures
            final(self).points() == old(self).points().restrict(kept_keys_when(old(self).points(), by_age, cutoff)),
            final(self).limit() == old(self).limit(),
            final(self).directory() == old(self).directory(),
    {
        proof {
            use_type_invariant(&*self);
            entries_map_facts(self.entries@);
        }
        let ghost m = self.points();
        let n0 = self.entries.len();
        let ghost src = self.entries@;
        let mut rest: Vec<(String, RollbackPoint)> = Vec::new();
        std::mem::swap(&mut rest, &mut self.entries);
        let mut kept: Vec<(String, RollbackPoint)> = Vec::new();
        let mut k: usize = 0;
        while rest.len() > 0
            invariant
                src.len() <= usize::MAX,
                keys_unique(src),
                m == entries_map(src),
                k + rest@.len() == src.len(),
                rest@ == src.skip(k as int),
                keys_unique(kept@),
                forall|j: int| 0 <= j < kept@.len() ==> has_key(src.take(k as int), (#[trigger] kept@[j]).0@),
                forall|x: Seq<char>| #[trigger] has_key(kept@, x) <==>
                    (has_key(src.take(k as int), x) && kept_keys_when(m, by_age, cutoff).contains(x)),
                forall|j: int| 0 <= j < kept@.len() ==> (#[trigger] kept@[j]).1 == m[kept@[j].0@],
            decreases rest@.len(),
        {
            proof { entries_map_facts(src); }
            let (key, p) = rest.remove(0);
            assert(rest@ =~= src.skip(k + 1));
            assert(src[k as int] == (key, p));
            assert(m[key@] == p);
            let keep = p.valid || (by_age && cutoff.is_before(&p.created_at));
            let ghost before = kept@;
            if keep {
                proof {
                    assert(!has_key(before, key@)) by {
                        if has_key(before, key@) {
                            let j = choose|j: int| 0 <= j < before.len() && (#[trigger] before[j]).0@ == key@;
                            let a = choose|a: int| 0 <= a < src.take(k as int).len() && (#[trigger] src.take(k as int)[a]).0@ == key@;
                            assert(src[a] == src.take(k as int)[a]);
                        }
                    }
                }
                kept.push((key, p));
                proof {
                    assert forall|a: int, b: int| 0 <= a < b < kept@.len() implies (#[trigger] kept@[a]).0@ != (#[trigger] kept@[b]).0@ by {
                        assert(kept@[a] == before[a]);
                        if b < before.len() {
                            assert(kept@[b] == before[b]);
                        }
                    }
                }
            }
            proof {
                let t1 = src.take(k + 1);
                assert forall|x: Seq<char>| #[trigger] has_key(t1, x) <==> (has_key(src.take(k as int), x) || x == src[k as int].0@) by {
                    if has_key(t1, x) {
                        let a = choose|a: int| 0 <= a < t1.len() && (#[trigger] t1[a]).0@ == x;
                        if a < k {
                            assert(src.take(k as int)[a] == t1[a]);
                        }
                    }
                    if has_key(src.take(k as int), x) {
                        let a = choose|a: int| 0 <= a < src.take(k as int).len() && (#[trigger] src.take(k as int)[a]).0@ == x;
                        assert(t1[a] == src.take(k as int)[a]);
                    }
                    if x == src[k as int].0@ {
                        assert(t1[k as int] == src[k as int]);
                    }
                }
                assert forall|x: Seq<char>| #[trigger] has_key(kept@, x) <==> (has_key(before, x) || (keep && x == key@)) by {
                    if has_key(kept@, x) {
                        let a = choose|a: int| 0 <= a < kept@.len() && (#[trigger] kept@[a]).0@ == x;
                        if a < before.len() {
                            assert(kept@[a] == before[a]);
                        }
                    }
                    if has_key(before, x) {
                        let a = choose|a: int| 0 <= a < before.len() && (#[trigger] before[a]).0@ == x;
                        assert(kept@[a] == before[a]);
                    }
                    if keep && x == key@ {
                        assert(kept@[before.len() as int] == (key, p));
                    }
                }
                assert(m.contains_key(key@)) by {
                    assert(has_key(src, key@)) by { assert(src[k as int].0@ == key@); }
                }
                assert(kept_keys_when(m, by_age, cutoff).contains(key@) == keep);
                assert forall|j: int| 0 <= j < kept@.len() implies has_key(t1, (#[trigger] kept@[j]).0@) by {
                    if j < before.len() {
                        assert(kept@[j] == before[j]);
                        assert(has_key(src.take(k as int), before[j].0@));
                    } else {
                        assert(t1[k as int].0@ == key@);
                    }
                }
                assert forall|j: int| 0 <= j < kept@.len() implies (#[trigger] kept@[j]).1 == m[kept@[j].0@] by {
                    if j < before.len() {
                        assert(kept@[j] == before[j]);
                    }
                }
            }
            k = k + 1;
        }
        assert(src.take(k as int) =~= src);
        proof {
            entries_map_facts(kept@);
            let target = m.restrict(kept_keys_when(m, by_age, cutoff));
            assert forall|x: Seq<char>| entries_map(kept@).contains_key(x) <==> target.contains_key(x) by {
                if has_key(src, x) {
                }
            }
            assert forall|x: Seq<char>| #[trigger] entries_map(kept@).contains_key(x) implies entries_map(kept@)[x] == target[x] by {
                let j = choose|j: int| 0 <= j < kept@.len() && (#[trigger] kept@[j]).0@ == x;
                assert(entries_map(kept@)[kept@[j].0@] == kept@[j].1);
            }
            assert(entries_map(kept@) =~= target);
        }
        self.entries = kept;
    }

    /// Removes the invalid points created at or before `cutoff`; returns
    /// how many were removed.
    pub fn cleanup_before(&mut self, cutoff: Timestamp) -> (removed: usize)
        ensures
            final(self).points() == old(self).points().restrict(kept_keys(old(self).points(), cutoff)),
            removed == old(self).points().len() - final(self).points().len(),
            final(self).limit() == old(self).limit(),
            final(self).directory() == old(self).directory(),
    {
        proof {
            use_type_invariant(&*self);
            entries_map_facts(self.entries@);
        }
        let before = self.entries.len();
        self.retain_where(true, cutoff);
        proof {
            use_type_invariant(&*self);
            entries_map_facts(self.entries@);
            assert(kept_keys_when(old(self).points(), true, cutoff) =~= kept_keys(old(self).points(), cutoff));
        }
        assert(self.entries@.len() <= before) by {
            assert(self.points().dom().subset_of(old(self).points().dom()));
            vstd::set_lib::lemma_len_subset(self.points().dom(), old(self).points().dom());
        }
        before - self.entries.len()
    }

    /// Cleans up old rollback points: removes the invalid ones created more
    /// than `max_age_hours` ago by the clock; returns how many were removed.
    pub fn cleanup(&mut self, max_age_hours: u32) -> (removed: usize)
        ensures
            exists|cutoff: Timestamp| final(self).points() == #[trigger] old(self).points().restrict(kept_keys(old(self).points(), cutoff)),
            removed == old(self).points().len() - final(self).points().len(),
            final(self).limit() == old(self).limit(),
    {
        let t = now();
        let span: i64 = (max_age_hours as i64) * 3600;
        let secs = if t.secs >= i64::MIN + span { t.secs - span } else { i64::MIN };
        let cutoff = Timestamp { secs, nanos: t.nanos };
        self.cleanup_before(cutoff)
    }

    /// Lists the valid rollback points, newest first.
    pub fn list(&self) -> (r: Vec<&RollbackPoint>)
        ensures
            forall|i: int, j: int| 0 <= i < j < r@.len() ==> !earlier(r@[i].created_at, r@[j].created_at),
            exists|ks: Seq<Seq<char>>| {
                &&& ks.len() == r@.len()
                &&& ks.no_duplicates()
                &&& ks.to_set() == valid_keys(self.points())
                &&& forall|i: int| 0 <= i < ks.len() ==> self.points()[#[trigger] ks[i]] == *r@[i]
            },
    {
        proof {
            use_type_invariant(self);
            entries_map_facts(self.entries@);
        }
        let es = &self.entries;
        let mut order: Vec<usize> = Vec::new();
        let mut i: usize = 0;
        while i < es.len()
            invariant
                i <= es@.len(),
                keys_unique(es@),
                forall|a: int| 0 <= a < order@.len() ==> (#[trigger] order@[a]) < i && es@[order@[a] as int].1.valid,
                order@.no_duplicates(),
                forall|x: usize| x < i && es@[x as int].1.valid ==> #[trigger] order@.contains(x),
                forall|a: int, b: int| 0 <= a < b < order@.len() ==>
                    !earlier(es@[(#[trigger] order@[a]) as int].1.created_at, es@[(#[trigger] order@[b]) as int].1.created_at),
            decreases es@.len() - i,
        {
            if es[i].1.valid {
                let mut p: usize = 0;
                while p < order.len() && !es[order[p]].1.created_at.is_before(&es[i].1.created_at)
                    invariant
                        p <= order@.len(),
                        i < es@.len(),
                        forall|a: int| 0 <= a < order@.len() ==> (#[trigger] order@[a]) < i,
                        forall|a: int| 0 <= a < p ==> !earlier(es@[(#[trigger] order@[a]) as int].1.created_at, es@[i as int].1.created_at),
                    decreases order@.len() - p,
                {
                    p = p + 1;
                }
                let ghost before = order@;
                order.insert(p, i);
                proof {
                    assert(order@ =~= before.insert(p as int, i));
                    assert forall|a: int, b: int| 0 <= a < b < order@.len() implies
                        !earlier(es@[(#[trigger] order@[a]) as int].1.created_at, es@[(#[trigger] order@[b]) as int].1.created_at) by {
                        if b < p {
                            assert(order@[a] == before[a] && order@[b] == before[b]);
                        } else if b == p {
                            assert(order@[a] == before[a]);
                        } else if a < p {
                            assert(order@[a] == before[a] && order@[b] == before[b - 1]);
                        } else if a == p {
                            assert(order@[b] == before[b - 1]);
                            assert(earlier(es@[before[p as int] as int].1.created_at, es@[i as int].1.created_at));
                        } else {
                            assert(order@[a] == before[a - 1] && order@[b] == before[b - 1]);
                        }
                    }
                    assert(order@.no_duplicates()) by {
                        assert forall|a: int, b: int| 0 <= a < order@.len() && 0 <= b < order@.len() && a != b implies order@[a] != order@[b] by {
                            let ia = if a < p { a } else if a == p { -1 } else { a - 1 };
                            let ib = if b < p { b } else if b == p { -1 } else { b - 1 };
                            if ia >= 0 { assert(order@[a] == before[ia]); }
                            if ib >= 0 { assert(order@[b] == before[ib]); }
                        }
                    }
                    assert forall|x: usize| x < i + 1 && es@[x as int].1.valid implies #[trigger] order@.contains(x) by {
                        if x < i {
                            assert(before.contains(x));
                            let a = choose|a: int| 0 <= a < before.len() && before[a] == x;
                            if a < p { assert(order@[a] == x); } else { assert(order@[a + 1] == x); }
                        } else {
                            assert(order@[p as int] == x);
                        }
                    }
                    assert forall|a: int| 0 <= a < order@.len() implies (#[trigger] order@[a]) < i + 1 && es@[order@[a] as int].1.valid by {
                        if a < p { assert(order@[a] == before[a]); }
                        else if a > p { assert(order@[a] == before[a - 1]); }
                    }
                }
            }
            i = i + 1;
        }
        let mut r: Vec<&RollbackPoint> = Vec::new();
        let mut j: usize = 0;
        while j < order.len()
            invariant
                j <= order@.len(),
                r@.len() == j,
                forall|a: int| 0 <= a < order@.len() ==> (#[trigger] order@[a]) < es@.len(),
                forall|a: int| 0 <= a < j ==> *r@[a] == es@[order@[a] as int].1,
            decreases order@.len() - j,
        {
            r.push(&es[order[j]].1);
            j = j + 1;
        }
        proof {
            let m = self.points();
            let ks = order@.map_values(|x: usize| es@[x as int].0@);
            assert forall|a: int, b: int| 0 <= a < b < ks.len() implies ks[a] != ks[b] by {
                assert(order@[a] != order@[b]);
                if order@[a] < order@[b] {
                    assert(es@[order@[a] as int].0@ != es@[order@[b] as int].0@);
                } else {
                    assert(es@[order@[b] as int].0@ != es@[order@[a] as int].0@);
                }
            }
            assert(ks.no_duplicates());
            assert forall|x: Seq<char>| ks.to_set().contains(x) <==> valid_keys(m).contains(x) by {
                if ks.to_set().contains(x) {
                    let a = choose|a: int| 0 <= a < ks.len() && ks[a] == x;
                    assert(m[es@[order@[a] as int].0@] == es@[order@[a] as int].1);
                    assert(has_key(es@, x));
                }
                if valid_keys(m).contains(x) {
                    assert(has_key(es@, x));
                    let e = choose|e: int| 0 <= e < es@.len() && (#[trigger] es@[e]).0@ == x;
                    assert(m[es@[e].0@] == es@[e].1);
                    assert(order@.contains(e as usize));
                    let a = choose|a: int| 0 <= a < order@.len() && order@[a] == e as usize;
                    assert(ks[a] == x);
                }
            }
            assert(ks.to_set() =~= valid_keys(m));
            assert forall|a: int| 0 <= a < ks.len() implies m[#[trigger] ks[a]] == *r@[a] by {
                assert(m[es@[order@[a] as int].0@] == es@[order@[a] as int].1);
            }
        }
        r
    }
}

/// The keys kept by a retain: valid points, and (when `by_age`) those
/// created after `cutoff`.
pub open spec fn kept_keys_when(m: Map<Seq<char>, RollbackPoint>, by_age: bool, cutoff: Timestamp) -> Set<Seq<char>> {
    m.dom().filter(|k: Seq<char>| m[k].valid || (by_age && earlier(cutoff, m[k].created_at)))
}

/// The larger of the limit and one: adding to a manager whose limit is
/// zero still keeps the new point.
pub open spec fn point_bound(max: usize) -> nat {
    if max == 0 { 1 } else { max as nat }
}

/// Adding a point never takes the manager past its limit (or past one
/// point, for a limit of zero) when it was within it.
pub proof fn adding_keeps_bound(old: Map<Seq<char>, RollbackPoint>, new: Map<Seq<char>, RollbackPoint>, max: usize, p: RollbackPoint)
    requires
        old.dom().finite(),
        old.len() <= point_bound(max),
        adds(old, new, max, p),
    ensures
        new.dom().finite(),
        new.len() <= point_bound(max),
{
    if old.len() >= max && old.len() > 0 {
        let k = choose|k: Seq<char>| #[trigger] oldest(old, k) && new == old.remove(k).insert(p.id@, p);
        let r = old.remove(k);
        assert(r.len() == old.len() - 1);
        assert(r.insert(p.id@, p).len() <= r.len() + 1);
    } else {
        assert(old.insert(p.id@, p).len() <= old.len() + 1);
    }
}

/// A point just added can be rolled back to.
pub proof fn added_point_is_ready(old: Map<Seq<char>, RollbackPoint>, new: Map<Seq<char>, RollbackPoint>, max: usize, p: RollbackPoint)
    requires
        adds(old, new, max, p),
        p.valid,
    ensures
        rollback_verdict(new, p.id@) == RollbackVerdict::Ready,
        new[p.id@] == p,
{
    if old.len() >= max && old.len() > 0 {
        let k = choose|k: Seq<char>| #[trigger] oldest(old, k) && new == old.remove(k).insert(p.id@, p);
    }
}

/// A point that was used (or invalidated) cannot be rolled back to again.
pub proof fn spent_point_refuses_rollback(m: Map<Seq<char>, RollbackPoint>, id: Seq<char>)
    requires
        m.contains_key(id),
    ensures
        rollback_verdict(mark_spent(m, id), id) == RollbackVerdict::Spent,
{
}

/// Marking a point used touches no other point.
pub proof fn marking_spares_others(m: Map<Seq<char>, RollbackPoint>, id: Seq<char>, other: Seq<char>)
    requires
        other != id,
    ensures
        mark_spent(m, id).contains_key(other) == m.contains_key(other),
        m.contains_key(other) ==> mark_spent(m, id)[other] == m[other],
{
}

/// A cleanup never removes a valid point, and keeps every point newer
/// than its cutoff.
pub proof fn cleanup_keeps_valid(m: Map<Seq<char>, RollbackPoint>, cutoff: Timestamp, k: Seq<char>)
    requires
        m.contains_key(k),
        m[k].valid || earlier(cutoff, m[k].created_at),
    ensures
        m.restrict(kept_keys(m, cutoff)).contains_key(k),
        m.restrict(kept_keys(m, cutoff))[k] == m[k],
{
}

/// After loading, every point held is valid.
pub proof fn loaded_points_are_valid(loaded: Seq<(String, RollbackPoint)>, k: Seq<char>)
    requires
        entries_map(loaded).restrict(valid_keys(entries_map(loaded))).contains_key(k),
    ensures
        entries_map(loaded).restrict(valid_keys(entries_map(loaded)))[k].valid,
{
}

} // verus!
