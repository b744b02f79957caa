//! In-flight de-duplication and result caching for idempotent commands.
//!
//! The store decides; the caller does the waiting. For each call of an
//! idempotent command the caller asks [`IdempotencyStore::begin`] whether to
//! answer from the cache, to wait for a call already under way, or to run
//! the command itself; the one that runs it reports the outcome with
//! [`IdempotencyStore::finish_ok`] or [`IdempotencyStore::finish_err`] and
//! gets back the waiters to notify. Time is the span since some fixed
//! instant of the caller's choosing.

use vstd::prelude::*;

use crate::duration::Duration;

verus! {

/// What the store holds for one key.
pub enum Slot<V, W> {
    /// A call is running; these waiters joined it, in order.
    InFlight(Seq<W>),
    /// The last call succeeded with this value, at this time (in nanoseconds).
    Completed(V, nat),
}

/// The abstract content of the store for one key.
pub struct Flight<V, W> {
    /// What is held.
    pub slot: Slot<V, W>,
    /// How long a completed value stays fresh (in nanoseconds), if it expires.
    pub ttl: Option<nat>,
}

/// What a call of an idempotent command should do.
pub enum Begin<V, W> {
    /// Answer with this cached value; the waiter was not needed and is handed back.
    Cached(V, W),
    /// The waiter joined the call under way; it will be notified of its outcome.
    Joined,
    /// Run the command and report its outcome; the waiter was not needed and
    /// is handed back.
    Lead(W),
}

/// Which of the three things a call should do.
#[derive(Debug, Clone, Copy, PartialEq, Eq, Structural)]
pub enum BeginKind {
    /// Answer from the cache.
    Cached,
    /// Wait for the call under way.
    Joined,
    /// Run the command.
    Lead,
}

enum EntryState<V, W> {
    InFlight(Vec<W>),
    Completed(V, Duration),
}

struct Entry<V, W> {
    key: String,
    state: EntryState<V, W>,
    ttl: Option<Duration>,
}

/// A span in nanoseconds, if there is one.
pub open spec fn opt_nanos(d: Option<Duration>) -> Option<nat> {
    match d {
        Some(x) => Some(x@),
        None => None,
    }
}

/// The time since `at`, or zero if `at` lies ahead.
pub open spec fn elapsed_since(at: nat, now: nat) -> nat {
    if now >= at {
        (now - at) as nat
    } else {
        0
    }
}

/// Whether a value completed at `at` is stale at `now`: only a value with a
/// lifetime expires, once that lifetime has fully elapsed.
pub open spec fn expired(at: nat, now: nat, ttl: Option<nat>) -> bool {
    match ttl {
        Some(t) => elapsed_since(at, now) >= t,
        None => false,
    }
}

/// The lifetime an entry has once a call has passed `ttl`: a given
/// lifetime replaces the stored one.
pub open spec fn updated_ttl(stored: Option<nat>, ttl: Option<nat>) -> Option<nat> {
    match ttl {
        Some(t) => Some(t),
        None => stored,
    }
}

/// What a call with the given lifetime, at `now`, should do.
pub open spec fn begin_kind<V, W>(m: Map<Seq<char>, Flight<V, W>>, key: Seq<char>, ttl: Option<nat>, now: nat) -> BeginKind {
    if !m.contains_key(key) {
        BeginKind::Lead
    } else {
        match m[key].slot {
            Slot::InFlight(_) => BeginKind::Joined,
            Slot::Completed(_, at) => if expired(at, now, updated_ttl(m[key].ttl, ttl)) {
                BeginKind::Lead
            } else {
                BeginKind::Cached
            },
        }
    }
}

/// The store after such a call.
pub open spec fn after_begin<V, W>(
    m: Map<Seq<char>, Flight<V, W>>,
    key: Seq<char>,
    ttl: Option<nat>,
    now: nat,
    waiter: W,
) -> Map<Seq<char>, Flight<V, W>> {
    match begin_kind(m, key, ttl, now) {
        BeginKind::Lead => m.insert(key, Flight { slot: Slot::InFlight(Seq::empty()), ttl }),
        BeginKind::Joined => m.insert(
            key,
            Flight {
                slot: Slot::InFlight(m[key].slot->InFlight_0.push(waiter)),
                ttl: updated_ttl(m[key].ttl, ttl),
            },
        ),
        BeginKind::Cached => m.insert(
            key,
            Flight { slot: m[key].slot, ttl: updated_ttl(m[key].ttl, ttl) },
        ),
    }
}

/// The waiters to notify when the call for `key` ends.
pub open spec fn waiters_to_notify<V, W>(m: Map<Seq<char>, Flight<V, W>>, key: Seq<char>) -> Seq<W> {
    if m.contains_key(key) && m[key].slot is InFlight {
        m[key].slot->InFlight_0
    } else {
        Seq::empty()
    }
}

/// The store after the call for `key` succeeded with `value` at `now`.
pub open spec fn after_success<V, W>(m: Map<Seq<char>, Flight<V, W>>, key: Seq<char>, value: V, now: nat) -> Map<Seq<char>, Flight<V, W>> {
    if m.contains_key(key) {
        m.insert(key, Flight { slot: Slot::Completed(value, now), ttl: m[key].ttl })
    } else {
        m
    }
}

/// Whether a value completed at `at` is stale at `now`.
pub fn is_expired(at: Duration, now: Duration, ttl: Option<Duration>) -> (b: bool)
    ensures
        b == expired(at@, now@, opt_nanos(ttl)),
{
    match ttl {
        Some(t) => now.saturating_sub(&at).at_least(&t),
        None => false,
    }
}

/// The key under which calls of `command` are de-duplicated when the rule
/// gives none: the command name, followed by a colon and the JSON text of
/// the arguments when there are arguments.
pub fn default_idempotency_key(command: &str, args: Option<&str>) -> (k: String)
    ensures
        k@ == match args {
            Some(a) => command@ + ":"@ + a@,
            None => command@,
        },
{
    let mut k = String::from_str(command);
    match args {
        Some(a) => {
            k.append(":");
            k.append(a);
        },
        None => {},
    }
    k
}

spec fn entry_flight<V, W>(e: Entry<V, W>) -> Flight<V, W> {
    Flight {
        slot: match e.state {
            EntryState::InFlight(ws) => Slot::InFlight(ws@),
            EntryState::Completed(v, at) => Slot::Completed(v, at@),
        },
        ttl: opt_nanos(e.ttl),
    }
}

spec fn keys_unique<V, W>(s: Seq<Entry<V, W>>) -> bool {
    forall|i: int, j: int| 0 <= i < s.len() && 0 <= j < s.len() && i != j ==> s[i].key@ != s[j].key@
}

spec fn has_key<V, W>(s: Seq<Entry<V, W>>, k: Seq<char>) -> bool {
    exists|i: int| 0 <= i < s.len() && #[trigger] s[i].key@ == k
}

spec fn flight_of<V, W>(s: Seq<Entry<V, W>>, k: Seq<char>) -> Flight<V, W> {
    entry_flight(s[choose|i: int| 0 <= i < s.len() && #[trigger] s[i].key@ == k])
}

spec fn flight_map<V, W>(s: Seq<Entry<V, W>>) -> Map<Seq<char>, Flight<V, W>> {
    Map::new(|k: Seq<char>| has_key(s, k), |k: Seq<char>| flight_of(s, k))
}

proof fn lemma_flight_at<V, W>(s: Seq<Entry<V, W>>, i: int)
    requires
        keys_unique(s),
        0 <= i < s.len(),
    ensures
        has_key(s, s[i].key@),
        flight_of(s, s[i].key@) == entry_flight(s[i]),
{
    let k = s[i].key@;
    assert(s[i].key@ == k);
    let j = choose|j: int| 0 <= j < s.len() && #[trigger] s[j].key@ == k;
    assert(j == i);
}

proof fn lemma_flight_map_remove<V, W>(s: Seq<Entry<V, W>>, i: int)
    requires
        keys_unique(s),
        0 <= i < s.len(),
    ensures
        keys_unique(s.remove(i)),
        flight_map(s.remove(i)) == flight_map(s).remove(s[i].key@),
{
    let r = s.remove(i);
    let k0 = s[i].key@;
    assert forall|k: Seq<char>| #[trigger] has_key(r, k) == (has_key(s, k) && k != k0) by {
        if has_key(r, k) {
            let j = choose|j: int| 0 <= j < r.len() && #[trigger] r[j].key@ == k;
            if j < i {
                assert(s[j] == r[j]);
            } else {
                assert(s[j + 1] == r[j]);
            }
        }
        if has_key(s, k) && k != k0 {
            let j = choose|j: int| 0 <= j < s.len() && #[trigger] s[j].key@ == k;
            if j < i {
                assert(r[j] == s[j]);
            } else {
                assert(j != i);
                assert(r[j - 1] == s[j]);
            }
        }
    }
    assert forall|k: Seq<char>| #[trigger] has_key(r, k) implies flight_of(r, k) == flight_of(s, k) by {
        let j = choose|j: int| 0 <= j < r.len() && #[trigger] r[j].key@ == k;
        lemma_flight_at(r, j);
        if j < i {
            assert(s[j] == r[j]);
            lemma_flight_at(s, j);
        } else {
            assert(s[j + 1] == r[j]);
            lemma_flight_at(s, j + 1);
        }
    }
    assert(flight_map(r) =~= flight_map(s).remove(k0));
}

proof fn lemma_flight_map_push<V, W>(s: Seq<Entry<V, W>>, e: Entry<V, W>)
    requires
        keys_unique(s),
        !has_key(s, e.key@),
    ensures
        keys_unique(s.push(e)),
        flight_map(s.push(e)) == flight_map(s).insert(e.key@, entry_flight(e)),
{
    let p = s.push(e);
    let k0 = e.key@;
    assert forall|i: int, j: int| 0 <= i < p.len() && 0 <= j < p.len() && i != j implies p[i].key@
        != p[j].key@ by {
        if i < s.len() && j < s.len() {
            assert(p[i] == s[i] && p[j] == s[j]);
        } else if i < s.len() {
            assert(p[i] == s[i]);
        } else {
            assert(p[j] == s[j]);
        }
    }
    assert forall|k: Seq<char>| #[trigger] has_key(p, k) == (has_key(s, k) || k == k0) by {
        if has_key(s, k) {
            let j = choose|j: int| 0 <= j < s.len() && #[trigger] s[j].key@ == k;
            assert(p[j] == s[j]);
        }
        if k == k0 {
            assert(p[s.len() as int].key@ == k0);
        }
        if has_key(p, k) && k != k0 {
            let j = choose|j: int| 0 <= j < p.len() && #[trigger] p[j].key@ == k;
            assert(j < s.len());
            assert(s[j] == p[j]);
        }
    }
    assert forall|k: Seq<char>| #[trigger] has_key(p, k) implies flight_of(p, k) == (if k == k0 {
        entry_flight(e)
    } else {
        flight_of(s, k)
    }) by {
        let j = choose|j: int| 0 <= j < p.len() && #[trigger] p[j].key@ == k;
        lemma_flight_at(p, j);
        if j < s.len() {
            assert(s[j] == p[j]);
            lemma_flight_at(s, j);
        }
    }
    assert(flight_map(p) =~= flight_map(s).insert(k0, entry_flight(e)));
}

/// Idempotency / in-flight de-duplication store.
pub struct IdempotencyStore<V, W> {
    entries: Vec<Entry<V, W>>,
}

impl<V, W> View for IdempotencyStore<V, W> {
    type V = Map<Seq<char>, Flight<V, W>>;

    closed spec fn view(&self) -> Map<Seq<char>, Flight<V, W>> {
        flight_map(self.entries@)
    }
}

impl<V, W> IdempotencyStore<V, W> {
    #[verifier::type_invariant]
    spec fn inv(self) -> bool {
        keys_unique(self.entries@)
    }

    /// An empty store.
    pub fn new() -> (s: Self)
        ensures
            s@ == Map::<Seq<char>, Flight<V, W>>::empty(),
    {
        let s = IdempotencyStore { entries: Vec::new() };
        assert(flight_map(s.entries@) =~= Map::<Seq<char>, Flight<V, W>>::empty());
        s
    }

    fn position(&self, key: &String) -> (r: Option<usize>)
        ensures
            match r {
                Some(i) => i < self.entries@.len() && self.entries@[i as int].key@ == key@,
                None => !has_key(self.entries@, key@),
            },
    {
        let mut i: usize = 0;
        while i < self.entries.len()
            invariant
                i <= self.entries@.len(),
                forall|j: int| 0 <= j < i ==> self.entries@[j].key@ != key@,
            decreases self.entries@.len() - i,
        {
            if self.entries[i].key == *key {
                return Some(i);
            }
            i = i + 1;
        }
        None
    }

    /// Take the entry for `key` out of the store, with its waiters.
    fn take_entry(&mut self, key: &str) -> (r: (Option<(Option<Duration>, String)>, Vec<W>))
        ensures
            final(self)@ == old(self)@.remove(key@),
            r.1@ == waiters_to_notify(old(self)@, key@),
            r.0 is Some <==> old(self)@.contains_key(key@),
            r.0 matches Some(x) ==> opt_nanos(x.0) == old(self)@[key@].ttl && x.1@ == key@,
    {
        proof {
            use_type_invariant(&*self);
        }
        let k = key.to_owned();
        match self.position(&k) {
            None => {
                assert(self@.remove(key@) =~= self@);
                (None, Vec::new())
            },
            Some(i) => {
                let mut v = Vec::new();
                std::mem::swap(&mut v, &mut self.entries);
                let ghost s0 = v@;
                proof {
                    lemma_flight_at(s0, i as int);
                    lemma_flight_map_remove(s0, i as int);
                }
                let e = v.remove(i);
                self.entries = v;
                let Entry { key: ekey, state, ttl } = e;
                let ws = match state {
                    EntryState::InFlight(ws) => ws,
                    EntryState::Completed(_, _) => Vec::new(),
                };
                (Some((ttl, ekey)), ws)
            },
        }
    }

    /// Record that the call under `key` succeeded with `value` at `now`: the
    /// value is cached (keeping the entry's lifetime) and the waiters that
    /// joined the call are handed back, in the order they joined. A key with
    /// no entry is left alone.
    pub fn finish_ok(&mut self, key: &str, value: V, now: Duration) -> (ws: Vec<W>)
        ensures
            final(self)@ == after_success(old(self)@, key@, value, now@),
            ws@ == waiters_to_notify(old(self)@, key@),
    {
        let ghost m = self@;
        let (taken, ws) = self.take_entry(key);
        match taken {
            None => {
                assert(self@ =~= after_success(m, key@, value, now@));
            },
            Some((ttl, k)) => {
                proof {
                    use_type_invariant(&*self);
                }
                let e = Entry { key: k, state: EntryState::Completed(value, now), ttl };
                let mut v = Vec::new();
                std::mem::swap(&mut v, &mut self.entries);
                proof {
                    assert(!has_key(v@, key@)) by {
                        assert(!flight_map(v@).contains_key(key@));
                    }
                    lemma_flight_map_push(v@, e);
                    assert(m.remove(key@).insert(key@, entry_flight(e)) =~= after_success(m, key@, value, now@));
                }
                v.push(e);
                self.entries = v;
            },
        }
        ws
    }

    /// Record that the call under `key` failed: the entry is dropped, so the
    /// next call runs the command again, and the waiters that joined the call
    /// are handed back, in the order they joined.
    pub fn finish_err(&mut self, key: &str) -> (ws: Vec<W>)
        ensures
            final(self)@ == old(self)@.remove(key@),
            ws@ == waiters_to_notify(old(self)@, key@),
    {
        let (_, ws) = self.take_entry(key);
        ws
    }
}

impl<V: Clone, W> IdempotencyStore<V, W> {
    /// Decide what a call of an idempotent command under `key` should do at
    /// `now`: answer with a fresh cached value, join the call already under
    /// way, or run the command (when there is nothing for the key, or only a
    /// stale value). A given lifetime `ttl` replaces the stored one.
    pub fn begin(&mut self, key: String, ttl: Option<Duration>, now: Duration, waiter: W) -> (r: Begin<V, W>)
        ensures
            final(self)@ == after_begin(old(self)@, key@, opt_nanos(ttl), now@, waiter),
            match r {
                Begin::Cached(v, w) => {
                    &&& begin_kind(old(self)@, key@, opt_nanos(ttl), now@) == BeginKind::Cached
                    &&& cloned(old(self)@[key@].slot->Completed_0, v)
                    &&& w == waiter
                },
                Begin::Joined => begin_kind(old(self)@, key@, opt_nanos(ttl), now@) == BeginKind::Joined,
                Begin::Lead(w) => {
                    &&& begin_kind(old(self)@, key@, opt_nanos(ttl), now@) == BeginKind::Lead
                    &&& w == waiter
                },
            },
    {
        proof {
            use_type_invariant(&*self);
        }
        let ghost m = self@;
        let ghost k = key@;
        let ghost t = opt_nanos(ttl);
        match self.position(&key) {
            None => {
                let mut v = Vec::new();
                std::mem::swap(&mut v, &mut self.entries);
                let e = Entry { key, state: EntryState::InFlight(Vec::new()), ttl };
                proof {
                    lemma_flight_map_push(v@, e);
                    assert(entry_flight(e) == (Flight::<V, W> { slot: Slot::InFlight(Seq::empty()), ttl: t }));
                }
                v.push(e);
                self.entries = v;
                Begin::Lead(waiter)
            },
            Some(i) => {
                let mut v = Vec::new();
                std::mem::swap(&mut v, &mut self.entries);
                let ghost s0 = v@;
                proof {
                    lemma_flight_at(s0, i as int);
                    lemma_flight_map_remove(s0, i as int);
                }
                let e = v.remove(i);
                let Entry { key: ekey, state, ttl: stored_ttl } = e;
                let new_ttl = match ttl {
                    Some(x) => Some(x),
                    None => stored_ttl,
                };
                assert(opt_nanos(new_ttl) == updated_ttl(opt_nanos(stored_ttl), t));
                match state {
                    EntryState::Completed(value, at) => {
                        if !is_expired(at, now, new_ttl) {
                            let c = value.clone();
                            let e2 = Entry { key: ekey, state: EntryState::Completed(value, at), ttl: new_ttl };
                            proof {
                                lemma_flight_map_push(v@, e2);
                                assert(flight_map(s0).remove(k).insert(k, entry_flight(e2)) =~= after_begin(m, k, t, now@, waiter));
                            }
                            v.push(e2);
                            self.entries = v;
                            Begin::Cached(c, waiter)
                        } else {
                            let e2 = Entry { key, state: EntryState::InFlight(Vec::new()), ttl };
                            proof {
                                lemma_flight_map_push(v@, e2);
                                assert(entry_flight(e2) == (Flight::<V, W> { slot: Slot::InFlight(Seq::empty()), ttl: t }));
                                assert(flight_map(s0).remove(k).insert(k, entry_flight(e2)) =~= after_begin(m, k, t, now@, waiter));
                            }
                            v.push(e2);
                            self.entries = v;
                            Begin::Lead(waiter)
                        }
                    },
                    EntryState::InFlight(ws) => {
                        let mut ws = ws;
                        ws.push(waiter);
                        let e2 = Entry { key: ekey, state: EntryState::InFlight(ws), ttl: new_ttl };
                        proof {
                            lemma_flight_map_push(v@, e2);
                            assert(flight_map(s0).remove(k).insert(k, entry_flight(e2)) =~= after_begin(m, k, t, now@, waiter));
                        }
                        v.push(e2);
                        self.entries = v;
                        Begin::Joined
                    },
                }
            },
        }
    }

}

/// Only one call runs at a time per key: once a call has been told to run
/// the command, every later call for the key joins it until it finishes.
pub proof fn law_single_flight<V, W>(
    m: Map<Seq<char>, Flight<V, W>>,
    key: Seq<char>,
    ttl: Option<nat>,
    now: nat,
    waiter: W,
    ttl2: Option<nat>,
    now2: nat,
)
    requires
        begin_kind(m, key, ttl, now) == BeginKind::Lead,
    ensures
        begin_kind(after_begin(m, key, ttl, now, waiter), key, ttl2, now2) == BeginKind::Joined,
{
}

/// The waiters that joined a call are exactly the ones notified of its
/// outcome, in the order they joined.
pub proof fn law_joined_waiters_are_notified<V, W>(
    m: Map<Seq<char>, Flight<V, W>>,
    key: Seq<char>,
    ttl: Option<nat>,
    now: nat,
    waiter: W,
)
    requires
        begin_kind(m, key, ttl, now) == BeginKind::Joined,
    ensures
        waiters_to_notify(after_begin(m, key, ttl, now, waiter), key) == waiters_to_notify(m, key).push(
            waiter,
        ),
{
}

/// After a successful call, a later call for the same key is answered with
/// the value that call produced, for as long as the value is fresh.
pub proof fn law_success_is_cached<V, W>(
    m: Map<Seq<char>, Flight<V, W>>,
    key: Seq<char>,
    value: V,
    done: nat,
    ttl: Option<nat>,
    now: nat,
)
    requires
        m.contains_key(key),
        !expired(done, now, updated_ttl(m[key].ttl, ttl)),
    ensures
        begin_kind(after_success(m, key, value, done), key, ttl, now) == BeginKind::Cached,
        after_success(m, key, value, done)[key].slot == Slot::<V, W>::Completed(value, done),
{
}

/// A value without a lifetime never goes stale.
pub proof fn law_no_ttl_never_expires(at: nat, now: nat)
    ensures
        !expired(at, now, None),
{
}

/// A stale value is never served: the call runs the command again.
pub proof fn law_stale_value_is_refreshed<V, W>(
    m: Map<Seq<char>, Flight<V, W>>,
    key: Seq<char>,
    ttl: Option<nat>,
    now: nat,
)
    requires
        m.contains_key(key),
        m[key].slot matches Slot::Completed(_, at) && expired(at, now, updated_ttl(m[key].ttl, ttl)),
    ensures
        begin_kind(m, key, ttl, now) == BeginKind::Lead,
{
}

/// After a failed call, the next call for the key runs the command again.
pub proof fn law_failure_is_not_cached<V, W>(
    m: Map<Seq<char>, Flight<V, W>>,
    key: Seq<char>,
    ttl: Option<nat>,
    now: nat,
)
    ensures
        begin_kind(m.remove(key), key, ttl, now) == BeginKind::Lead,
{
}

/// A lifetime given with a call replaces the stored one, whatever that was;
/// a call without one keeps the stored lifetime.
pub proof fn law_given_ttl_replaces_stored(stored: Option<nat>, t: nat)
    ensures
        updated_ttl(stored, Some(t)) == Some(t),
        updated_ttl(stored, None) == stored,
{
}

/// A call that gives the lifetime `t` judges a cached value against `t`
/// alone: the value is served while less than `t` has elapsed since it was
/// cached, and the command runs again once `t` has elapsed, whatever
/// lifetime the entry had before.
pub proof fn law_given_ttl_judges_expiry<V, W>(
    m: Map<Seq<char>, Flight<V, W>>,
    key: Seq<char>,
    t: nat,
    now: nat,
)
    requires
        m.contains_key(key),
        m[key].slot is Completed,
    ensures
        begin_kind(m, key, Some(t), now) == (if elapsed_since(m[key].slot->Completed_1, now) >= t {
            BeginKind::Lead
        } else {
            BeginKind::Cached
        }),
{
}

} // verus!
