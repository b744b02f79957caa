//! Correlation of requests with responses.
//!
//! Every request carries a numeric id; the caller registers a waiter under
//! that id before sending, and the reader hands each response to the waiter
//! registered under the id that the response echoes.

use vstd::prelude::*;

use serde_json::Value;

use crate::types::QmpResponse;

verus! {

/// The waiters of the calls that await a response, by request id.
pub struct PendingCalls<W> {
    entries: Vec<(u64, W)>,
}

/// Whether no id occurs twice among the entries.
pub open spec fn ids_unique<W>(s: Seq<(u64, W)>) -> bool {
    forall|i: int, j: int| 0 <= i < s.len() && 0 <= j < s.len() && i != j ==> s[i].0 != s[j].0
}

/// Whether some entry has the id.
pub open spec fn has_id<W>(s: Seq<(u64, W)>, id: u64) -> bool {
    exists|i: int| 0 <= i < s.len() && #[trigger] s[i].0 == id
}

/// The waiter of the entry with the id.
pub open spec fn waiter_of<W>(s: Seq<(u64, W)>, id: u64) -> W {
    s[choose|i: int| 0 <= i < s.len() && #[trigger] s[i].0 == id].1
}

/// The map from id to waiter that the entries describe.
pub open spec fn entry_map<W>(s: Seq<(u64, W)>) -> Map<u64, W> {
    Map::new(|id: u64| has_id(s, id), |id: u64| waiter_of(s, id))
}

proof fn lemma_waiter_at<W>(s: Seq<(u64, W)>, i: int)
    requires
        ids_unique(s),
        0 <= i < s.len(),
    ensures
        has_id(s, s[i].0),
        waiter_of(s, s[i].0) == s[i].1,
{
    let id = s[i].0;
    assert(s[i].0 == id);
    let j = choose|j: int| 0 <= j < s.len() && #[trigger] s[j].0 == id;
    assert(j == i);
}

proof fn lemma_map_remove<W>(s: Seq<(u64, W)>, i: int)
    requires
        ids_unique(s),
        0 <= i < s.len(),
    ensures
        ids_unique(s.remove(i)),
        entry_map(s.remove(i)) == entry_map(s).remove(s[i].0),
{
    let r = s.remove(i);
    let id = s[i].0;
    assert forall|k: u64| #[trigger] has_id(r, k) == (has_id(s, k) && k != id) by {
        if has_id(r, k) {
            let j = choose|j: int| 0 <= j < r.len() && #[trigger] r[j].0 == k;
            if j < i {
                assert(s[j] == r[j]);
            } else {
                assert(s[j + 1] == r[j]);
            }
        }
        if has_id(s, k) && k != id {
            let j = choose|j: int| 0 <= j < s.len() && #[trigger] s[j].0 == k;
            if j < i {
                assert(r[j] == s[j]);
            } else {
                assert(j != i);
                assert(r[j - 1] == s[j]);
            }
        }
    }
    assert forall|k: u64| #[trigger] has_id(r, k) implies waiter_of(r, k) == waiter_of(s, k) by {
        let j = choose|j: int| 0 <= j < r.len() && #[trigger] r[j].0 == k;
        lemma_waiter_at(r, j);
        if j < i {
            assert(s[j] == r[j]);
            lemma_waiter_at(s, j);
        } else {
            assert(s[j + 1] == r[j]);
            lemma_waiter_at(s, j + 1);
        }
    }
    assert(entry_map(r) =~= entry_map(s).remove(id));
}

proof fn lemma_map_push<W>(s: Seq<(u64, W)>, id: u64, w: W)
    requires
        ids_unique(s),
        !has_id(s, id),
    ensures
        ids_unique(s.push((id, w))),
        entry_map(s.push((id, w))) == entry_map(s).insert(id, w),
{
    let p = s.push((id, w));
    assert forall|i: int, j: int| 0 <= i < p.len() && 0 <= j < p.len() && i != j implies p[i].0
        != p[j].0 by {
        if i < s.len() && j < s.len() {
            assert(p[i] == s[i] && p[j] == s[j]);
        } else if i < s.len() {
            assert(p[i] == s[i]);
        } else {
            assert(p[j] == s[j]);
        }
    }
    assert forall|k: u64| #[trigger] has_id(p, k) == (has_id(s, k) || k == id) by {
        if has_id(s, k) {
            let j = choose|j: int| 0 <= j < s.len() && #[trigger] s[j].0 == k;
            assert(p[j] == s[j]);
        }
        if k == id {
            assert(p[s.len() as int].0 == id);
        }
        if has_id(p, k) && k != id {
            let j = choose|j: int| 0 <= j < p.len() && #[trigger] p[j].0 == k;
            assert(j < s.len());
            assert(s[j] == p[j]);
        }
    }
    assert forall|k: u64| #[trigger] has_id(p, k) implies waiter_of(p, k) == (if k == id {
        w
    } else {
        waiter_of(s, k)
    }) by {
        let j = choose|j: int| 0 <= j < p.len() && #[trigger] p[j].0 == k;
        lemma_waiter_at(p, j);
        if j < s.len() {
            assert(s[j] == p[j]);
            lemma_waiter_at(s, j);
        }
    }
    assert(entry_map(p) =~= entry_map(s).insert(id, w));
}

impl<W> View for PendingCalls<W> {
    type V = Map<u64, W>;

    closed spec fn view(&self) -> Map<u64, W> {
        entry_map(self.entries@)
    }
}

/// The number a JSON document holds, if it is a non-negative integer that
/// fits in a `u64`: what `serde_json::Value::as_u64` returns for it.
pub uninterp spec fn json_u64(v: Value) -> Option<u64>;

/// The number a JSON document holds, if it is a non-negative integer that
/// fits in a `u64`: `serde_json::Value::as_u64`.
///
/// Claims only that the result is the one named [`json_u64`], a function of
/// the document alone; the library has no model of the document's content.
#[verifier::external_body]
fn json_as_u64(v: &Value) -> (n: Option<u64>)
    ensures
        n == json_u64(*v),
{
    v.as_u64()
}

/// The id of the call that a response answers, if its id is a `u64`.
pub open spec fn answered_id(resp: QmpResponse) -> Option<u64> {
    json_u64(resp.id)
}

impl<W> PendingCalls<W> {
    #[verifier::type_invariant]
    spec fn inv(self) -> bool {
        ids_unique(self.entries@)
    }

    /// The waiters, in an unspecified order.
    pub closed spec fn waiters(&self) -> Seq<W> {
        self.entries@.map_values(|e: (u64, W)| e.1)
    }

    /// An empty table.
    pub fn new() -> (t: Self)
        ensures
            t@ == Map::<u64, W>::empty(),
    {
        let t = PendingCalls { entries: Vec::new() };
        assert(entry_map(t.entries@) =~= Map::<u64, W>::empty());
        t
    }

    /// The number of waiting calls.
    pub fn len(&self) -> (n: usize)
        ensures
            n == self.waiters().len(),
    {
        self.entries.len()
    }

    fn position(&self, id: u64) -> (r: Option<usize>)
        ensures
            match r {
                Some(i) => i < self.entries@.len() && self.entries@[i as int].0 == id,
                None => !has_id(self.entries@, id),
            },
    {
        let mut i: usize = 0;
        while i < self.entries.len()
            invariant
                i <= self.entries@.len(),
                forall|j: int| 0 <= j < i ==> self.entries@[j].0 != id,
            decreases self.entries@.len() - i,
        {
            if self.entries[i].0 == id {
                return Some(i);
            }
            i = i + 1;
        }
        None
    }

    /// Register the waiter of call `id`; a waiter already registered under
    /// the same id is replaced and handed back.
    pub fn insert(&mut self, id: u64, waiter: W) -> (prev: Option<W>)
        ensures
            final(self)@ == old(self)@.insert(id, waiter),
            prev == (if old(self)@.contains_key(id) {
                Some(old(self)@[id])
            } else {
                None
            }),
    {
        proof {
            use_type_invariant(&*self);
        }
        let ghost s0 = self.entries@;
        match self.position(id) {
            Some(i) => {
                proof {
                    lemma_waiter_at(s0, i as int);
                    lemma_map_remove(s0, i as int);
                }
                let mut v = Vec::new();
                std::mem::swap(&mut v, &mut self.entries);
                let old_entry = v.remove(i);
                proof {
                    lemma_map_push(v@, id, waiter);
                    assert(entry_map(s0).remove(id).insert(id, waiter) =~= entry_map(s0).insert(
                        id,
                        waiter,
                    ));
                }
                v.push((id, waiter));
                self.entries = v;
                Some(old_entry.1)
            },
            None => {
                proof {
                    lemma_map_push(s0, id, waiter);
                }
                let mut v = Vec::new();
                std::mem::swap(&mut v, &mut self.entries);
                v.push((id, waiter));
                self.entries = v;
                None
            },
        }
    }

    /// Take the waiter of call `id` out of the table.
    pub fn remove(&mut self, id: u64) -> (w: Option<W>)
        ensures
            final(self)@ == old(self)@.remove(id),
            w == (if old(self)@.contains_key(id) {
                Some(old(self)@[id])
            } else {
                None
            }),
    {
        proof {
            use_type_invariant(&*self);
        }
        let ghost s0 = self.entries@;
        match self.position(id) {
            Some(i) => {
                proof {
                    lemma_waiter_at(s0, i as int);
                    lemma_map_remove(s0, i as int);
                }
                let mut v = Vec::new();
                std::mem::swap(&mut v, &mut self.entries);
                let e = v.remove(i);
                self.entries = v;
                Some(e.1)
            },
            None => {
                assert(entry_map(s0).remove(id) =~= entry_map(s0));
                None
            },
        }
    }

    /// Take every waiter out of the table, for failing them all.
    pub fn drain_all(&mut self) -> (ws: Vec<W>)
        ensures
            final(self)@ == Map::<u64, W>::empty(),
            ws@ == old(self).waiters().reverse(),
            forall|id: u64| #[trigger]
                old(self)@.contains_key(id) ==> ws@.contains(old(self)@[id]),
    {
        proof {
            use_type_invariant(&*self);
        }
        let ghost s0 = self.entries@;
        let mut ws: Vec<W> = Vec::new();
        let mut rest = Vec::new();
        std::mem::swap(&mut rest, &mut self.entries);
        let ghost total = rest@;
        while rest.len() > 0
            invariant
                rest@ == total.take(rest@.len() as int),
                rest@.len() <= total.len(),
                ws@ == total.skip(rest@.len() as int).map_values(|e: (u64, W)| e.1).reverse(),
            decreases rest@.len(),
        {
            let ghost n = rest@.len();
            let e = rest.pop().unwrap();
            proof {
                assert(rest@ =~= total.take(n - 1));
                assert(e == total[n - 1]);
            }
            ws.push(e.1);
            proof {
                let a = total.skip(n - 1).map_values(|e: (u64, W)| e.1);
                let b = total.skip(n as int).map_values(|e: (u64, W)| e.1);
                assert(a =~= seq![e.1] + b);
                assert(ws@ =~= a.reverse());
            }
        }
        proof {
            assert(total.skip(0) =~= total);
            assert(entry_map(self.entries@) =~= Map::<u64, W>::empty());
            assert forall|id: u64| #[trigger] entry_map(s0).contains_key(id) implies ws@.contains(
                entry_map(s0)[id],
            ) by {
                let j = choose|j: int| 0 <= j < s0.len() && #[trigger] s0[j].0 == id;
                lemma_waiter_at(s0, j);
                let m = s0.map_values(|e: (u64, W)| e.1);
                assert(m[j] == s0[j].1);
                assert(ws@ == m.reverse());
                assert(ws@[s0.len() - 1 - j] == m[j]);
            }
        }
        ws
    }

    /// Take out the waiter of the call that `resp` answers: the one
    /// registered under the id the response echoes. A response whose id is
    /// not a `u64`, or names no waiting call, takes nothing out.
    pub fn take_for_response(&mut self, resp: &QmpResponse) -> (w: Option<W>)
        ensures
            match answered_id(*resp) {
                Some(id) => {
                    &&& final(self)@ == old(self)@.remove(id)
                    &&& w == (if old(self)@.contains_key(id) {
                        Some(old(self)@[id])
                    } else {
                        None
                    })
                },
                None => w is None && final(self)@ == old(self)@,
            },
    {
        match json_as_u64(&resp.id) {
            Some(id) => self.remove(id),
            None => None,
        }
    }
}

/// Which kind of message the peer sent.
#[derive(Debug, Clone, Copy, PartialEq, Eq, Structural)]
pub enum InboundKind {
    /// An asynchronous event (the message has an `event` member).
    Event,
    /// The response to a request (the message has an `id` member but no `event`).
    Response,
    /// Anything else; it is ignored.
    Other,
}

/// The kind of a message with or without `event` and `id` members: an
/// `event` member makes it an event, whatever else it holds.
pub open spec fn inbound_kind(has_event: bool, has_id: bool) -> InboundKind {
    if has_event {
        InboundKind::Event
    } else if has_id {
        InboundKind::Response
    } else {
        InboundKind::Other
    }
}

/// Whether a JSON document is an object with the member `key`: what
/// `serde_json::Value::get(key).is_some()` returns for it.
pub uninterp spec fn json_has_member(v: Value, key: Seq<char>) -> bool;

/// Whether the JSON document is an object with the member `key`:
/// `serde_json::Value::get(key).is_some()`.
///
/// Claims only that the result is the one named [`json_has_member`], a
/// function of the document and the key alone; the library has no model of
/// the document's content.
#[verifier::external_body]
fn json_has_key(v: &Value, key: &str) -> (b: bool)
    ensures
        b == json_has_member(*v, key@),
{
    v.get(key).is_some()
}

/// The kind of a received message, from its `event` and `id` members.
pub open spec fn message_kind(msg: Value) -> InboundKind {
    inbound_kind(json_has_member(msg, "event"@), json_has_member(msg, "id"@))
}

impl InboundKind {
    /// The kind of a message with or without `event` and `id` members.
    pub fn classify(has_event: bool, has_id: bool) -> (k: InboundKind)
        ensures
            k == inbound_kind(has_event, has_id),
    {
        if has_event {
            InboundKind::Event
        } else if has_id {
            InboundKind::Response
        } else {
            InboundKind::Other
        }
    }

    /// The kind of a received message, from its `event` and `id` members.
    pub fn of(msg: &Value) -> (k: InboundKind)
        ensures
            k == message_kind(*msg),
    {
        let has_event = json_has_key(msg, "event");
        let has_id = json_has_key(msg, "id");
        InboundKind::classify(has_event, has_id)
    }
}

/// A response reaches the waiter registered under its id, and only that
/// one: registering a waiter, then taking out the waiter of the same id,
/// gives back the waiter registered, and leaves the other calls as they were.
pub proof fn law_response_reaches_its_caller<W>(table: Map<u64, W>, id: u64, waiter: W)
    ensures
        table.insert(id, waiter).contains_key(id),
        table.insert(id, waiter)[id] == waiter,
        table.insert(id, waiter).remove(id) == table.remove(id),
        forall|other: u64| #[trigger]
            table.contains_key(other) && other != id ==> table.insert(id, waiter).remove(id)[other]
                == table[other],
{
    assert(table.insert(id, waiter).remove(id) =~= table.remove(id));
}

/// An `event` member makes a message an event whether or not it also has an
/// `id` member (QEMU's events carry none); otherwise an `id` member makes it
/// a response, and anything else is ignored.
pub proof fn law_event_member_decides(has_id: bool, msg: Value)
    ensures
        inbound_kind(true, has_id) == InboundKind::Event,
        inbound_kind(false, true) == InboundKind::Response,
        inbound_kind(false, false) == InboundKind::Other,
        json_has_member(msg, "event"@) ==> message_kind(msg) == InboundKind::Event,
        !json_has_member(msg, "event"@) && json_has_member(msg, "id"@) ==> message_kind(msg)
            == InboundKind::Response,
        !json_has_member(msg, "event"@) && !json_has_member(msg, "id"@) ==> message_kind(msg)
            == InboundKind::Other,
{
}

} // verus!
