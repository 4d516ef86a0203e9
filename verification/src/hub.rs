//! The entity event hub: an in-memory publish/subscribe registry keyed by
//! entity id.
//!
//! A topic is created lazily on first subscribe or first lookup and lives
//! on afterwards. Subscribing yields a subscriber handle (a fresh number);
//! publishing to a key returns exactly the handles currently subscribed to
//! that key, so the host can forward the event to each of their streams.

use vstd::prelude::*;
use crate::server_msg::ServerMessage;
use crate::util::str_eq;

verus! {

/// One entity's multicast channel: its key and the handles subscribed.
pub struct Topic {
    pub key: String,
    pub subscribers: Vec<u64>,
}

/// Whether the handle is subscribed to this topic.
pub open spec fn topic_has_sub(t: Topic, s: u64) -> bool {
    exists|j: int| 0 <= j < t.subscribers@.len() && t.subscribers@[j] == s
}

/// Whether the handle is subscribed to this key in the topic list.
pub open spec fn is_subscribed(ts: Seq<Topic>, key: Seq<char>, s: u64) -> bool {
    exists|i: int| 0 <= i < ts.len() && ts[i].key@ == key && topic_has_sub(ts[i], s)
}

/// Whether some topic carries this key.
pub open spec fn has_topic(ts: Seq<Topic>, key: Seq<char>) -> bool {
    exists|i: int| 0 <= i < ts.len() && ts[i].key@ == key
}

/// The registry of topics for one domain.
pub struct EventHub {
    pub topics: Vec<Topic>,
    pub next_subscriber: u64,
}

/// What one publish hands the host: the subscribed handles and the frame
/// each of their streams must receive.
pub struct Emission {
    pub subscribers: Vec<u64>,
    pub message: ServerMessage,
}

/// A subscriber handle belongs to one key: whatever two keys it appears
/// subscribed to are the same key. Together with `publish`, which reaches
/// exactly the handles subscribed to the published key, a publish reaches
/// every stream subscribed to that key and no stream subscribed to a
/// different one; an unsubscribed handle, no longer subscribed anywhere,
/// receives nothing.
pub proof fn lemma_subscriber_single_key(h: EventHub, k1: Seq<char>, k2: Seq<char>, s: u64)
    requires
        h.wf(),
        is_subscribed(h.topics@, k1, s),
        is_subscribed(h.topics@, k2, s),
    ensures
        k1 == k2,
{
    let ts = h.topics@;
    let i1 = choose|i: int| 0 <= i < ts.len() && ts[i].key@ == k1 && topic_has_sub(ts[i], s);
    let i2 = choose|i: int| 0 <= i < ts.len() && ts[i].key@ == k2 && topic_has_sub(ts[i], s);
    let j1 = choose|j: int| 0 <= j < ts[i1].subscribers@.len() && ts[i1].subscribers@[j] == s;
    let j2 = choose|j: int| 0 <= j < ts[i2].subscribers@.len() && ts[i2].subscribers@[j] == s;
    if i1 != i2 || j1 != j2 {
        assert(ts[i1].subscribers@[j1] != ts[i2].subscribers@[j2]);
    }
}

/// The handles of a list with one handle dropped; order and the other
/// handles are kept.
fn subs_without(subs: &Vec<u64>, s: u64) -> (r: Vec<u64>)
    requires
        forall|a: int, b: int| 0 <= a < b < subs@.len() ==> subs@[a] != subs@[b],
    ensures
        forall|t: u64| #[trigger] r@.contains(t) == (subs@.contains(t) && t != s),
        forall|a: int, b: int| 0 <= a < b < r@.len() ==> r@[a] != r@[b],
{
    let mut kept: Vec<u64> = Vec::new();
    let mut a: usize = 0;
    while a < subs.len()
        invariant
            a <= subs@.len(),
            forall|a2: int, b2: int| 0 <= a2 < b2 < subs@.len() ==> subs@[a2] != subs@[b2],
            forall|t: u64|
                #[trigger] kept@.contains(t) == (subs@.take(a as int).contains(t) && t != s),
            forall|x: int, y: int| 0 <= x < y < kept@.len() ==> kept@[x] != kept@[y],
        decreases subs@.len() - a,
    {
        let v = subs[a];
        if v != s {
            let ghost prekept = kept@;
            kept.push(v);
            proof {
                assert(!prekept.contains(v)) by {
                    if prekept.contains(v) {
                        assert(subs@.take(a as int).contains(v));
                        let b = choose|b: int| 0 <= b < a && subs@.take(a as int)[b] == v;
                        assert(subs@[b] == subs@[a as int]);
                    }
                }
                assert forall|t: u64| #[trigger] kept@.contains(t) == (subs@.take(
                    a + 1,
                ).contains(t) && t != s) by {
                    let grown = subs@.take(a + 1);
                    assert(grown =~= subs@.take(a as int).push(v));
                    if kept@.contains(t) {
                        let x = choose|x: int| 0 <= x < kept@.len() && kept@[x] == t;
                        if x < prekept.len() {
                            assert(prekept.contains(t));
                            let b = choose|b: int|
                                0 <= b < a && subs@.take(a as int)[b] == t;
                            assert(grown[b] == t);
                        } else {
                            assert(t == v);
                            assert(grown[a as int] == v);
                        }
                    }
                    if grown.contains(t) && t != s {
                        let b = choose|b: int| 0 <= b < grown.len() && grown[b] == t;
                        if b < a {
                            assert(subs@.take(a as int)[b] == t);
                            assert(prekept.contains(t));
                            let x = choose|x: int| 0 <= x < prekept.len() && prekept[x] == t;
                            assert(kept@[x] == t);
                        } else {
                            assert(kept@[kept@.len() - 1] == t);
                        }
                        assert(kept@.contains(t));
                    }
                }
            }
        } else {
            proof {
                assert forall|t: u64| #[trigger] kept@.contains(t) == (subs@.take(
                    a + 1,
                ).contains(t) && t != s) by {
                    let grown = subs@.take(a + 1);
                    assert(grown =~= subs@.take(a as int).push(v));
                    if grown.contains(t) && t != s {
                        let b = choose|b: int| 0 <= b < grown.len() && grown[b] == t;
                        assert(b < a);
                        assert(subs@.take(a as int)[b] == t);
                    }
                    if kept@.contains(t) {
                        assert(subs@.take(a as int).contains(t));
                        let b = choose|b: int| 0 <= b < a && subs@.take(a as int)[b] == t;
                        assert(grown[b] == t);
                    }
                }
            }
        }
        a = a + 1;
    }
    proof {
        assert(subs@.take(subs@.len() as int) =~= subs@);
    }
    kept
}

impl EventHub {
    /// The hub invariant: topic keys are unique, subscriber handles are
    /// unique across all topics and below the counter.
    pub open spec fn wf(self) -> bool {
        &&& forall|i: int, j: int|
            0 <= i < j < self.topics@.len() ==> self.topics@[i].key@ != self.topics@[j].key@
        &&& forall|i: int, j: int|
            0 <= i < self.topics@.len() && 0 <= j < self.topics@[i].subscribers@.len()
                ==> #[trigger] self.topics@[i].subscribers@[j] < self.next_subscriber
        &&& forall|i1: int, j1: int, i2: int, j2: int|
            0 <= i1 < self.topics@.len() && 0 <= j1 < self.topics@[i1].subscribers@.len() && 0 <= i2
                < self.topics@.len() && 0 <= j2 < self.topics@[i2].subscribers@.len() && (i1 != i2
                || j1 != j2) ==> #[trigger] self.topics@[i1].subscribers@[j1] != #[trigger] self.topics@[i2].subscribers@[j2]
    }

    /// An empty hub.
    pub fn new() -> (r: EventHub)
        ensures
            r.wf(),
            r.topics@.len() == 0,
    {
        EventHub { topics: Vec::new(), next_subscriber: 0 }
    }

    /// Index of the topic with this key, if present.
    pub fn find_topic(&self, key: &str) -> (r: Option<usize>)
        ensures
            match r {
                Some(i) => i < self.topics@.len() && self.topics@[i as int].key@ == key@,
                None => !has_topic(self.topics@, key@),
            },
    {
        let mut i: usize = 0;
        while i < self.topics.len()
            invariant
                i <= self.topics@.len(),
                forall|j: int| 0 <= j < i ==> self.topics@[j].key@ != key@,
            decreases self.topics@.len() - i,
        {
            if str_eq(self.topics[i].key.as_str(), key) {
                return Some(i);
            }
            i = i + 1;
        }
        None
    }

    /// Ensures a topic for this key exists; idempotent, and no
    /// subscription changes for any key.
    pub fn get_or_create(&mut self, key: &String)
        requires
            old(self).wf(),
        ensures
            final(self).wf(),
            has_topic(final(self).topics@, key@),
            final(self).next_subscriber == old(self).next_subscriber,
            forall|k: Seq<char>, s: u64|
                is_subscribed(final(self).topics@, k, s) == is_subscribed(old(self).topics@, k, s),
    {
        if self.find_topic(key.as_str()).is_none() {
            self.topics.push(Topic { key: key.clone(), subscribers: Vec::new() });
            assert(self.topics@[self.topics@.len() - 1].key@ == key@);
            assert(has_topic(self.topics@, key@));
            assert forall|k: Seq<char>, s: u64|
                is_subscribed(self.topics@, k, s) == is_subscribed(
                old(self).topics@,
                k,
                s,
            ) by {
                let ts = self.topics@;
                let ots = old(self).topics@;
                if is_subscribed(ts, k, s) {
                    let i = choose|i: int| 0 <= i < ts.len() && ts[i].key@ == k && topic_has_sub(
                        ts[i],
                        s,
                    );
                    assert(i < ots.len() && ots[i] == ts[i]);
                }
                if is_subscribed(ots, k, s) {
                    let i = choose|i: int| 0 <= i < ots.len() && ots[i].key@ == k && topic_has_sub(
                        ots[i],
                        s,
                    );
                    assert(ts[i] == ots[i]);
                }
            }
        }
    }

    /// Subscribes a fresh handle to this key, creating the topic when
    /// needed. Nothing changes for other handles or other keys.
    pub fn subscribe(&mut self, key: &String) -> (s: u64)
        requires
            old(self).wf(),
            old(self).next_subscriber < u64::MAX,
        ensures
            final(self).wf(),
            is_subscribed(final(self).topics@, key@, s),
            forall|k: Seq<char>| !is_subscribed(old(self).topics@, k, s),
            forall|k: Seq<char>| k != key@ ==> !is_subscribed(final(self).topics@, k, s),
            forall|k: Seq<char>, t: u64|
                t != s ==> is_subscribed(final(self).topics@, k, t) == is_subscribed(
                    old(self).topics@,
                    k,
                    t,
                ),
    {
        let s = self.next_subscriber;
        assert forall|k: Seq<char>| !is_subscribed(old(self).topics@, k, s) by {
            let ots = old(self).topics@;
            if is_subscribed(ots, k, s) {
                let i = choose|i: int| 0 <= i < ots.len() && ots[i].key@ == k && topic_has_sub(
                    ots[i],
                    s,
                );
                let j = choose|j: int| 0 <= j < ots[i].subscribers@.len() && ots[i].subscribers@[j]
                    == s;
                assert(ots[i].subscribers@[j] < s);
            }
        }
        self.get_or_create(key);
        let ghost pre = *self;
        assert forall|k: Seq<char>| !is_subscribed(pre.topics@, k, s) by {
            if is_subscribed(pre.topics@, k, s) {
                let i = choose|i: int| 0 <= i < pre.topics@.len() && pre.topics@[i].key@ == k
                    && topic_has_sub(pre.topics@[i], s);
                let j = choose|j: int| 0 <= j < pre.topics@[i].subscribers@.len()
                    && pre.topics@[i].subscribers@[j] == s;
                assert(pre.topics@[i].subscribers@[j] < s);
            }
        }
        let ti = match self.find_topic(key.as_str()) {
            Some(i) => i,
            None => vstd::pervasive::unreached(),
        };
        let topic = self.topics.remove(ti);
        let mut subs = topic.subscribers;
        subs.push(s);
        self.topics.insert(ti, Topic { key: topic.key, subscribers: subs });
        self.next_subscriber = s + 1;
        proof {
            let ts = self.topics@;
            let pts = pre.topics@;
            assert(ts =~= pts.update(ti as int, ts[ti as int]));
            assert(ts[ti as int].key@ == key@);
            assert(ts[ti as int].subscribers@ == pts[ti as int].subscribers@.push(s));
            // The fresh handle is now subscribed to the key.
            assert(ts[ti as int].subscribers@[pts[ti as int].subscribers@.len() as int] == s);
            assert(topic_has_sub(ts[ti as int], s));
            assert(is_subscribed(ts, key@, s));
            // Membership of every other handle, on every key, is untouched.
            assert forall|k: Seq<char>, t: u64| t != s implies is_subscribed(ts, k, t)
                == is_subscribed(pts, k, t) by {
                if is_subscribed(ts, k, t) {
                    let i = choose|i: int| 0 <= i < ts.len() && ts[i].key@ == k && topic_has_sub(
                        ts[i],
                        t,
                    );
                    if i == ti {
                        let j = choose|j: int| 0 <= j < ts[i].subscribers@.len()
                            && ts[i].subscribers@[j] == t;
                        assert(j < pts[i].subscribers@.len());
                        assert(topic_has_sub(pts[i], t));
                    } else {
                        assert(pts[i] == ts[i]);
                    }
                    assert(is_subscribed(pts, k, t));
                }
                if is_subscribed(pts, k, t) {
                    let i = choose|i: int| 0 <= i < pts.len() && pts[i].key@ == k && topic_has_sub(
                        pts[i],
                        t,
                    );
                    if i == ti {
                        let j = choose|j: int| 0 <= j < pts[i].subscribers@.len()
                            && pts[i].subscribers@[j] == t;
                        assert(ts[i].subscribers@[j] == t);
                        assert(topic_has_sub(ts[i], t));
                    } else {
                        assert(ts[i] == pts[i]);
                    }
                    assert(is_subscribed(ts, k, t));
                }
            }
            // The fresh handle reaches no other key.
            assert forall|k: Seq<char>| k != key@ implies !is_subscribed(ts, k, s) by {
                if is_subscribed(ts, k, s) {
                    let i = choose|i: int| 0 <= i < ts.len() && ts[i].key@ == k && topic_has_sub(
                        ts[i],
                        s,
                    );
                    assert(i != ti);
                    assert(pts[i] == ts[i]);
                    assert(is_subscribed(pts, k, s));
                }
            }
            // The invariant survives: the new handle is above every old one.
            assert forall|i1: int, j1: int, i2: int, j2: int|
                0 <= i1 < ts.len() && 0 <= j1 < ts[i1].subscribers@.len() && 0 <= i2 < ts.len() && 0
                    <= j2 < ts[i2].subscribers@.len() && (i1 != i2 || j1 != j2) implies #[trigger] ts[i1].subscribers@[j1]
                != #[trigger] ts[i2].subscribers@[j2] by {
                let plen = pts[ti as int].subscribers@.len() as int;
                if i1 == ti && j1 == plen {
                    assert(ts[i2].subscribers@[j2] < s);
                } else if i2 == ti && j2 == plen {
                    assert(ts[i1].subscribers@[j1] < s);
                } else {
                    assert(ts[i1].subscribers@[j1] == pts[i1].subscribers@[j1]);
                    assert(ts[i2].subscribers@[j2] == pts[i2].subscribers@[j2]);
                }
            }
        }
        s
    }

    /// Drops a subscriber handle: it stops receiving on every key; all
    /// other handles are untouched.
    pub fn unsubscribe(&mut self, s: u64)
        requires
            old(self).wf(),
        ensures
            final(self).wf(),
            forall|k: Seq<char>| !is_subscribed(final(self).topics@, k, s),
            forall|k: Seq<char>, t: u64|
                t != s ==> is_subscribed(final(self).topics@, k, t) == is_subscribed(
                    old(self).topics@,
                    k,
                    t,
                ),
    {
        let ghost pts = self.topics@;
        let mut out: Vec<Topic> = Vec::new();
        let mut i: usize = 0;
        while i < self.topics.len()
            invariant
                self.topics@ == pts,
                self.next_subscriber == old(self).next_subscriber,
                old(self).wf(),
                i <= pts.len(),
                out@.len() == i,
                forall|j: int| 0 <= j < i ==> out@[j].key == pts[j].key,
                forall|j: int, t: u64|
                    0 <= j < i ==> (#[trigger] out@[j].subscribers@.contains(t) == (
                    pts[j].subscribers@.contains(t) && t != s)),
                forall|j: int, a: int, b: int|
                    0 <= j < i && 0 <= a < b < out@[j].subscribers@.len()
                        ==> out@[j].subscribers@[a] != out@[j].subscribers@[b],
            decreases pts.len() - i,
        {
            let topic = &self.topics[i];
            proof {
                assert forall|a: int, b: int|
                    0 <= a < b < topic.subscribers@.len() implies topic.subscribers@[a]
                    != topic.subscribers@[b] by {
                    let psubs = pts[i as int].subscribers@;
                    assert(psubs[a] != psubs[b]);
                }
            }
            let kept = subs_without(&topic.subscribers, s);
            out.push(Topic { key: topic.key.clone(), subscribers: kept });
            i = i + 1;
        }
        self.topics = out;
        proof {
            let ts = self.topics@;
            assert forall|i2: int, j2: int| 0 <= i2 < j2 < ts.len() implies ts[i2].key@
                != ts[j2].key@ by {
                assert(pts[i2].key@ != pts[j2].key@);
            }
            assert forall|k: Seq<char>| !is_subscribed(ts, k, s) by {
                if is_subscribed(ts, k, s) {
                    let i = choose|i: int| 0 <= i < ts.len() && ts[i].key@ == k && topic_has_sub(
                        ts[i],
                        s,
                    );
                    assert(ts[i].subscribers@.contains(s));
                }
            }
            assert forall|k: Seq<char>, t: u64| t != s implies is_subscribed(ts, k, t)
                == is_subscribed(pts, k, t) by {
                if is_subscribed(ts, k, t) {
                    let i = choose|i: int| 0 <= i < ts.len() && ts[i].key@ == k && topic_has_sub(
                        ts[i],
                        t,
                    );
                    assert(ts[i].subscribers@.contains(t));
                    assert(pts[i].subscribers@.contains(t));
                    assert(topic_has_sub(pts[i], t));
                    assert(is_subscribed(pts, k, t));
                }
                if is_subscribed(pts, k, t) {
                    let i = choose|i: int| 0 <= i < pts.len() && pts[i].key@ == k && topic_has_sub(
                        pts[i],
                        t,
                    );
                    assert(pts[i].subscribers@.contains(t));
                    assert(ts[i].subscribers@.contains(t));
                    assert(topic_has_sub(ts[i], t));
                    assert(is_subscribed(ts, k, t));
                }
            }
            // Every kept handle was already stored, so bounds and global
            // uniqueness carry over.
            assert forall|i1: int, j1: int|
                0 <= i1 < ts.len() && 0 <= j1 < ts[i1].subscribers@.len() implies #[trigger] ts[i1].subscribers@[j1]
                < self.next_subscriber by {
                assert(ts[i1].subscribers@.contains(ts[i1].subscribers@[j1]));
                assert(pts[i1].subscribers@.contains(ts[i1].subscribers@[j1]));
                let b = choose|b: int|
                    0 <= b < pts[i1].subscribers@.len() && pts[i1].subscribers@[b]
                        == ts[i1].subscribers@[j1];
                assert(pts[i1].subscribers@[b] < old(self).next_subscriber);
            }
            assert forall|i1: int, j1: int, i2: int, j2: int|
                0 <= i1 < ts.len() && 0 <= j1 < ts[i1].subscribers@.len() && 0 <= i2 < ts.len() && 0
                    <= j2 < ts[i2].subscribers@.len() && (i1 != i2 || j1 != j2) implies #[trigger] ts[i1].subscribers@[j1]
                != #[trigger] ts[i2].subscribers@[j2] by {
                if i1 == i2 {
                } else {
                    assert(ts[i1].subscribers@.contains(ts[i1].subscribers@[j1]));
                    assert(ts[i2].subscribers@.contains(ts[i2].subscribers@[j2]));
                    assert(pts[i1].subscribers@.contains(ts[i1].subscribers@[j1]));
                    assert(pts[i2].subscribers@.contains(ts[i2].subscribers@[j2]));
                    let b1 = choose|b: int|
                        0 <= b < pts[i1].subscribers@.len() && pts[i1].subscribers@[b]
                            == ts[i1].subscribers@[j1];
                    let b2 = choose|b: int|
                        0 <= b < pts[i2].subscribers@.len() && pts[i2].subscribers@[b]
                            == ts[i2].subscribers@[j2];
                    assert(pts[i1].subscribers@[b1] != pts[i2].subscribers@[b2]);
                }
            }
        }
    }

    /// The handles a publish to this key reaches: exactly those currently
    /// subscribed to it, each once. A key without subscribers (or without
    /// a topic) reaches none.
    pub fn publish(&self, key: &str) -> (r: Vec<u64>)
        requires
            self.wf(),
        ensures
            forall|t: u64| r@.contains(t) == is_subscribed(self.topics@, key@, t),
            forall|a: int, b: int| 0 <= a < b < r@.len() ==> r@[a] != r@[b],
    {
        match self.find_topic(key) {
            Some(i) => {
                let subs = &self.topics[i].subscribers;
                let mut out: Vec<u64> = Vec::new();
                let mut a: usize = 0;
                while a < subs.len()
                    invariant
                        a <= subs@.len(),
                        out@ == subs@.take(a as int),
                    decreases subs@.len() - a,
                {
                    out.push(subs[a]);
                    assert(out@ =~= subs@.take(a + 1));
                    a = a + 1;
                }
                assert(out@ =~= subs@);
                proof {
                    let ts = self.topics@;
                    assert forall|t: u64| out@.contains(t) == is_subscribed(ts, key@, t) by {
                        if out@.contains(t) {
                            assert(topic_has_sub(ts[i as int], t));
                        }
                        if is_subscribed(ts, key@, t) {
                            let i2 = choose|i2: int|
                                0 <= i2 < ts.len() && ts[i2].key@ == key@ && topic_has_sub(
                                    ts[i2],
                                    t,
                                );
                            assert(i2 == i);
                            let j = choose|j: int|
                                0 <= j < ts[i2].subscribers@.len() && ts[i2].subscribers@[j] == t;
                            assert(out@[j] == t);
                            assert(out@.contains(t));
                        }
                    }
                }
                out
            },
            None => {
                let out: Vec<u64> = Vec::new();
                proof {
                    assert forall|t: u64| !is_subscribed(self.topics@, key@, t) by {
                        if is_subscribed(self.topics@, key@, t) {
                            let i = choose|i: int|
                                0 <= i < self.topics@.len() && self.topics@[i].key@ == key@
                                    && topic_has_sub(self.topics@[i], t);
                            assert(has_topic(self.topics@, key@));
                        }
                    }
                }
                out
            },
        }
    }
}

} // verus!
