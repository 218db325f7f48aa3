use vstd::prelude::*;
use vstd::string::*;

use crate::text::str_eq;
use crate::topic::{is_retained, is_telemetry_code, state_topic};

verus! {

/// A translated datapoint reading of one device, on its way to the broker.
#[derive(Debug, Clone)]
pub struct DpUpdate {
    pub topic_name: String,
    pub dp_code: String,
    pub value: String,
}

/// A message received from the broker.
#[derive(Debug, Clone)]
pub struct MqttMessage {
    pub topic: String,
    pub payload: String,
}

/// A state message to publish to the broker.
#[derive(Debug, Clone)]
pub struct Publication {
    pub topic: String,
    pub payload: String,
    pub retain: bool,
}

/// Value held for the key `(t, c)` by the first entry of `s` with that key.
pub open spec fn cached(s: Seq<(String, String, String)>, t: Seq<char>, c: Seq<char>) -> Option<
    Seq<char>,
>
    decreases s.len(),
{
    if s.len() == 0 {
        None
    } else if s[0].0@ == t && s[0].1@ == c {
        Some(s[0].2@)
    } else {
        cached(s.drop_first(), t, c)
    }
}

proof fn lemma_cached_suffix(s: Seq<(String, String, String)>, i: int, t: Seq<char>, c: Seq<char>)
    requires
        0 <= i <= s.len(),
        forall|j: int| 0 <= j < i ==> !(s[j].0@ == t && s[j].1@ == c),
    ensures
        cached(s, t, c) == cached(s.subrange(i, s.len() as int), t, c),
    decreases i,
{
    if i == 0 {
        assert(s.subrange(0, s.len() as int) =~= s);
    } else {
        lemma_cached_suffix(s.drop_first(), i - 1, t, c);
        assert(s.drop_first().subrange(i - 1, s.len() - 1) =~= s.subrange(i, s.len() as int));
    }
}

proof fn lemma_cached_update(
    s: Seq<(String, String, String)>,
    i: int,
    e: (String, String, String),
    t2: Seq<char>,
    c2: Seq<char>,
)
    requires
        0 <= i < s.len(),
        s[i].0@ == e.0@ && s[i].1@ == e.1@,
        forall|j: int| 0 <= j < i ==> !(s[j].0@ == e.0@ && s[j].1@ == e.1@),
    ensures
        cached(s.update(i, e), t2, c2) == if t2 == e.0@ && c2 == e.1@ {
            Some(e.2@)
        } else {
            cached(s, t2, c2)
        },
    decreases i,
{
    let u = s.update(i, e);
    if i > 0 {
        lemma_cached_update(s.drop_first(), i - 1, e, t2, c2);
        assert(u.drop_first() =~= s.drop_first().update(i - 1, e));
        assert(u[0] == s[0]);
    } else {
        assert(u.drop_first() =~= s.drop_first());
        assert(u[0] == e);
    }
}

proof fn lemma_cached_push(
    s: Seq<(String, String, String)>,
    e: (String, String, String),
    t2: Seq<char>,
    c2: Seq<char>,
)
    requires
        cached(s, e.0@, e.1@) is None,
    ensures
        cached(s.push(e), t2, c2) == if t2 == e.0@ && c2 == e.1@ {
            Some(e.2@)
        } else {
            cached(s, t2, c2)
        },
    decreases s.len(),
{
    let p = s.push(e);
    if s.len() > 0 {
        lemma_cached_push(s.drop_first(), e, t2, c2);
        assert(p.drop_first() =~= s.drop_first().push(e));
        assert(p[0] == s[0]);
    } else {
        assert(p.drop_first() =~= s);
        assert(p[0] == e);
    }
}

/// The last published value of each `(topic_name, dp_code)` key.
pub struct DedupCache {
    entries: Vec<(String, String, String)>,
}

impl DedupCache {
    /// The value last published for a device topic name and a datapoint code.
    pub closed spec fn last_value(&self, t: Seq<char>, c: Seq<char>) -> Option<Seq<char>> {
        cached(self.entries@, t, c)
    }

    /// Whether a reading `(t, c, v)` is published: only when `v` differs from the
    /// value last published for the key.
    pub open spec fn publishes(&self, t: Seq<char>, c: Seq<char>, v: Seq<char>) -> bool {
        self.last_value(t, c) != Some(v)
    }

    /// `after` is `before` once the reading `(t, c, v)` went through it: the key now
    /// holds `v`, every other key is unchanged.
    pub open spec fn observed(
        before: DedupCache,
        after: DedupCache,
        t: Seq<char>,
        c: Seq<char>,
        v: Seq<char>,
    ) -> bool {
        forall|t2: Seq<char>, c2: Seq<char>|
            #[trigger] after.last_value(t2, c2) == if t2 == t && c2 == c {
                Some(v)
            } else {
                before.last_value(t2, c2)
            }
    }

    /// An empty cache.
    pub fn new() -> (r: DedupCache)
        ensures
            forall|t: Seq<char>, c: Seq<char>| #[trigger] r.last_value(t, c) is None,
    {
        DedupCache { entries: Vec::new() }
    }

    /// Records a reading and says whether it is to be published.
    pub fn observe(&mut self, topic_name: &str, dp_code: &str, value: &str) -> (publish: bool)
        ensures
            publish == old(self).publishes(topic_name@, dp_code@, value@),
            DedupCache::observed(*old(self), *final(self), topic_name@, dp_code@, value@),
    {
        let ghost s = self.entries@;
        let mut i: usize = 0;
        while i < self.entries.len()
            invariant
                self.entries@ == s,
                old(self).entries@ == s,
                i <= s.len(),
                forall|j: int|
                    0 <= j < i ==> !(#[trigger] s[j].0@ == topic_name@ && s[j].1@ == dp_code@),
            decreases s.len() - i,
        {
            if str_eq(self.entries[i].0.as_str(), topic_name) && str_eq(
                self.entries[i].1.as_str(),
                dp_code,
            ) {
                proof {
                    lemma_cached_suffix(s, i as int, topic_name@, dp_code@);
                    assert(s.subrange(i as int, s.len() as int)[0] == s[i as int]);
                    assert(cached(s, topic_name@, dp_code@) == Some(s[i as int].2@));
                }
                if str_eq(self.entries[i].2.as_str(), value) {
                    return false;
                }
                let e = (String::from_str(topic_name), String::from_str(dp_code), String::from_str(value));
                self.entries.set(i, e);
                proof {
                    assert forall|t2: Seq<char>, c2: Seq<char>|
                        #[trigger] cached(self.entries@, t2, c2) == if t2 == topic_name@ && c2
                            == dp_code@ {
                            Some(value@)
                        } else {
                            cached(s, t2, c2)
                        } by {
                        lemma_cached_update(s, i as int, e, t2, c2);
                    }
                }
                return true;
            }
            i = i + 1;
        }
        proof {
            lemma_cached_suffix(s, s.len() as int, topic_name@, dp_code@);
            assert(s.subrange(s.len() as int, s.len() as int).len() == 0);
        }
        let e = (String::from_str(topic_name), String::from_str(dp_code), String::from_str(value));
        self.entries.push(e);
        proof {
            assert forall|t2: Seq<char>, c2: Seq<char>|
                #[trigger] cached(self.entries@, t2, c2) == if t2 == topic_name@ && c2
                    == dp_code@ {
                    Some(value@)
                } else {
                    cached(s, t2, c2)
                } by {
                lemma_cached_push(s, e, t2, c2);
            }
        }
        true
    }
}

/// Decides what goes to the broker for a reading: nothing when the cache already
/// holds its value, else its state topic, its value, and the retain flag.
pub fn plan_publish(cache: &mut DedupCache, prefix: &str, update: &DpUpdate) -> (r: Option<
    Publication,
>)
    ensures
        DedupCache::observed(
            *old(cache),
            *final(cache),
            update.topic_name@,
            update.dp_code@,
            update.value@,
        ),
        r is Some == old(cache).publishes(update.topic_name@, update.dp_code@, update.value@),
        r matches Some(p) ==> p.topic@ == prefix@ + "/"@ + update.topic_name@ + "/state/"@
            + update.dp_code@ && p.payload@ == update.value@ && p.retain == !is_telemetry_code(
            update.dp_code@,
        ),
{
    if !cache.observe(update.topic_name.as_str(), update.dp_code.as_str(), update.value.as_str()) {
        return None;
    }
    let topic = state_topic(prefix, update.topic_name.as_str(), update.dp_code.as_str());
    let retain = is_retained(update.dp_code.as_str());
    Some(Publication { topic, payload: update.value.clone(), retain })
}

/// Publishing the same reading twice in a row sends it once: the second is
/// suppressed. Two different values for the same key are both sent.
pub proof fn lemma_repeat_suppressed(
    c0: DedupCache,
    c1: DedupCache,
    t: Seq<char>,
    c: Seq<char>,
    v1: Seq<char>,
    v2: Seq<char>,
)
    requires
        DedupCache::observed(c0, c1, t, c, v1),
    ensures
        c0.last_value(t, c) is None ==> c0.publishes(t, c, v1),
        c1.publishes(t, c, v2) == (v1 != v2),
{
    assert(c1.last_value(t, c) == Some(v1));
}

} // verus!
