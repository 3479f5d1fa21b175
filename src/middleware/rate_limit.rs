//! Rate limiting over a sliding window: per client, at most a number of
//! requests within the last `window_millis` milliseconds.
use crate::text::{chars_of, owned, push_char, str_eq};
use vstd::prelude::*;

verus! {

/// The limit: at most `max_requests` requests per client within any window
/// of `window_millis` milliseconds.
#[derive(Debug, Clone, Copy)]
pub struct RateLimit {
    pub max_requests: usize,
    pub window_millis: u64,
}

impl RateLimit {
    /// A limit of `max_requests` per window of `window_millis` milliseconds.
    pub fn new(max_requests: usize, window_millis: u64) -> (r: Self)
        ensures
            r.max_requests == max_requests,
            r.window_millis == window_millis,
    {
        RateLimit { max_requests, window_millis }
    }
}

/// The state of a rate-limiting service: the wrapped service and the limit.
#[derive(Debug, Clone)]
pub struct RateLimitService<S> {
    pub inner: S,
    pub limiter: RateLimit,
}

/// A request made at `t` still counts at `now`.
pub open spec fn in_window(t: u64, now: u64, window: u64) -> bool {
    t as int + window as int > now as int
}

/// The times of `h` that still count at `now`.
pub open spec fn kept_times(h: Seq<u64>, now: u64, window: u64) -> Seq<u64> {
    h.filter(|t: u64| in_window(t, now, window))
}

/// The history of `key`: the times of the first entry under that key, or
/// none.
pub open spec fn history_of(entries: Seq<(Seq<char>, Seq<u64>)>, key: Seq<char>) -> Seq<u64>
    decreases entries.len(),
{
    if entries.len() == 0 {
        Seq::empty()
    } else if entries[0].0 == key {
        entries[0].1
    } else {
        history_of(entries.drop_first(), key)
    }
}

proof fn lemma_history_at(entries: Seq<(Seq<char>, Seq<u64>)>, i: int, key: Seq<char>)
    requires
        0 <= i < entries.len(),
        entries[i].0 == key,
        forall|j: int| 0 <= j < i ==> entries[j].0 != key,
    ensures
        history_of(entries, key) == entries[i].1,
    decreases i,
{
    if i > 0 {
        lemma_history_at(entries.drop_first(), i - 1, key);
    }
}

proof fn lemma_history_absent(entries: Seq<(Seq<char>, Seq<u64>)>, key: Seq<char>)
    requires
        forall|j: int| 0 <= j < entries.len() ==> entries[j].0 != key,
    ensures
        history_of(entries, key) == Seq::<u64>::empty(),
    decreases entries.len(),
{
    if entries.len() > 0 {
        lemma_history_absent(entries.drop_first(), key);
    }
}

proof fn lemma_history_update(entries: Seq<(Seq<char>, Seq<u64>)>, i: int, h: Seq<u64>, key: Seq<char>)
    requires
        0 <= i < entries.len(),
        forall|j: int| 0 <= j < i ==> entries[j].0 != entries[i].0,
    ensures
        history_of(entries.update(i, (entries[i].0, h)), key) == if key == entries[i].0 {
            h
        } else {
            history_of(entries, key)
        },
    decreases i,
{
    let t = entries.update(i, (entries[i].0, h));
    if i == 0 {
        assert(t.drop_first() =~= entries.drop_first());
    } else {
        assert(t.drop_first() =~= entries.drop_first().update(i - 1, (entries[i].0, h)));
        lemma_history_update(entries.drop_first(), i - 1, h, key);
    }
}

proof fn lemma_history_push(entries: Seq<(Seq<char>, Seq<u64>)>, p: (Seq<char>, Seq<u64>), key: Seq<char>)
    requires
        forall|j: int| 0 <= j < entries.len() ==> entries[j].0 != p.0,
    ensures
        history_of(entries.push(p), key) == if key == p.0 {
            p.1
        } else {
            history_of(entries, key)
        },
    decreases entries.len(),
{
    let t = entries.push(p);
    if entries.len() > 0 {
        assert(t[0] == entries[0]);
        assert(t.drop_first() =~= entries.drop_first().push(p));
        lemma_history_push(entries.drop_first(), p, key);
    } else {
        assert(t[0] == p);
        assert(t.drop_first() =~= Seq::<(Seq<char>, Seq<u64>)>::empty());
        assert(history_of(t.drop_first(), key) == Seq::<u64>::empty());
    }
}

/// The request times kept per client.
#[derive(Debug)]
pub struct RateWindow {
    entries: Vec<(String, Vec<u64>)>,
}

impl RateWindow {
    /// The views of the entries.
    pub closed spec fn entry_views(&self) -> Seq<(Seq<char>, Seq<u64>)> {
        self.entries@.map_values(|e: (String, Vec<u64>)| (e.0@, e.1@))
    }

    /// The request times of a client that still matter, oldest first.
    pub open spec fn history(&self, key: Seq<char>) -> Seq<u64> {
        history_of(self.entry_views(), key)
    }

    /// No requests seen.
    pub fn new() -> (r: Self)
        ensures
            forall|k: Seq<char>| #[trigger] r.history(k) == Seq::<u64>::empty(),
    {
        let r = RateWindow { entries: Vec::new() };
        assert forall|k: Seq<char>| #[trigger] r.history(k) == Seq::<u64>::empty() by {
            assert(r.entry_views().len() == 0);
        }
        r
    }

    fn position(&self, key: &str) -> (r: usize)
        ensures
            r <= self.entries@.len(),
            forall|j: int| 0 <= j < r ==> self.entries@[j].0@ != key@,
            r < self.entries@.len() ==> self.entries@[r as int].0@ == key@,
    {
        let mut i: usize = 0;
        while i < self.entries.len()
            invariant
                i <= self.entries@.len(),
                forall|j: int| 0 <= j < i ==> self.entries@[j].0@ != key@,
            decreases self.entries@.len() - i,
        {
            if str_eq(self.entries[i].0.as_str(), key) {
                return i;
            }
            i = i + 1;
        }
        i
    }

    /// Records a request of client `key` at time `now` if the client has made
    /// fewer than `limit.max_requests` requests within the window, and says
    /// whether it was let through. Times that left the window are dropped.
    pub fn check_rate_limit(&mut self, limit: &RateLimit, key: &str, now: u64) -> (allowed: bool)
        ensures
            ({
                let kept = kept_times(old(self).history(key@), now, limit.window_millis);
                &&& allowed == (kept.len() < limit.max_requests)
                &&& final(self).history(key@) == if allowed {
                    kept.push(now)
                } else {
                    kept
                }
            }),
            forall|k: Seq<char>| k != key@ ==> #[trigger] final(self).history(k) == old(self).history(k),
    {
        let ghost ev = self.entry_views();
        let i = self.position(key);
        let found = i < self.entries.len();
        proof {
            assert forall|j: int| 0 <= j < i implies ev[j].0 != key@ by {
                assert(ev[j].0 == self.entries@[j].0@);
            }
            if found {
                assert(ev[i as int].0 == self.entries@[i as int].0@);
                lemma_history_at(ev, i as int, key@);
            } else {
                lemma_history_absent(ev, key@);
            }
        }
        let mut kept: Vec<u64> = Vec::new();
        if found {
            let times = &self.entries[i].1;
            let mut j: usize = 0;
            while j < times.len()
                invariant
                    j <= times@.len(),
                    times@ == ev[i as int].1,
                    kept@ == kept_times(times@.take(j as int), now, limit.window_millis),
                decreases times@.len() - j,
            {
                let t = times[j];
                let keep = (t as u128) + (limit.window_millis as u128) > now as u128;
                proof {
                    reveal(Seq::filter);
                    let w = limit.window_millis;
                    let a = times@.take(j + 1);
                    assert(a.drop_last() =~= times@.take(j as int));
                    assert(a.last() == t);
                    assert(keep == in_window(t, now, w));
                    assert(kept_times(a, now, w) == if in_window(t, now, w) {
                        kept_times(times@.take(j as int), now, w).push(t)
                    } else {
                        kept_times(times@.take(j as int), now, w)
                    });
                }
                if keep {
                    kept.push(t);
                }
                j = j + 1;
            }
            proof {
                assert(times@.take(times@.len() as int) =~= times@);
            }
        } else {
            proof {
                reveal(Seq::filter);
                assert(kept_times(Seq::<u64>::empty(), now, limit.window_millis) =~= Seq::<u64>::empty());
            }
        }
        let allowed = kept.len() < limit.max_requests;
        if allowed {
            kept.push(now);
        }
        let ghost h = kept@;
        if found {
            let name = owned(key);
            self.entries.set(i, (name, kept));
            proof {
                assert forall|j: int| 0 <= j < i implies ev[j].0 != ev[i as int].0 by {}
                assert(self.entry_views() =~= ev.update(i as int, (ev[i as int].0, h)));
                assert forall|k: Seq<char>| #[trigger] self.history(k) == if k == key@ { h } else { history_of(ev, k) } by {
                    lemma_history_update(ev, i as int, h, k);
                }
            }
        } else {
            let name = owned(key);
            self.entries.push((name, kept));
            proof {
                assert(self.entry_views() =~= ev.push((key@, h)));
                assert forall|k: Seq<char>| #[trigger] self.history(k) == if k == key@ { h } else { history_of(ev, k) } by {
                    lemma_history_push(ev, (key@, h), k);
                }
            }
        }
        allowed
    }
}

/// The client of a request: the first entry of its `X-Forwarded-For`
/// header, or `unknown` without one.
pub open spec fn client_of(forwarded: Option<Seq<char>>) -> Seq<char> {
    match forwarded {
        Some(f) => first_segment(f),
        None => "unknown"@,
    }
}

/// The text before the first comma, or all of it without one.
pub open spec fn first_segment(s: Seq<char>) -> Seq<char>
    decreases s.len(),
{
    if s.len() == 0 {
        s
    } else if s[0] == ',' {
        Seq::empty()
    } else {
        seq![s[0]] + first_segment(s.drop_first())
    }
}

proof fn lemma_first_segment(s: Seq<char>, i: int)
    requires
        0 <= i <= s.len(),
        forall|j: int| 0 <= j < i ==> s[j] != ',',
    ensures
        first_segment(s) == s.take(i) + first_segment(s.skip(i)),
    decreases i,
{
    if i > 0 {
        lemma_first_segment(s.drop_first(), i - 1);
        assert(s.drop_first().skip(i - 1) =~= s.skip(i));
        assert(s.take(i) =~= seq![s[0]] + s.drop_first().take(i - 1));
    } else {
        assert(s.skip(0) =~= s);
    }
}

/// The client key of a request, from its `X-Forwarded-For` header.
pub fn client_key(forwarded: Option<&str>) -> (r: String)
    ensures
        r@ == client_of(match forwarded { Some(f) => Some(f@), None => None }),
{
    match forwarded {
        None => owned("unknown"),
        Some(f) => {
            let cs = chars_of(f);
            let mut out = String::new();
            let mut i: usize = 0;
            while i < cs.len() && cs[i] != ','
                invariant
                    cs@ == f@,
                    i <= cs@.len(),
                    out@ == f@.take(i as int),
                    forall|j: int| 0 <= j < i ==> f@[j] != ',',
                decreases cs@.len() - i,
            {
                push_char(&mut out, cs[i]);
                proof {
                    assert(f@.take(i + 1) =~= f@.take(i as int).push(f@[i as int]));
                }
                i = i + 1;
            }
            proof {
                lemma_first_segment(f@, i as int);
                if i < cs@.len() {
                    assert(f@.skip(i as int)[0] == ',');
                } else {
                    assert(f@.skip(i as int).len() == 0);
                }
                assert(out@ =~= f@.take(i as int) + first_segment(f@.skip(i as int)));
            }
            out
        },
    }
}

/// The 429 answer to a client over its limit.
pub fn limit_exceeded_message() -> (r: &'static str)
    ensures
        r@ == "Rate limit exceeded. Please try again later."@,
{
    "Rate limit exceeded. Please try again later."
}

} // verus!
