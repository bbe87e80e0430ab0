use vstd::prelude::*;

use crate::errors::CoreError;
use crate::timer::RefreshTimer;

verus! {

/// Signing-key material published under one key id.
pub enum KeyAlgorithm {
    /// RSA public-key components, base64url-encoded as published in the key
    /// set document.
    Rsa { modulus: String, exponent: String },
    /// Any non-RSA key type. Kept so the lookup can succeed and validation
    /// can then fail closed with an explicit unsupported-algorithm error.
    Other,
}

impl Clone for KeyAlgorithm {
    fn clone(&self) -> (r: Self)
        ensures
            r == *self,
    {
        match self {
            KeyAlgorithm::Rsa { modulus, exponent } => KeyAlgorithm::Rsa {
                modulus: modulus.clone(),
                exponent: exponent.clone(),
            },
            KeyAlgorithm::Other => KeyAlgorithm::Other,
        }
    }
}

/// One entry of the key set: a key id and the material published under it.
pub struct KeyMaterial {
    pub key_id: String,
    pub algorithm: KeyAlgorithm,
}

impl Clone for KeyMaterial {
    fn clone(&self) -> (r: Self)
        ensures
            r == *self,
    {
        KeyMaterial { key_id: self.key_id.clone(), algorithm: self.algorithm.clone() }
    }
}

/// Some entry of `s` carries the key id `kid`.
pub open spec fn kid_present(s: Seq<KeyMaterial>, kid: Seq<char>) -> bool {
    exists|i: int| 0 <= i < s.len() && s[i].key_id@ == kid
}

/// The first entry of `s` under key id `kid`, if any. Because a cache keeps
/// key ids unique, "first" is also "only" there.
pub open spec fn spec_lookup(s: Seq<KeyMaterial>, kid: Seq<char>) -> Option<KeyMaterial>
    decreases s.len(),
{
    if s.len() == 0 {
        None
    } else if s[0].key_id@ == kid {
        Some(s[0])
    } else {
        spec_lookup(s.drop_first(), kid)
    }
}

/// No two entries share a key id.
pub open spec fn unique_kids(s: Seq<KeyMaterial>) -> bool {
    forall|i: int, j: int| 0 <= i < j < s.len() ==> s[i].key_id@ != s[j].key_id@
}

/// First-writer-wins merge: each fetched entry is appended only if its key
/// id is not already held, in fetch order, so an already-known key id is
/// never overwritten by a later fetch.
pub open spec fn spec_merge(s: Seq<KeyMaterial>, f: Seq<KeyMaterial>) -> Seq<KeyMaterial>
    decreases f.len(),
{
    if f.len() == 0 {
        s
    } else {
        let s1 = if kid_present(s, f[0].key_id@) {
            s
        } else {
            s.push(f[0])
        };
        spec_merge(s1, f.drop_first())
    }
}

/// A lookup succeeds exactly when the key id is present.
pub proof fn lemma_lookup_present(s: Seq<KeyMaterial>, kid: Seq<char>)
    ensures
        (spec_lookup(s, kid) is Some) <==> kid_present(s, kid),
    decreases s.len(),
{
    if s.len() == 0 {
    } else if s[0].key_id@ == kid {
        assert(kid_present(s, kid));
    } else {
        lemma_lookup_present(s.drop_first(), kid);
        if kid_present(s.drop_first(), kid) {
            let i = choose|i: int|
                0 <= i < s.drop_first().len() && s.drop_first()[i].key_id@ == kid;
            assert(s[i + 1].key_id@ == kid);
        }
        if kid_present(s, kid) {
            let i = choose|i: int| 0 <= i < s.len() && s[i].key_id@ == kid;
            assert(s.drop_first()[i - 1].key_id@ == kid);
        }
    }
}

/// Appending an entry changes a lookup only for a key id not yet held.
pub proof fn lemma_lookup_push(s: Seq<KeyMaterial>, x: KeyMaterial, kid: Seq<char>)
    ensures
        spec_lookup(s.push(x), kid) == (if spec_lookup(s, kid) is Some {
            spec_lookup(s, kid)
        } else if x.key_id@ == kid {
            Some(x)
        } else {
            None::<KeyMaterial>
        }),
    decreases s.len(),
{
    if s.len() == 0 {
        assert(s.push(x)[0] == x);
        assert(s.push(x).drop_first() =~= Seq::<KeyMaterial>::empty());
    } else {
        assert(s.push(x)[0] == s[0]);
        assert(s.push(x).drop_first() =~= s.drop_first().push(x));
        lemma_lookup_push(s.drop_first(), x, kid);
    }
}

/// A key id held before a merge resolves to the same material after it:
/// the merge is first-writer-wins.
pub proof fn lemma_merge_keeps(s: Seq<KeyMaterial>, f: Seq<KeyMaterial>, kid: Seq<char>)
    requires
        spec_lookup(s, kid) is Some,
    ensures
        spec_lookup(spec_merge(s, f), kid) == spec_lookup(s, kid),
    decreases f.len(),
{
    if f.len() > 0 {
        if kid_present(s, f[0].key_id@) {
            lemma_merge_keeps(s, f.drop_first(), kid);
        } else {
            lemma_lookup_push(s, f[0], kid);
            lemma_merge_keeps(s.push(f[0]), f.drop_first(), kid);
        }
    }
}

/// Every key id delivered by a fetch is resolvable after the merge,
/// whatever the cache held before.
pub proof fn lemma_merge_covers(s: Seq<KeyMaterial>, f: Seq<KeyMaterial>, kid: Seq<char>)
    requires
        kid_present(f, kid),
    ensures
        spec_lookup(spec_merge(s, f), kid) is Some,
    decreases f.len(),
{
    lemma_lookup_present(s, f[0].key_id@);
    let s1 = if kid_present(s, f[0].key_id@) {
        s
    } else {
        s.push(f[0])
    };
    if f[0].key_id@ == kid {
        if kid_present(s, kid) {
            lemma_lookup_present(s, kid);
        } else {
            lemma_lookup_push(s, f[0], kid);
        }
        assert(spec_lookup(s1, kid) is Some);
        lemma_merge_keeps(s1, f.drop_first(), kid);
    } else {
        let i = choose|i: int| 0 <= i < f.len() && f[i].key_id@ == kid;
        assert(f.drop_first()[i - 1].key_id@ == kid);
        lemma_merge_covers(s1, f.drop_first(), kid);
    }
}

/// A key id absent from the cache and from the fetched set stays absent.
pub proof fn lemma_merge_misses(s: Seq<KeyMaterial>, f: Seq<KeyMaterial>, kid: Seq<char>)
    requires
        !kid_present(s, kid),
        !kid_present(f, kid),
    ensures
        spec_lookup(spec_merge(s, f), kid) is None,
    decreases f.len(),
{
    lemma_lookup_present(spec_merge(s, f), kid);
    if f.len() > 0 {
        assert(f[0].key_id@ != kid);
        let s1 = if kid_present(s, f[0].key_id@) {
            s
        } else {
            s.push(f[0])
        };
        assert(!kid_present(s1, kid)) by {
            if kid_present(s1, kid) {
                let i = choose|i: int| 0 <= i < s1.len() && s1[i].key_id@ == kid;
                if i < s.len() {
                    assert(s[i].key_id@ == kid);
                } else {
                    assert(s1[i] == f[0]);
                }
            }
        }
        assert(!kid_present(f.drop_first(), kid)) by {
            if kid_present(f.drop_first(), kid) {
                let i = choose|i: int|
                    0 <= i < f.drop_first().len() && f.drop_first()[i].key_id@ == kid;
                assert(f[i + 1].key_id@ == kid);
            }
        }
        lemma_merge_misses(s1, f.drop_first(), kid);
    }
}

/// The answer `ensure_key` plans for one request, before any network work
/// is done.
pub enum KeyPlan {
    /// The key id is cached: return its material, with no fetch and no
    /// write lock.
    Found(KeyMaterial),
    /// The key id is absent and the refresh window has passed: one fetch of
    /// the published key set is due before the final lookup.
    FetchFirst,
    /// The key id is absent but the window has not passed: no fetch is
    /// allowed, the request fails with an unknown-key error.
    Unknown,
}

/// The plan as a pure function of the cache model, the key id and the clock.
pub open spec fn plan_of(
    keys: Seq<KeyMaterial>,
    timer: RefreshTimer,
    threshold: u64,
    kid: Seq<char>,
    now: u64,
) -> KeyPlan {
    match spec_lookup(keys, kid) {
        Some(k) => KeyPlan::Found(k),
        None => if timer.spec_is_stale(now, threshold) {
            KeyPlan::FetchFirst
        } else {
            KeyPlan::Unknown
        },
    }
}

/// The key-id-to-material cache shared by all request handlers, refreshed
/// from the published key set at most once per threshold window.
pub struct KeySetCache {
    entries: Vec<KeyMaterial>,
    timer: RefreshTimer,
    threshold: u64,
}

impl KeySetCache {
    /// The entries, as the model the contracts speak of.
    pub closed spec fn keys(self) -> Seq<KeyMaterial> {
        self.entries@
    }

    /// The staleness timer guarding upstream fetches.
    pub closed spec fn timer_spec(self) -> RefreshTimer {
        self.timer
    }

    /// The refresh threshold, in seconds.
    pub closed spec fn threshold_spec(self) -> u64 {
        self.threshold
    }

    /// Well-formed: no key id is held twice.
    pub open spec fn wf(self) -> bool {
        unique_kids(self.keys())
    }

    /// An empty cache whose timer reads as last refreshed at `start`; with
    /// `start` well in the past the first unknown key id triggers a fetch
    /// at once.
    pub fn new(threshold: u64, start: u64) -> (c: KeySetCache)
        ensures
            c.wf(),
            c.keys() == Seq::<KeyMaterial>::empty(),
            c.timer_spec().last == start,
            c.threshold_spec() == threshold,
    {
        KeySetCache { entries: Vec::new(), timer: RefreshTimer::new(start), threshold }
    }

    /// The fast path: the material under `kid`, without any network access.
    pub fn lookup(&self, kid: &String) -> (r: Option<KeyMaterial>)
        ensures
            r == spec_lookup(self.keys(), kid@),
    {
        let n = self.entries.len();
        for i in 0..n
            invariant
                n == self.entries@.len(),
                forall|j: int| 0 <= j < i ==> self.entries@[j].key_id@ != kid@,
        {
            if self.entries[i].key_id == *kid {
                proof {
                    lemma_lookup_first_match(self.entries@, kid@, i as int);
                }
                return Some(self.entries[i].clone());
            }
        }
        proof {
            lemma_lookup_no_match(self.entries@, kid@);
        }
        None
    }

    /// Whether the refresh window has passed at `now` (strictly more than
    /// the threshold elapsed).
    pub fn needs_refresh(&self, now: u64) -> (b: bool)
        ensures
            b == self.timer_spec().spec_is_stale(now, self.threshold_spec()),
    {
        self.timer.is_stale(now, self.threshold)
    }

    /// What one `ensure_key` request does for `kid` at `now`, before any
    /// network work: the cached material, a due fetch, or a denied miss.
    pub fn ensure_key_plan(&self, kid: &String, now: u64) -> (p: KeyPlan)
        ensures
            p == plan_of(self.keys(), self.timer_spec(), self.threshold_spec(), kid@, now),
    {
        match self.lookup(kid) {
            Some(k) => KeyPlan::Found(k),
            None => {
                if self.timer.is_stale(now, self.threshold) {
                    KeyPlan::FetchFirst
                } else {
                    KeyPlan::Unknown
                }
            },
        }
    }

    /// Merge one fetched key set at `now`: every entry is inserted under
    /// first-writer-wins semantics and the timer is reset, exactly the
    /// on-success path of a refresh. A failed fetch merges nothing and
    /// leaves the timer alone: the caller simply does not call this.
    pub fn merge_fetched(&mut self, fetched: &Vec<KeyMaterial>, now: u64)
        requires
            old(self).wf(),
        ensures
            final(self).wf(),
            final(self).keys() == spec_merge(old(self).keys(), fetched@),
            final(self).timer_spec().last == now,
            final(self).threshold_spec() == old(self).threshold_spec(),
    {
        let ghost s0 = self.entries@;
        proof {
            assert(fetched@.skip(0) =~= fetched@);
        }
        let n = fetched.len();
        for i in 0..n
            invariant
                n == fetched@.len(),
                unique_kids(self.entries@),
                spec_merge(s0, fetched@) == spec_merge(self.entries@, fetched@.skip(i as int)),
                self.timer == old(self).timer,
                self.threshold == old(self).threshold,
        {
            let ghost s = self.entries@;
            let ghost rest = fetched@.skip(i as int);
            proof {
                assert(rest[0] == fetched@[i as int]);
                assert(rest.drop_first() =~= fetched@.skip(i as int + 1));
            }
            let known = self.holds_kid(&fetched[i].key_id);
            if !known {
                proof {
                    assert forall|a: int, b: int|
                        0 <= a < b < s.push(fetched@[i as int]).len() implies s.push(
                        fetched@[i as int],
                    )[a].key_id@ != s.push(fetched@[i as int])[b].key_id@ by {
                        if b == s.len() {
                            assert(s[a].key_id@ != fetched@[i as int].key_id@);
                        }
                    }
                }
                self.entries.push(fetched[i].clone());
            }
        }
        proof {
            assert(fetched@.skip(n as int) =~= Seq::<KeyMaterial>::empty());
        }
        self.timer.reset(now);
    }

    /// The final lookup of `ensure_key`: the material under `kid`, or the
    /// unknown-key error if the id is still absent after any refresh.
    pub fn final_lookup(&self, kid: &String) -> (r: Result<KeyMaterial, CoreError>)
        ensures
            r == match spec_lookup(self.keys(), kid@) {
                Some(k) => Ok::<KeyMaterial, CoreError>(k),
                None => Err::<KeyMaterial, CoreError>(CoreError::UnknownKey),
            },
    {
        match self.lookup(kid) {
            Some(k) => Ok(k),
            None => Err(CoreError::UnknownKey),
        }
    }

    /// Whether some entry carries `kid`, without copying any material.
    fn holds_kid(&self, kid: &String) -> (b: bool)
        ensures
            b == kid_present(self.keys(), kid@),
    {
        let n = self.entries.len();
        for i in 0..n
            invariant
                n == self.entries@.len(),
                forall|j: int| 0 <= j < i ==> self.entries@[j].key_id@ != kid@,
        {
            if self.entries[i].key_id == *kid {
                return true;
            }
        }
        false
    }
}

/// A lookup returns the entry at the first matching index.
proof fn lemma_lookup_first_match(s: Seq<KeyMaterial>, kid: Seq<char>, i: int)
    requires
        0 <= i < s.len(),
        s[i].key_id@ == kid,
        forall|j: int| 0 <= j < i ==> s[j].key_id@ != kid,
    ensures
        spec_lookup(s, kid) == Some(s[i]),
    decreases i,
{
    if i > 0 {
        assert forall|j: int| 0 <= j < i - 1 implies s.drop_first()[j].key_id@ != kid by {
            assert(s[j + 1].key_id@ != kid);
        }
        lemma_lookup_first_match(s.drop_first(), kid, i - 1);
    }
}

/// A lookup over entries that all miss returns nothing.
proof fn lemma_lookup_no_match(s: Seq<KeyMaterial>, kid: Seq<char>)
    requires
        forall|j: int| 0 <= j < s.len() ==> s[j].key_id@ != kid,
    ensures
        spec_lookup(s, kid) is None,
    decreases s.len(),
{
    if s.len() > 0 {
        lemma_lookup_no_match(s.drop_first(), kid);
    }
}

/// For every key id never seen by the cache, the first `ensure_key` against
/// a cold cache plans exactly one upstream fetch, and a second request for
/// the same still-unknown id within the threshold window plans none: it is
/// denied without network access, however many distinct unknown ids arrive.
pub proof fn lemma_unknown_key_fetch_once(
    keys: Seq<KeyMaterial>,
    timer: RefreshTimer,
    threshold: u64,
    kid: Seq<char>,
    fetched: Seq<KeyMaterial>,
    now1: u64,
    now2: u64,
)
    requires
        !kid_present(keys, kid),
        timer.spec_is_stale(now1, threshold),
        !kid_present(fetched, kid),
        now1 <= now2 <= now1 + threshold,
    ensures
        plan_of(keys, timer, threshold, kid, now1) is FetchFirst,
        plan_of(
            spec_merge(keys, fetched),
            RefreshTimer { last: now1 },
            threshold,
            kid,
            now2,
        ) is Unknown,
{
    lemma_lookup_present(keys, kid);
    lemma_merge_misses(keys, fetched, kid);
}

/// For every pair of distinct key ids delivered by one fetch, both become
/// independently resolvable from the cache alone: after the merge each
/// plans a cached answer, never another fetch.
pub proof fn lemma_fetched_pair_resolvable(
    keys: Seq<KeyMaterial>,
    timer: RefreshTimer,
    threshold: u64,
    fetched: Seq<KeyMaterial>,
    k1: Seq<char>,
    k2: Seq<char>,
    now: u64,
)
    requires
        k1 != k2,
        kid_present(fetched, k1),
        kid_present(fetched, k2),
    ensures
        plan_of(spec_merge(keys, fetched), timer, threshold, k1, now) is Found,
        plan_of(spec_merge(keys, fetched), timer, threshold, k2, now) is Found,
{
    lemma_merge_covers(keys, fetched, k1);
    lemma_merge_covers(keys, fetched, k2);
}

} // verus!
