//! Specification-level model of an ordered association list keyed by
//! strings: the common shape of the command registry and the settings
//! stores.  Insertion order is meaningful; keys are unique; setting an
//! existing key updates it in place; removing and re-adding a key appends
//! it at the end.

use vstd::prelude::*;

verus! {

/// First index at which `key` occurs in `s` (meaningful only when the key
/// is present).
pub open spec fn key_idx<T>(s: Seq<(Seq<char>, T)>, key: Seq<char>) -> int
    decreases s.len(),
{
    if s.len() == 0 {
        0
    } else if s[0].0 == key {
        0
    } else {
        1 + key_idx(s.subrange(1, s.len() as int), key)
    }
}

/// Does some entry of `s` carry `key`?
pub open spec fn has_key<T>(s: Seq<(Seq<char>, T)>, key: Seq<char>) -> bool {
    exists|i: int| 0 <= i < s.len() && (#[trigger] s[i]).0 == key
}

/// No two entries share a key.
pub open spec fn distinct_keys<T>(s: Seq<(Seq<char>, T)>) -> bool {
    forall|i: int, j: int|
        0 <= i < j < s.len() ==> (#[trigger] s[i]).0 != (#[trigger] s[j]).0
}

/// Upsert: update in place when the key is present, append otherwise.
pub open spec fn spec_set<T>(s: Seq<(Seq<char>, T)>, key: Seq<char>, v: T) -> Seq<(Seq<char>, T)> {
    if has_key(s, key) {
        s.update(key_idx(s, key), (key, v))
    } else {
        s.push((key, v))
    }
}

/// Removal: delete the entry when present, identity otherwise.
pub open spec fn spec_del<T>(s: Seq<(Seq<char>, T)>, key: Seq<char>) -> Seq<(Seq<char>, T)> {
    if has_key(s, key) {
        s.remove(key_idx(s, key))
    } else {
        s
    }
}

/// When the key is present, `key_idx` is the first index carrying it.
pub proof fn lemma_key_idx<T>(s: Seq<(Seq<char>, T)>, key: Seq<char>)
    requires
        has_key(s, key),
    ensures
        0 <= key_idx(s, key) < s.len(),
        s[key_idx(s, key)].0 == key,
        forall|i: int| 0 <= i < key_idx(s, key) ==> (#[trigger] s[i]).0 != key,
    decreases s.len(),
{
    if s.len() == 0 {
    } else if s[0].0 == key {
    } else {
        let t = s.subrange(1, s.len() as int);
        assert(has_key(t, key)) by {
            let w = choose|i: int| 0 <= i < s.len() && (#[trigger] s[i]).0 == key;
            assert(t[w - 1].0 == key);
        }
        lemma_key_idx(t, key);
        assert forall|i: int| 0 <= i < key_idx(s, key) implies (#[trigger] s[i]).0 != key by {
            if i > 0 {
                assert(t[i - 1].0 != key);
            }
        }
    }
}

/// When the key is absent, `key_idx` runs off the end.
pub proof fn lemma_key_idx_absent<T>(s: Seq<(Seq<char>, T)>, key: Seq<char>)
    requires
        !has_key(s, key),
    ensures
        key_idx(s, key) == s.len(),
    decreases s.len(),
{
    if s.len() == 0 {
    } else {
        let t = s.subrange(1, s.len() as int);
        assert(!has_key(t, key)) by {
            if has_key(t, key) {
                let w = choose|i: int| 0 <= i < t.len() && (#[trigger] t[i]).0 == key;
                assert(s[w + 1].0 == key);
            }
        }
        lemma_key_idx_absent(t, key);
    }
}

/// Upsert keeps keys distinct.
pub proof fn lemma_set_distinct<T>(s: Seq<(Seq<char>, T)>, key: Seq<char>, v: T)
    requires
        distinct_keys(s),
    ensures
        distinct_keys(spec_set(s, key, v)),
{
    if has_key(s, key) {
        lemma_key_idx(s, key);
        let r = spec_set(s, key, v);
        assert forall|i: int, j: int| 0 <= i < j < r.len() implies (#[trigger] r[i]).0
            != (#[trigger] r[j]).0 by {
            assert(s[i].0 != s[j].0);
        }
    } else {
        let r = spec_set(s, key, v);
        assert forall|i: int, j: int| 0 <= i < j < r.len() implies (#[trigger] r[i]).0
            != (#[trigger] r[j]).0 by {
            if j == s.len() {
                assert(s[i].0 != key);
            } else {
                assert(s[i].0 != s[j].0);
            }
        }
    }
}

/// Removal keeps keys distinct.
pub proof fn lemma_del_distinct<T>(s: Seq<(Seq<char>, T)>, key: Seq<char>)
    requires
        distinct_keys(s),
    ensures
        distinct_keys(spec_del(s, key)),
{
    if has_key(s, key) {
        lemma_key_idx(s, key);
        let k = key_idx(s, key);
        let r = spec_del(s, key);
        assert forall|i: int, j: int| 0 <= i < j < r.len() implies (#[trigger] r[i]).0
            != (#[trigger] r[j]).0 by {
            let si: int = if i < k { i } else { i + 1 };
            let sj: int = if j < k { j } else { j + 1 };
            assert(r[i] == s[si]);
            assert(r[j] == s[sj]);
            assert(s[si].0 != s[sj].0);
        }
    }
}

/// After removing a key from a distinct list, the key is gone.
pub proof fn lemma_del_clears<T>(s: Seq<(Seq<char>, T)>, key: Seq<char>)
    requires
        distinct_keys(s),
    ensures
        !has_key(spec_del(s, key), key),
{
    if has_key(s, key) {
        lemma_key_idx(s, key);
        let k = key_idx(s, key);
        let r = spec_del(s, key);
        if has_key(r, key) {
            let w = choose|i: int| 0 <= i < r.len() && (#[trigger] r[i]).0 == key;
            let sw: int = if w < k { w } else { w + 1 };
            assert(s[sw].0 == key);
            assert(sw != k);
        }
    }
}

/// Setting the same key twice keeps only the second value: the first
/// write leaves no trace.
pub proof fn lemma_set_twice<T>(s: Seq<(Seq<char>, T)>, key: Seq<char>, a: T, b: T)
    requires
        distinct_keys(s),
    ensures
        spec_set(spec_set(s, key, a), key, b) == spec_set(s, key, b),
{
    let s1 = spec_set(s, key, a);
    if has_key(s, key) {
        lemma_key_idx(s, key);
        let k = key_idx(s, key);
        assert(s1[k].0 == key);
        assert(has_key(s1, key));
        lemma_key_idx(s1, key);
        assert(key_idx(s1, key) == k) by {
            let k1 = key_idx(s1, key);
            if k1 < k {
                assert(s1[k1] == s[k1]);
                assert(s[k1].0 != key);
            }
            if k1 > k {
                assert(s1[k].0 != key);
            }
        }
        assert(spec_set(s1, key, b) =~= spec_set(s, key, b));
    } else {
        lemma_key_idx_absent(s, key);
        let k = s.len() as int;
        assert(s1[k].0 == key);
        assert(has_key(s1, key));
        lemma_key_idx(s1, key);
        assert(key_idx(s1, key) == k) by {
            let k1 = key_idx(s1, key);
            if k1 < k {
                assert(s1[k1] == s[k1]);
                assert(has_key(s, key));
            }
        }
        assert(spec_set(s1, key, b) =~= spec_set(s, key, b));
    }
}

/// Removing a key and then setting it again appends it at the end: the
/// old position is not restored.
pub proof fn lemma_del_then_set_appends<T>(s: Seq<(Seq<char>, T)>, key: Seq<char>, v: T)
    requires
        distinct_keys(s),
    ensures
        spec_set(spec_del(s, key), key, v) == spec_del(s, key).push((key, v)),
{
    lemma_del_clears(s, key);
}

/// Upsert leaves exactly the old keys plus the new one.
pub proof fn lemma_set_has<T>(s: Seq<(Seq<char>, T)>, key: Seq<char>, v: T)
    ensures
        forall|k2: Seq<char>| #[trigger]
            has_key(spec_set(s, key, v), k2) <==> (k2 == key || has_key(s, k2)),
{
    let r = spec_set(s, key, v);
    if has_key(s, key) {
        lemma_key_idx(s, key);
    }
    assert forall|k2: Seq<char>| #[trigger] has_key(r, k2) implies (k2 == key || has_key(
        s,
        k2,
    )) by {
        let w = choose|i: int| 0 <= i < r.len() && (#[trigger] r[i]).0 == k2;
        if has_key(s, key) {
            if w != key_idx(s, key) {
                assert(s[w].0 == k2);
            }
        } else {
            if w != s.len() {
                assert(s[w].0 == k2);
            }
        }
    }
    assert forall|k2: Seq<char>| (k2 == key || has_key(s, k2)) implies #[trigger] has_key(
        r,
        k2,
    ) by {
        if k2 == key {
            if has_key(s, key) {
                assert(r[key_idx(s, key)].0 == key);
            } else {
                assert(r[s.len() as int].0 == key);
            }
        } else {
            let w = choose|i: int| 0 <= i < s.len() && (#[trigger] s[i]).0 == k2;
            if has_key(s, key) && w == key_idx(s, key) {
                assert(s[w].0 == key);
            } else {
                assert(r[w].0 == k2);
            }
        }
    }
}

/// A value read back is the value last written: after an upsert the
/// key is present and carries exactly the written value.
pub proof fn lemma_set_then_get<T>(s: Seq<(Seq<char>, T)>, key: Seq<char>, v: T)
    requires
        distinct_keys(s),
    ensures
        has_key(spec_set(s, key, v), key),
        spec_set(s, key, v)[key_idx(spec_set(s, key, v), key)] == (key, v),
{
    let r = spec_set(s, key, v);
    if has_key(s, key) {
        lemma_key_idx(s, key);
        let k = key_idx(s, key);
        assert(r[k].0 == key);
        assert(has_key(r, key));
        lemma_key_idx(r, key);
        let k1 = key_idx(r, key);
        if k1 < k {
            assert(r[k1] == s[k1]);
            assert(s[k1].0 != key);
        }
        if k1 > k {
            assert(r[k].0 != key);
        }
    } else {
        lemma_key_idx_absent(s, key);
        let k = s.len() as int;
        assert(r[k].0 == key);
        assert(has_key(r, key));
        lemma_key_idx(r, key);
        let k1 = key_idx(r, key);
        if k1 < k {
            assert(r[k1] == s[k1]);
            assert(has_key(s, key));
        }
    }
}

/// The association list a vector of (name, value) pairs stands for.
pub open spec fn pairs_view<T>(v: Vec<(String, T)>) -> Seq<(Seq<char>, T)> {
    v@.map_values(|p: (String, T)| (p.0@, p.1))
}

/// Index of the entry carrying `name`, if any.
pub fn find_key<T>(v: &Vec<(String, T)>, name: &str) -> (r: Option<usize>)
    requires
        distinct_keys(pairs_view(*v)),
    ensures
        r matches Some(i) ==> 0 <= i < v@.len() && pairs_view(*v)[i as int].0 == name@
            && i as int == key_idx(pairs_view(*v), name@),
        r is None ==> !has_key(pairs_view(*v), name@),
{
    let ghost s = pairs_view(*v);
    let n = v.len();
    let mut i: usize = 0;
    while i < n
        invariant
            n == v@.len(),
            s == pairs_view(*v),
            s.len() == v@.len(),
            i <= n,
            forall|j: int| 0 <= j < i ==> (#[trigger] s[j]).0 != name@,
        decreases n - i,
    {
        assert(s[i as int].0 == v@[i as int].0@);
        if crate::text::str_eq(v[i].0.as_str(), name) {
            proof {
                assert(has_key(s, name@));
                lemma_key_idx(s, name@);
                let k = key_idx(s, name@);
                if k < i as int {
                    assert(s[k].0 != name@);
                }
            }
            return Some(i);
        }
        i = i + 1;
    }
    proof {
        if has_key(s, name@) {
            let w = choose|j: int| 0 <= j < s.len() && (#[trigger] s[j]).0 == name@;
            assert(s[w].0 != name@);
        }
    }
    None
}

/// Borrow the value stored under `name`, if any.
pub fn lookup_pair<'a, T>(v: &'a Vec<(String, T)>, name: &str) -> (r: Option<&'a T>)
    requires
        distinct_keys(pairs_view(*v)),
    ensures
        r matches Some(t) ==> has_key(pairs_view(*v), name@) && *t == pairs_view(*v)[key_idx(
            pairs_view(*v),
            name@,
        )].1,
        r is None ==> !has_key(pairs_view(*v), name@),
{
    match find_key(v, name) {
        Some(i) => Some(&v[i].1),
        None => None,
    }
}

/// Upsert `name` to `val`: update in place or append.
pub fn set_pair<T>(v: &mut Vec<(String, T)>, name: String, val: T)
    requires
        distinct_keys(pairs_view(*old(v))),
    ensures
        distinct_keys(pairs_view(*final(v))),
        pairs_view(*final(v)) == spec_set(pairs_view(*old(v)), name@, val),
{
    proof {
        lemma_set_distinct(pairs_view(*v), name@, val);
    }
    let ghost pre = pairs_view(*v);
    match find_key(v, name.as_str()) {
        Some(i) => {
            let _ = v.remove(i);
            v.insert(i, (name, val));
            proof {
                assert(pairs_view(*v) =~= spec_set(pre, name@, val));
            }
        },
        None => {
            v.push((name, val));
            proof {
                assert(pairs_view(*v) =~= spec_set(pre, name@, val));
            }
        },
    }
}

/// Remove the entry carrying `name`, if any.
pub fn del_pair<T>(v: &mut Vec<(String, T)>, name: &str)
    requires
        distinct_keys(pairs_view(*old(v))),
    ensures
        distinct_keys(pairs_view(*final(v))),
        pairs_view(*final(v)) == spec_del(pairs_view(*old(v)), name@),
{
    proof {
        lemma_del_distinct(pairs_view(*v), name@);
    }
    let ghost pre = pairs_view(*v);
    match find_key(v, name) {
        Some(i) => {
            let _ = v.remove(i);
            proof {
                assert(pairs_view(*v) =~= spec_del(pre, name@));
            }
        },
        None => {},
    }
}

} // verus!
