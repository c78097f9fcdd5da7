//! Lists of entries keyed by a string, in which no key occurs twice: the form the library gives
//! to its string-keyed tables.

use crate::text::str_eq;
use vstd::prelude::*;

verus! {

/// No key occurs twice.
pub open spec fn keys_unique<X>(s: Seq<(String, X)>) -> bool {
    forall|i: int, j: int| 0 <= i < j < s.len() ==> #[trigger] s[i].0@ != #[trigger] s[j].0@
}

pub open spec fn has_key<X>(s: Seq<(String, X)>, k: Seq<char>) -> bool {
    exists|i: int| 0 <= i < s.len() && #[trigger] s[i].0@ == k
}

pub open spec fn key_pos<X>(s: Seq<(String, X)>, k: Seq<char>) -> int {
    choose|i: int| 0 <= i < s.len() && #[trigger] s[i].0@ == k
}

/// The value stored under `k`.
pub open spec fn lookup<X>(s: Seq<(String, X)>, k: Seq<char>) -> Option<X> {
    if has_key(s, k) {
        Some(s[key_pos(s, k)].1)
    } else {
        None
    }
}

/// In a list without repeated keys, the entry at `i` is what its key looks up.
pub proof fn lemma_lookup_at<X>(s: Seq<(String, X)>, i: int)
    requires
        keys_unique(s),
        0 <= i < s.len(),
    ensures
        lookup(s, s[i].0@) == Some(s[i].1),
{
    let k = s[i].0@;
    assert(has_key(s, k));
    let j = key_pos(s, k);
    if j < i {
        assert(s[j].0@ != s[i].0@);
    } else if j > i {
        assert(s[i].0@ != s[j].0@);
    }
}

/// Replacing the value at `i` keeps every key and changes only what that key looks up.
pub proof fn lemma_lookup_update<X>(s: Seq<(String, X)>, i: int, v: X)
    requires
        keys_unique(s),
        0 <= i < s.len(),
    ensures
        keys_unique(s.update(i, (s[i].0, v))),
        lookup(s.update(i, (s[i].0, v)), s[i].0@) == Some(v),
        forall|k: Seq<char>|
            k != s[i].0@ ==> #[trigger] lookup(s.update(i, (s[i].0, v)), k) == lookup(s, k),
{
    let t = s.update(i, (s[i].0, v));
    assert forall|a: int, b: int| 0 <= a < b < t.len() implies #[trigger] t[a].0@
        != #[trigger] t[b].0@ by {
        assert(t[a].0 == s[a].0 && t[b].0 == s[b].0);
        assert(s[a].0@ != s[b].0@);
    }
    lemma_lookup_at(t, i);
    assert forall|k: Seq<char>| k != s[i].0@ implies #[trigger] lookup(t, k) == lookup(s, k) by {
        if has_key(s, k) {
            let m = key_pos(s, k);
            assert(t[m].0@ == k);
            lemma_lookup_at(s, m);
            lemma_lookup_at(t, m);
        } else {
            assert forall|m: int| 0 <= m < t.len() implies #[trigger] t[m].0@ != k by {
                assert(t[m].0 == s[m].0);
                if s[m].0@ == k {
                    assert(has_key(s, k));
                }
            }
        }
    }
}

/// Removing the entry at `i` removes its key and changes nothing else.
pub proof fn lemma_lookup_remove<X>(s: Seq<(String, X)>, i: int)
    requires
        keys_unique(s),
        0 <= i < s.len(),
    ensures
        keys_unique(s.remove(i)),
        lookup(s.remove(i), s[i].0@) is None,
        forall|k: Seq<char>| k != s[i].0@ ==> #[trigger] lookup(s.remove(i), k) == lookup(s, k),
{
    let t = s.remove(i);
    assert forall|a: int, b: int| 0 <= a < b < t.len() implies #[trigger] t[a].0@
        != #[trigger] t[b].0@ by {
        let a0 = if a < i {
            a
        } else {
            a + 1
        };
        let b0 = if b < i {
            b
        } else {
            b + 1
        };
        assert(t[a] == s[a0] && t[b] == s[b0]);
        assert(s[a0].0@ != s[b0].0@);
    }
    assert forall|m: int| 0 <= m < t.len() implies #[trigger] t[m].0@ != s[i].0@ by {
        let m0 = if m < i {
            m
        } else {
            m + 1
        };
        assert(t[m] == s[m0]);
        if m0 < i {
            assert(s[m0].0@ != s[i].0@);
        } else {
            assert(s[i].0@ != s[m0].0@);
        }
    }
    assert forall|k: Seq<char>| k != s[i].0@ implies #[trigger] lookup(t, k) == lookup(s, k) by {
        if has_key(s, k) {
            let m = key_pos(s, k);
            let m1 = if m < i {
                m
            } else {
                m - 1
            };
            assert(m != i);
            assert(t[m1] == s[m]);
            lemma_lookup_at(s, m);
            lemma_lookup_at(t, m1);
        } else {
            assert forall|m: int| 0 <= m < t.len() implies #[trigger] t[m].0@ != k by {
                let m0 = if m < i {
                    m
                } else {
                    m + 1
                };
                assert(t[m] == s[m0]);
                if s[m0].0@ == k {
                    assert(has_key(s, k));
                }
            }
        }
    }
}

/// Adding an entry under a key that is not there makes that key look it up and changes
/// nothing else.
pub proof fn lemma_lookup_push<X>(s: Seq<(String, X)>, e: (String, X))
    requires
        keys_unique(s),
        !has_key(s, e.0@),
    ensures
        keys_unique(s.push(e)),
        lookup(s.push(e), e.0@) == Some(e.1),
        forall|k: Seq<char>| k != e.0@ ==> #[trigger] lookup(s.push(e), k) == lookup(s, k),
{
    let t = s.push(e);
    assert forall|a: int, b: int| 0 <= a < b < t.len() implies #[trigger] t[a].0@
        != #[trigger] t[b].0@ by {
        if b == s.len() {
            assert(t[a] == s[a]);
            if s[a].0@ == e.0@ {
                assert(has_key(s, e.0@));
            }
        } else {
            assert(t[a] == s[a] && t[b] == s[b]);
        }
    }
    lemma_lookup_at(t, s.len() as int);
    assert forall|k: Seq<char>| k != e.0@ implies #[trigger] lookup(t, k) == lookup(s, k) by {
        if has_key(s, k) {
            let m = key_pos(s, k);
            assert(t[m] == s[m]);
            lemma_lookup_at(s, m);
            lemma_lookup_at(t, m);
        } else {
            assert forall|m: int| 0 <= m < t.len() implies #[trigger] t[m].0@ != k by {
                if m < s.len() {
                    assert(t[m] == s[m]);
                    if s[m].0@ == k {
                        assert(has_key(s, k));
                    }
                }
            }
        }
    }
}

/// Where `key` stands in the list, if anywhere.
pub fn find_key<X>(s: &Vec<(String, X)>, key: &str) -> (r: Option<usize>)
    ensures
        match r {
            Some(i) => i < s@.len() && s@[i as int].0@ == key@,
            None => !has_key(s@, key@),
        },
{
    let mut i: usize = 0;
    while i < s.len()
        invariant
            i <= s@.len(),
            forall|j: int| 0 <= j < i ==> #[trigger] s@[j].0@ != key@,
        decreases s.len() - i,
    {
        if str_eq(s[i].0.as_str(), key) {
            return Some(i);
        }
        i = i + 1;
    }
    None
}

/// The value under the first entry with key `k`: what a lookup finds in a list that may hold a
/// key twice.
pub open spec fn first_lookup<X>(s: Seq<(String, X)>, k: Seq<char>) -> Option<X>
    decreases s.len(),
{
    if s.len() == 0 {
        None
    } else if s[0].0@ == k {
        Some(s[0].1)
    } else {
        first_lookup(s.drop_first(), k)
    }
}

/// Where the first entry with key `key` stands.
pub fn find_first<X>(s: &Vec<(String, X)>, key: &str) -> (r: Option<usize>)
    ensures
        match r {
            Some(i) => i < s@.len() && s@[i as int].0@ == key@ && first_lookup(s@, key@) == Some(
                s@[i as int].1,
            ),
            None => first_lookup(s@, key@) is None,
        },
{
    let mut i: usize = 0;
    assert(s@.skip(0) =~= s@);
    while i < s.len()
        invariant
            i <= s@.len(),
            first_lookup(s@, key@) == first_lookup(s@.skip(i as int), key@),
        decreases s.len() - i,
    {
        assert(s@.skip(i as int).drop_first() =~= s@.skip(i + 1));
        if str_eq(s[i].0.as_str(), key) {
            return Some(i);
        }
        i = i + 1;
    }
    None
}

} // verus!
