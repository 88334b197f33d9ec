//! Session and state core for a multi-button/dial input deck.
//!
//! The library owns the data model (profiles, pages, buttons, encoder
//! bindings), the navigation state machine, the render pipeline with its
//! bounded image cache, the device-event dispatcher, and the reconnect
//! supervisor. Device I/O, key injection, manifest parsing and the OS
//! listeners live outside, around this crate; they hand plain values in
//! and carry the decisions out.

pub mod activity;
pub mod agent;
pub mod images;
pub mod key_combo;
pub mod manifest;
pub mod materialized_page;
pub mod profile;
pub mod state;

use vstd::prelude::*;

verus! {

/// Name of the profile that navigation falls back to.
pub open spec fn default_profile_spec() -> Seq<char> {
    "common"@
}

/// Name of the page that navigation falls back to.
pub open spec fn default_page_spec() -> Seq<char> {
    "main"@
}

/// The profile that navigation falls back to.
pub fn default_profile() -> (s: &'static str)
    ensures
        s@ == default_profile_spec(),
{
    "common"
}

/// The page that navigation falls back to.
pub fn default_page() -> (s: &'static str)
    ensures
        s@ == default_page_spec(),
{
    "main"
}

/// Compares two string slices by their character sequences.
pub fn str_eq(a: &str, b: &str) -> (r: bool)
    ensures
        r == (a@ == b@),
{
    let sa: String = a.to_owned();
    let sb: String = b.to_owned();
    sa == sb
}

/// The value bound to `key` in an association list, taking the first
/// entry whose key matches; `None` when no entry matches.
pub open spec fn assoc_get<K, V>(entries: Seq<(K, V)>, key: K) -> Option<V>
    decreases entries.len(),
{
    if entries.len() == 0 {
        None
    } else if entries[0].0 == key {
        Some(entries[0].1)
    } else {
        assoc_get(entries.skip(1), key)
    }
}

/// No two entries share a key.
pub open spec fn unique_keys<K, V>(entries: Seq<(K, V)>) -> bool {
    forall|i: int, j: int| 0 <= i < j < entries.len() ==> entries[i].0 != entries[j].0
}

/// Relates a linear scan to [`assoc_get`]: if the first `i` entries miss
/// the key, the lookup is decided at position `i`.
pub proof fn lemma_assoc_get_at<K, V>(entries: Seq<(K, V)>, key: K, i: int)
    requires
        0 <= i <= entries.len(),
        forall|j: int| 0 <= j < i ==> entries[j].0 != key,
        i < entries.len() ==> entries[i].0 == key,
    ensures
        i < entries.len() ==> assoc_get(entries, key) == Some(entries[i].1),
        i == entries.len() ==> assoc_get(entries, key) is None,
    decreases i,
{
    if entries.len() == 0 {
    } else if i == 0 {
    } else {
        let t = entries.skip(1);
        assert(entries[0].0 != key);
        assert forall|j: int| 0 <= j < i - 1 implies t[j].0 != key by {
            assert(t[j] == entries[j + 1]);
        }
        if i < entries.len() {
            assert(t[i - 1] == entries[i]);
        }
        lemma_assoc_get_at(t, key, i - 1);
    }
}

/// The association list with every entry under `key` taken out; the
/// other entries keep their order.
pub open spec fn remove_key<K, V>(entries: Seq<(K, V)>, key: K) -> Seq<(K, V)>
    decreases entries.len(),
{
    if entries.len() == 0 {
        Seq::empty()
    } else if entries[0].0 == key {
        remove_key(entries.skip(1), key)
    } else {
        seq![entries[0]] + remove_key(entries.skip(1), key)
    }
}

/// Taking a key out removes it and nothing else: no entry under the key
/// is left, the other keys keep their first bindings, and uniqueness of
/// keys is preserved.
pub proof fn lemma_remove_key_props<K, V>(entries: Seq<(K, V)>, key: K)
    ensures
        forall|i: int|
            0 <= i < remove_key(entries, key).len() ==> (#[trigger] remove_key(entries, key)[i]).0
                != key,
        remove_key(entries, key).len() <= entries.len(),
        unique_keys(entries) ==> unique_keys(remove_key(entries, key)),
        forall|k2: K| k2 != key ==> assoc_get(remove_key(entries, key), k2) == assoc_get(
            entries,
            k2,
        ),
    decreases entries.len(),
{
    if entries.len() == 0 {
    } else {
        let t = entries.skip(1);
        lemma_remove_key_props(t, key);
        if unique_keys(entries) {
            assert forall|i: int, j: int|
                0 <= i < j < t.len() implies (#[trigger] t[i]).0 != (#[trigger] t[j]).0 by {
                assert(t[i] == entries[i + 1]);
                assert(t[j] == entries[j + 1]);
            }
        }
        if entries[0].0 == key {
            assert forall|k2: K| k2 != key implies assoc_get(remove_key(entries, key), k2)
                == assoc_get(entries, k2) by {
                assert(assoc_get(entries, k2) == assoc_get(t, k2));
            }
        } else {
            let r = seq![entries[0]] + remove_key(t, key);
            if unique_keys(entries) && unique_keys(remove_key(t, key)) {
                assert forall|i: int, j: int|
                    0 <= i < j < r.len() implies (#[trigger] r[i]).0 != (#[trigger] r[j]).0 by {
                    if i == 0 {
                        let rt = remove_key(t, key);
                        assert(r[j] == rt[j - 1]);
                        lemma_remove_key_member(t, key, rt[j - 1]);
                    }
                }
            }
            assert forall|k2: K| k2 != key implies assoc_get(r, k2) == assoc_get(
                entries,
                k2,
            ) by {
                assert(r.skip(1) =~= remove_key(t, key));
                assert(r[0] == entries[0]);
                if r[0].0 == k2 {
                    assert(assoc_get(r, k2) == Some(entries[0].1));
                    assert(assoc_get(entries, k2) == Some(entries[0].1));
                } else {
                    assert(assoc_get(r, k2) == assoc_get(remove_key(t, key), k2));
                    assert(assoc_get(entries, k2) == assoc_get(t, k2));
                }
            }
        }
    }
}

/// Every entry of the reduced list comes from the original list.
pub proof fn lemma_remove_key_member<K, V>(entries: Seq<(K, V)>, key: K, e: (K, V))
    requires
        remove_key(entries, key).contains(e),
    ensures
        entries.contains(e),
    decreases entries.len(),
{
    if entries.len() == 0 {
    } else {
        let t = entries.skip(1);
        if entries[0].0 == key {
            lemma_remove_key_member(t, key, e);
            let i = choose|i: int| 0 <= i < t.len() && t[i] == e;
            assert(entries[i + 1] == e);
        } else {
            let r = seq![entries[0]] + remove_key(t, key);
            let i = choose|i: int| 0 <= i < r.len() && r[i] == e;
            if i == 0 {
                assert(entries[0] == e);
            } else {
                lemma_remove_key_member(t, key, e);
                let j = choose|j: int| 0 <= j < t.len() && t[j] == e;
                assert(entries[j + 1] == e);
            }
        }
    }
}

/// Where the key stands at position `i` and nowhere else, taking it out
/// splices the list around `i`.
pub proof fn lemma_remove_key_at<K, V>(entries: Seq<(K, V)>, key: K, i: int)
    requires
        0 <= i < entries.len(),
        entries[i].0 == key,
        forall|j: int| 0 <= j < entries.len() && j != i ==> (#[trigger] entries[j]).0 != key,
    ensures
        remove_key(entries, key) == entries.subrange(0, i) + entries.subrange(
            i + 1,
            entries.len() as int,
        ),
    decreases i,
{
    let t = entries.skip(1);
    if i == 0 {
        lemma_remove_key_absent(t, key);
        assert(remove_key(entries, key) =~= entries.subrange(0, 0) + entries.subrange(
            1,
            entries.len() as int,
        ));
    } else {
        assert forall|j: int| 0 <= j < t.len() && j != i - 1 implies (#[trigger] t[j]).0 != key by {
            assert(t[j] == entries[j + 1]);
        }
        assert(t[i - 1] == entries[i]);
        lemma_remove_key_at(t, key, i - 1);
        assert(remove_key(entries, key) =~= entries.subrange(0, i) + entries.subrange(
            i + 1,
            entries.len() as int,
        ));
    }
}

/// A lookup that finds a value means some entry holds the key, bound to
/// that value, with no earlier entry under the key.
pub proof fn lemma_assoc_get_position<K, V>(entries: Seq<(K, V)>, key: K)
    requires
        assoc_get(entries, key) is Some,
    ensures
        exists|i: int|
            0 <= i < entries.len() && (#[trigger] entries[i]).0 == key && entries[i].1
                == assoc_get(entries, key)->Some_0 && forall|j: int| 0 <= j < i ==> entries[j].0 != key,
    decreases entries.len(),
{
    if entries.len() == 0 {
    } else if entries[0].0 == key {
        assert(entries[0].0 == key && entries[0].1 == assoc_get(entries, key)->Some_0 && forall|
            j: int,
        | 0 <= j < 0 ==> entries[j].0 != key);
    } else {
        let t = entries.skip(1);
        lemma_assoc_get_position(t, key);
        let i = choose|i: int|
            0 <= i < t.len() && (#[trigger] t[i]).0 == key && t[i].1 == assoc_get(t, key)->Some_0
                && forall|j: int| 0 <= j < i ==> t[j].0 != key;
        assert(entries[i + 1] == t[i]);
        assert forall|j: int| 0 <= j < i + 1 implies (#[trigger] entries[j]).0 != key by {
            if j > 0 {
                assert(entries[j] == t[j - 1]);
            }
        }
    }
}

/// A lookup that finds nothing means no entry holds the key.
pub proof fn lemma_assoc_get_none_implies_absent<K, V>(entries: Seq<(K, V)>, key: K)
    requires
        assoc_get(entries, key) is None,
    ensures
        forall|j: int| 0 <= j < entries.len() ==> (#[trigger] entries[j]).0 != key,
    decreases entries.len(),
{
    if entries.len() == 0 {
    } else {
        let t = entries.skip(1);
        lemma_assoc_get_none_implies_absent(t, key);
        assert forall|j: int| 0 <= j < entries.len() implies (#[trigger] entries[j]).0 != key by {
            if j > 0 {
                assert(entries[j] == t[j - 1]);
            }
        }
    }
}

/// A key that no entry holds takes nothing out.
pub proof fn lemma_remove_key_absent<K, V>(entries: Seq<(K, V)>, key: K)
    requires
        forall|j: int| 0 <= j < entries.len() ==> (#[trigger] entries[j]).0 != key,
    ensures
        remove_key(entries, key) == entries,
    decreases entries.len(),
{
    if entries.len() == 0 {
        assert(remove_key(entries, key) =~= entries);
    } else {
        let t = entries.skip(1);
        assert forall|j: int| 0 <= j < t.len() implies (#[trigger] t[j]).0 != key by {
            assert(t[j] == entries[j + 1]);
        }
        lemma_remove_key_absent(t, key);
        assert(remove_key(entries, key) =~= entries);
    }
}

} // verus!
