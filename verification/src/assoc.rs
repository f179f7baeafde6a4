//! First-match lookup in an association list with integer keys, shared by
//! the session registries.

use vstd::prelude::*;

verus! {

/// The index of the first entry keyed `key`, if any.
pub open spec fn key_index<V>(s: Seq<(u64, V)>, key: u64) -> Option<int>
    decreases s.len(),
{
    if s.len() == 0 {
        None
    } else if s[0].0 == key {
        Some(0)
    } else {
        match key_index(s.skip(1), key) {
            Some(i) => Some(i + 1),
            None => None,
        }
    }
}

/// If nothing before `i` carries `key` and entry `i` does, `i` is the first
/// index.
pub proof fn lemma_key_index_first<V>(s: Seq<(u64, V)>, key: u64, i: int)
    requires
        0 <= i < s.len(),
        s[i].0 == key,
        forall|j: int| 0 <= j < i ==> (#[trigger] s[j]).0 != key,
    ensures
        key_index(s, key) == Some(i),
    decreases i,
{
    if i > 0 {
        assert(s.skip(1)[i - 1] == s[i]);
        assert(forall|j: int| 0 <= j < i - 1 ==> (#[trigger] s.skip(1)[j]) == s[j + 1]);
        lemma_key_index_first(s.skip(1), key, i - 1);
    }
}

/// If no entry carries `key`, the lookup finds none.
pub proof fn lemma_key_index_none<V>(s: Seq<(u64, V)>, key: u64)
    requires
        forall|j: int| 0 <= j < s.len() ==> (#[trigger] s[j]).0 != key,
    ensures
        key_index(s, key) is None,
    decreases s.len(),
{
    if s.len() > 0 {
        assert(forall|j: int| 0 <= j < s.skip(1).len() ==> (#[trigger] s.skip(1)[j]) == s[j + 1]);
        lemma_key_index_none(s.skip(1), key);
    }
}

/// A found index lies in range, carries `key`, and nothing before it does.
pub proof fn lemma_key_index_skip<V>(s: Seq<(u64, V)>, key: u64)
    ensures
        match key_index(s, key) {
            Some(i) => 0 <= i < s.len() && s[i].0 == key && forall|j: int|
                0 <= j < i ==> (#[trigger] s[j]).0 != key,
            None => forall|j: int| 0 <= j < s.len() ==> (#[trigger] s[j]).0 != key,
        },
    decreases s.len(),
{
    if s.len() > 0 {
        lemma_key_index_skip(s.skip(1), key);
        assert(forall|j: int| 0 <= j < s.skip(1).len() ==> (#[trigger] s.skip(1)[j]) == s[j + 1]);
        if s[0].0 == key {
        } else {
            match key_index(s.skip(1), key) {
                Some(i) => {
                    assert(key_index(s, key) == Some(i + 1));
                    assert(s[i + 1] == s.skip(1)[i]);
                    assert forall|j: int| 0 <= j < i + 1 implies (#[trigger] s[j]).0 != key by {
                        if j > 0 {
                            assert(s[j] == s.skip(1)[j - 1]);
                        }
                    }
                },
                None => {
                    assert forall|j: int| 0 <= j < s.len() implies (#[trigger] s[j]).0 != key by {
                        if j > 0 {
                            assert(s[j] == s.skip(1)[j - 1]);
                        }
                    }
                },
            }
        }
    }
}

} // verus!
