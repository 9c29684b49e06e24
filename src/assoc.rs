//! Association lists read as maps: a later entry for a key overrides an
//! earlier one.
use vstd::prelude::*;

verus! {

/// The map that an association list stands for.
pub open spec fn assoc<K, V>(s: Seq<(K, V)>) -> Map<K, V>
    decreases s.len(),
{
    if s.len() == 0 {
        Map::empty()
    } else {
        assoc(s.drop_last()).insert(s.last().0, s.last().1)
    }
}

/// Entry `p` is the last one for its key.
pub open spec fn last_for_key<K, V>(s: Seq<(K, V)>, p: int) -> bool {
    &&& 0 <= p < s.len()
    &&& forall|j: int| p < j < s.len() ==> (#[trigger] s[j]).0 != s[p].0
}

pub proof fn lemma_assoc_last<K, V>(s: Seq<(K, V)>, p: int)
    requires
        last_for_key(s, p),
    ensures
        assoc(s).contains_key(s[p].0),
        assoc(s)[s[p].0] == s[p].1,
    decreases s.len(),
{
    if p < s.len() - 1 {
        let t = s.drop_last();
        assert forall|j: int| p < j < t.len() implies (#[trigger] t[j]).0 != t[p].0 by {
            assert(t[j] == s[j]);
        }
        assert(s[s.len() - 1].0 != s[p].0);
        lemma_assoc_last(t, p);
    }
}

pub proof fn lemma_assoc_absent<K, V>(s: Seq<(K, V)>, k: K)
    requires
        forall|j: int| 0 <= j < s.len() ==> (#[trigger] s[j]).0 != k,
    ensures
        !assoc(s).contains_key(k),
    decreases s.len(),
{
    if s.len() > 0 {
        let t = s.drop_last();
        assert forall|j: int| 0 <= j < t.len() implies (#[trigger] t[j]).0 != k by {
            assert(t[j] == s[j]);
        }
        assert(s[s.len() - 1].0 != k);
        lemma_assoc_absent(t, k);
    }
}

pub proof fn lemma_assoc_update<K, V>(s: Seq<(K, V)>, p: int, v: V)
    requires
        last_for_key(s, p),
    ensures
        assoc(s.update(p, (s[p].0, v))) == assoc(s).insert(s[p].0, v),
    decreases s.len(),
{
    let k = s[p].0;
    let u = s.update(p, (k, v));
    if p == s.len() - 1 {
        assert(u.drop_last() =~= s.drop_last());
        assert(assoc(u) =~= assoc(s).insert(k, v));
    } else {
        let t = s.drop_last();
        assert forall|j: int| p < j < t.len() implies (#[trigger] t[j]).0 != t[p].0 by {
            assert(t[j] == s[j]);
        }
        lemma_assoc_update(t, p, v);
        assert(u.drop_last() =~= t.update(p, (k, v)));
        assert(s[s.len() - 1].0 != k);
        assert(assoc(u) =~= assoc(s).insert(k, v));
    }
}

pub proof fn lemma_assoc_push<K, V>(s: Seq<(K, V)>, k: K, v: V)
    ensures
        assoc(s.push((k, v))) == assoc(s).insert(k, v),
{
    assert(s.push((k, v)).drop_last() =~= s);
}

/// Two lists with the same keys in the same places stand for maps with the
/// same keys.
pub proof fn lemma_assoc_same_keys<K, V, W>(s: Seq<(K, V)>, t: Seq<(K, W)>)
    requires
        s.len() == t.len(),
        forall|j: int| 0 <= j < s.len() ==> (#[trigger] s[j]).0 == t[j].0,
    ensures
        assoc(s).dom() == assoc(t).dom(),
    decreases s.len(),
{
    if s.len() > 0 {
        let s2 = s.drop_last();
        let t2 = t.drop_last();
        assert forall|j: int| 0 <= j < s2.len() implies (#[trigger] s2[j]).0 == t2[j].0 by {
            assert(s2[j] == s[j]);
            assert(t2[j] == t[j]);
        }
        lemma_assoc_same_keys(s2, t2);
        assert(s[s.len() - 1].0 == t[t.len() - 1].0);
        assert(assoc(s).dom() =~= assoc(t).dom());
    }
}

} // verus!
