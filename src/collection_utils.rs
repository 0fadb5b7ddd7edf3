//! Construction of the string maps that carry endpoint metadata.
use std::collections::HashMap;
use vstd::prelude::*;
use vstd::std_specs::hash::obeys_key_model;

verus! {

/// Collection helpers.
pub struct CollectionUtils;

/// Some key of `m` reads as `k`.
pub open spec fn has_key_text(m: Map<String, String>, k: Seq<char>) -> bool {
    exists|s: String| s@ == k && #[trigger] m.contains_key(s)
}

impl CollectionUtils {
    /// An empty map.
    pub fn new_hashmap<K, V>() -> (r: HashMap<K, V>)
        ensures
            r@ == Map::<K, V>::empty(),
    {
        HashMap::new()
    }

    /// An empty map with room for `capacity` entries.
    pub fn hashmap_with_capacity<K, V>(capacity: usize) -> (r: HashMap<K, V>)
        ensures
            r@ == Map::<K, V>::empty(),
    {
        HashMap::with_capacity(capacity)
    }

    /// A metadata map holding each of the key/value pairs; a later pair
    /// replaces an earlier one with the same key.
    pub fn create_metadata(pairs: &[(&str, &str)]) -> (r: HashMap<String, String>)
        ensures
            obeys_key_model::<String>() ==> {
                &&& r@.len() <= pairs@.len()
                &&& forall|i: int| 0 <= i < pairs@.len() ==> has_key_text(r@, #[trigger] pairs@[i].0@)
                &&& forall|k: String| #[trigger] r@.contains_key(k) ==> exists|i: int|
                    0 <= i < pairs@.len() && k@ == pairs@[i].0@
            },
    {
        let mut m: HashMap<String, String> = HashMap::new();
        let mut i: usize = 0;
        while i < pairs.len()
            invariant
                i <= pairs@.len(),
                obeys_key_model::<String>() ==> {
                    &&& m@.len() <= i
                    &&& forall|j: int| 0 <= j < i ==> has_key_text(m@, #[trigger] pairs@[j].0@)
                    &&& forall|k: String| #[trigger] m@.contains_key(k) ==> exists|j: int|
                        0 <= j < i && k@ == pairs@[j].0@
                },
            decreases pairs@.len() - i,
        {
            let (k, v) = pairs[i];
            let key = k.to_owned();
            let value = v.to_owned();
            let ghost before = m@;
            let _ = m.insert(key, value);
            proof {
                if obeys_key_model::<String>() {
                    assert(m@ == before.insert(key, value));
                    assert(m@.contains_key(key));
                    assert forall|j: int| 0 <= j < i + 1 implies has_key_text(
                        m@,
                        #[trigger] pairs@[j].0@,
                    ) by {
                        if j == i {
                            assert(key@ == pairs@[j].0@);
                        } else {
                            let s = choose|s: String| s@ == pairs@[j].0@ && before.contains_key(s);
                            assert(m@.contains_key(s));
                        }
                    }
                    assert forall|s: String| #[trigger] m@.contains_key(s) implies exists|j: int|
                        0 <= j < i + 1 && s@ == pairs@[j].0@ by {
                        if s != key {
                            assert(before.contains_key(s));
                        } else {
                            assert(s@ == pairs@[i as int].0@);
                        }
                    }
                    if before.contains_key(key) {
                        assert(m@.dom() =~= before.dom());
                    } else {
                        assert(m@.dom() =~= before.dom().insert(key));
                    }
                }
            }
            i = i + 1;
        }
        m
    }
}

} // verus!
