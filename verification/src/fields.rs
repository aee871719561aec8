//! A flat string-keyed mapping of form-decoded fields, as delivered by
//! webhook callbacks or API responses.

use vstd::prelude::*;

verus! {

/// Whether `pairs` holds an entry whose key reads `key`.
pub open spec fn pairs_contain(pairs: Seq<(String, String)>, key: Seq<char>) -> bool
    decreases pairs.len(),
{
    if pairs.len() == 0 {
        false
    } else if pairs[0].0@ == key {
        true
    } else {
        pairs_contain(pairs.drop_first(), key)
    }
}

/// The value of the first entry of `pairs` whose key reads `key`.
pub open spec fn pairs_value(pairs: Seq<(String, String)>, key: Seq<char>) -> Seq<char>
    recommends
        pairs_contain(pairs, key),
    decreases pairs.len(),
{
    if pairs.len() == 0 {
        Seq::empty()
    } else if pairs[0].0@ == key {
        pairs[0].1@
    } else {
        pairs_value(pairs.drop_first(), key)
    }
}

/// A string-keyed field mapping, viewed as a `Map` from field name to
/// field value (both as character sequences). Later insertions shadow
/// earlier entries for the same key.
pub struct FieldMap {
    pairs: Vec<(String, String)>,
}

impl View for FieldMap {
    type V = Map<Seq<char>, Seq<char>>;

    closed spec fn view(&self) -> Map<Seq<char>, Seq<char>> {
        Map::new(
            |key: Seq<char>| pairs_contain(self.pairs@, key),
            |key: Seq<char>| pairs_value(self.pairs@, key),
        )
    }
}

impl FieldMap {
    /// The empty mapping.
    pub fn new() -> (r: FieldMap)
        ensures
            r@ == Map::<Seq<char>, Seq<char>>::empty(),
    {
        let r = FieldMap { pairs: Vec::new() };
        proof {
            assert(r@ =~= Map::<Seq<char>, Seq<char>>::empty());
        }
        r
    }

    /// Inserts `key` with `value`, shadowing any earlier entry for `key`.
    pub fn insert(&mut self, key: String, value: String)
        ensures
            final(self)@ == old(self)@.insert(key@, value@),
    {
        let ghost k = key@;
        let ghost v = value@;
        self.pairs.insert(0, (key, value));
        proof {
            let pold = old(self).pairs@;
            let pnew = self.pairs@;
            assert(pnew.drop_first() =~= pold);
            assert forall|q: Seq<char>|
                pairs_contain(pnew, q) == (q == k || pairs_contain(pold, q)) by {
                assert(pnew[0].0@ == k);
            }
            assert forall|q: Seq<char>| q != k && pairs_contain(pold, q) implies pairs_value(
                pnew,
                q,
            ) == pairs_value(pold, q) by {
                assert(pnew[0].0@ == k);
            }
            assert(pairs_value(pnew, k) == v);
            assert(self@ =~= old(self)@.insert(k, v));
        }
    }

    /// Looks up `key`, returning a reference to its value if present.
    pub fn get(&self, key: &str) -> (r: Option<&String>)
        ensures
            match r {
                Some(value) => self@.contains_key(key@) && value@ == self@[key@],
                None => !self@.contains_key(key@),
            },
    {
        let needle: String = key.to_owned();
        let n = self.pairs.len();
        let mut i: usize = 0;
        while i < n
            invariant
                n == self.pairs@.len(),
                i <= n,
                needle@ == key@,
                forall|j: int| 0 <= j < i ==> self.pairs@[j].0@ != key@,
            decreases n - i,
        {
            if self.pairs[i].0 == needle {
                proof {
                    lemma_pairs_first_match(self.pairs@, key@, i as int);
                }
                return Some(&self.pairs[i].1);
            }
            i += 1;
        }
        proof {
            lemma_pairs_no_match(self.pairs@, key@);
        }
        None
    }
}

/// The first entry whose key matches decides both containment and value.
proof fn lemma_pairs_first_match(pairs: Seq<(String, String)>, key: Seq<char>, i: int)
    requires
        0 <= i < pairs.len(),
        pairs[i].0@ == key,
        forall|j: int| 0 <= j < i ==> pairs[j].0@ != key,
    ensures
        pairs_contain(pairs, key),
        pairs_value(pairs, key) == pairs[i].1@,
    decreases i,
{
    if i > 0 {
        lemma_pairs_first_match(pairs.drop_first(), key, i - 1);
    }
}

/// A mapping none of whose keys matches does not contain the key.
proof fn lemma_pairs_no_match(pairs: Seq<(String, String)>, key: Seq<char>)
    requires
        forall|j: int| 0 <= j < pairs.len() ==> pairs[j].0@ != key,
    ensures
        !pairs_contain(pairs, key),
    decreases pairs.len(),
{
    if pairs.len() > 0 {
        lemma_pairs_no_match(pairs.drop_first(), key);
    }
}

} // verus!
