//! Form parameters of a request: a list of name/value pairs in which no name
//! occurs twice, viewed as a map from names to values.
use vstd::prelude::*;

verus! {

/// Sequence of the names in `pairs`, in order.
pub open spec fn names_of(pairs: Seq<(String, String)>) -> Seq<Seq<char>> {
    Seq::new(pairs.len(), |i: int| pairs[i].0@)
}

/// The map that `pairs` stands for; of two pairs with one name the later counts.
pub open spec fn map_of(pairs: Seq<(String, String)>) -> Map<Seq<char>, Seq<char>>
    decreases pairs.len(),
{
    if pairs.len() == 0 {
        Map::empty()
    } else {
        map_of(pairs.drop_last()).insert(pairs.last().0@, pairs.last().1@)
    }
}

/// A name is bound by `map_of(pairs)` exactly when some pair carries it.
pub proof fn lemma_map_of_domain(pairs: Seq<(String, String)>, name: Seq<char>)
    ensures
        map_of(pairs).contains_key(name) <==> names_of(pairs).contains(name),
    decreases pairs.len(),
{
    if pairs.len() == 0 {
    } else {
        let front = pairs.drop_last();
        lemma_map_of_domain(front, name);
        if names_of(pairs).contains(name) {
            let i = choose|i: int| 0 <= i < pairs.len() && names_of(pairs)[i] == name;
            if i < front.len() {
                assert(names_of(front)[i] == name);
            }
        }
        if names_of(front).contains(name) {
            let i = choose|i: int| 0 <= i < front.len() && names_of(front)[i] == name;
            assert(names_of(pairs)[i] == name);
        }
        if pairs.last().0@ == name {
            assert(names_of(pairs)[pairs.len() - 1] == name);
        }
    }
}

/// Where no name occurs twice, each pair's value is what the map binds its name to.
pub proof fn lemma_map_of_value(pairs: Seq<(String, String)>, i: int)
    requires
        names_of(pairs).no_duplicates(),
        0 <= i < pairs.len(),
    ensures
        map_of(pairs).contains_key(pairs[i].0@),
        map_of(pairs)[pairs[i].0@] == pairs[i].1@,
    decreases pairs.len(),
{
    let front = pairs.drop_last();
    if i < pairs.len() - 1 {
        assert forall|a: int, b: int|
            0 <= a < front.len() && 0 <= b < front.len() && a != b implies names_of(front)[a]
            != names_of(front)[b] by {
            assert(names_of(pairs)[a] != names_of(pairs)[b]);
        }
        lemma_map_of_value(front, i);
        assert(names_of(pairs)[i] != names_of(pairs)[pairs.len() - 1]);
    }
}

/// Form parameters: names are unique, order carries no meaning.
#[derive(Debug)]
pub struct Params {
    pairs: Vec<(String, String)>,
}

impl Params {
    #[verifier::type_invariant]
    spec fn distinct_names(&self) -> bool {
        names_of(self.pairs@).no_duplicates()
    }

    /// The parameters as a map from name to value.
    pub closed spec fn view(&self) -> Map<Seq<char>, Seq<char>> {
        map_of(self.pairs@)
    }

    /// No parameters at all.
    pub fn new() -> (params: Params)
        ensures
            params@ == Map::<Seq<char>, Seq<char>>::empty(),
    {
        Params { pairs: Vec::new() }
    }

    /// Binds `name` to `value`, replacing an earlier binding of `name`.
    pub fn insert(self, name: &str, value: &str) -> (params: Params)
        ensures
            params@ == self@.insert(name@, value@),
    {
        proof {
            use_type_invariant(&self);
        }
        let key = name.to_owned();
        let mut kept: Vec<(String, String)> = Vec::new();
        let mut pairs = self.pairs;
        let ghost before = pairs@;
        let mut i: usize = 0;
        while i < pairs.len()
            invariant
                i <= pairs.len(),
                pairs@ == before,
                key@ == name@,
                names_of(before).no_duplicates(),
                names_of(kept@).no_duplicates(),
                !names_of(kept@).contains(name@),
                forall|n: Seq<char>| #[trigger]
                    names_of(kept@).contains(n) ==> names_of(before.take(i as int)).contains(n),
                map_of(kept@) == map_of(before.take(i as int)).remove(name@),
            decreases pairs.len() - i,
        {
            let ghost front = before.take(i as int);
            let ghost next = before.take(i + 1);
            proof {
                assert(next.drop_last() =~= front);
                assert(next.last() == before[i as int]);
                assert forall|n: Seq<char>| names_of(front).contains(n) implies names_of(
                    next,
                ).contains(n) by {
                    let k = choose|k: int| 0 <= k < front.len() && names_of(front)[k] == n;
                    assert(names_of(next)[k] == n);
                }
                assert(names_of(next)[i as int] == before[i as int].0@);
            }
            if pairs[i].0 == key {
                proof {
                    assert(map_of(next).remove(name@) =~= map_of(front).remove(name@));
                }
            } else {
                let ghost old_kept = kept@;
                let entry = (pairs[i].0.clone(), pairs[i].1.clone());
                kept.push(entry);
                proof {
                    assert(kept@.drop_last() =~= old_kept);
                    assert(kept@.last().0@ == before[i as int].0@);
                    assert(kept@.last().1@ == before[i as int].1@);
                    assert(map_of(kept@) =~= map_of(next).remove(name@));
                    // The name just kept was not kept before: it occurs once in `before`.
                    if names_of(old_kept).contains(before[i as int].0@) {
                        let k = choose|k: int|
                            0 <= k < front.len() && names_of(front)[k] == before[i as int].0@;
                        assert(names_of(before)[k] == names_of(before)[i as int]);
                    }
                    assert forall|a: int, b: int|
                        0 <= a < kept@.len() && 0 <= b < kept@.len() && a != b implies names_of(
                        kept@,
                    )[a] != names_of(kept@)[b] by {
                        if a < old_kept.len() && b < old_kept.len() {
                            assert(names_of(old_kept)[a] != names_of(old_kept)[b]);
                        } else if a < old_kept.len() {
                            assert(names_of(old_kept)[a] == names_of(kept@)[a]);
                        } else {
                            assert(names_of(old_kept)[b] == names_of(kept@)[b]);
                        }
                    }
                    assert forall|n: Seq<char>| #[trigger]
                        names_of(kept@).contains(n) implies names_of(next).contains(n) by {
                        let k = choose|k: int| 0 <= k < kept@.len() && names_of(kept@)[k] == n;
                        if k < old_kept.len() {
                            assert(names_of(old_kept)[k] == n);
                            assert(names_of(old_kept).contains(n));
                            assert(names_of(front).contains(n));
                        } else {
                            assert(names_of(next)[i as int] == n);
                        }
                    }
                    if names_of(kept@).contains(name@) {
                        let k = choose|k: int|
                            0 <= k < kept@.len() && names_of(kept@)[k] == name@;
                        if k < old_kept.len() {
                            assert(names_of(old_kept)[k] == name@);
                        }
                    }
                }
            }
            i = i + 1;
        }
        let ghost rest = kept@;
        kept.push((key, value.to_owned()));
        proof {
            assert(before.take(before.len() as int) =~= before);
            assert(kept@.drop_last() =~= rest);
            assert(map_of(kept@) =~= map_of(before).insert(name@, value@));
            assert forall|a: int, b: int|
                0 <= a < kept@.len() && 0 <= b < kept@.len() && a != b implies names_of(kept@)[a]
                != names_of(kept@)[b] by {
                if a < rest.len() && b < rest.len() {
                    assert(names_of(rest)[a] != names_of(rest)[b]);
                } else if a < rest.len() {
                    assert(names_of(rest)[a] == names_of(kept@)[a]);
                } else {
                    assert(names_of(rest)[b] == names_of(kept@)[b]);
                }
            }
        }
        Params { pairs: kept }
    }

    /// The value bound to `name`, if any.
    pub fn get(&self, name: &str) -> (value: Option<&String>)
        ensures
            value is Some <==> self@.contains_key(name@),
            value matches Some(v) ==> v@ == self@[name@],
    {
        proof {
            use_type_invariant(self);
        }
        let key = name.to_owned();
        let mut i: usize = 0;
        while i < self.pairs.len()
            invariant
                i <= self.pairs.len(),
                key@ == name@,
                names_of(self.pairs@).no_duplicates(),
                forall|k: int| 0 <= k < i ==> self.pairs@[k].0@ != name@,
            decreases self.pairs.len() - i,
        {
            if self.pairs[i].0 == key {
                proof {
                    lemma_map_of_value(self.pairs@, i as int);
                }
                return Some(&self.pairs[i].1);
            }
            i = i + 1;
        }
        proof {
            lemma_map_of_domain(self.pairs@, name@);
            if names_of(self.pairs@).contains(name@) {
                let k = choose|k: int|
                    0 <= k < self.pairs@.len() && names_of(self.pairs@)[k] == name@;
                assert(self.pairs@[k].0@ == name@);
            }
        }
        None
    }

    /// The pairs themselves, for a transport to encode as a form body.
    pub fn entries(&self) -> (pairs: &Vec<(String, String)>)
        ensures
            names_of(pairs@).no_duplicates(),
            map_of(pairs@) == self@,
    {
        proof {
            use_type_invariant(self);
        }
        &self.pairs
    }
}

} // verus!
