//! The discovered keys of a connection and their resolved types.
use vstd::prelude::*;
use vstd::string::*;
use crate::text::{contains_text, has_prefix, has_text, is_prefix_of, suffix_from, text_eq};
use crate::value::{key_type_of_name, KeyType};

verus! {

/// `k` lies directly under `prefix`: it starts with `prefix` and the rest holds
/// no separator.
pub open spec fn is_direct_child(k: Seq<char>, prefix: Seq<char>, sep: Seq<char>) -> bool {
    is_prefix_of(prefix, k) && !contains_text(k.subrange(prefix.len() as int, k.len() as int), sep)
}

/// The key map after the keys `ks` were discovered: new ones are `Unknown`,
/// known ones keep their type.
pub open spec fn with_discovered(m: Map<Seq<char>, KeyType>, ks: Seq<Seq<char>>) -> Map<
    Seq<char>,
    KeyType,
>
    decreases ks.len(),
{
    if ks.len() == 0 {
        m
    } else {
        let m1 = with_discovered(m, ks.drop_last());
        if m1.contains_key(ks.last()) {
            m1
        } else {
            m1.insert(ks.last(), KeyType::Unknown)
        }
    }
}

/// The key map after the classifications `rs` (key, type name) were merged in
/// order: a key that is known takes its type, any other is ignored.
pub open spec fn with_types(m: Map<Seq<char>, KeyType>, rs: Seq<(Seq<char>, Seq<char>)>) -> Map<
    Seq<char>,
    KeyType,
>
    decreases rs.len(),
{
    if rs.len() == 0 {
        m
    } else {
        let m1 = with_types(m, rs.drop_last());
        if m1.contains_key(rs.last().0) {
            m1.insert(rs.last().0, key_type_of_name(rs.last().1))
        } else {
            m1
        }
    }
}

/// The views of a sequence of strings.
pub open spec fn views(s: Seq<String>) -> Seq<Seq<char>> {
    s.map_values(|x: String| x@)
}

/// The views of a sequence of (key, type name) pairs.
pub open spec fn pair_views(s: Seq<(String, String)>) -> Seq<(Seq<char>, Seq<char>)> {
    s.map_values(|x: (String, String)| (x.0@, x.1@))
}

/// Keys with their types, each key once.
pub struct KeyStore {
    names: Vec<String>,
    types: Vec<KeyType>,
    contents: Ghost<Map<Seq<char>, KeyType>>,
}

impl View for KeyStore {
    type V = Map<Seq<char>, KeyType>;

    closed spec fn view(&self) -> Map<Seq<char>, KeyType> {
        self.contents@
    }
}

impl KeyStore {
    /// The stored lists describe the map: same length, distinct names, and the
    /// map holds exactly the names with their types.
    pub closed spec fn wf(&self) -> bool {
        &&& self.names@.len() == self.types@.len()
        &&& self.contents@.dom().finite()
        &&& self.contents@.dom().len() == self.names@.len()
        &&& forall|i: int, j: int|
            0 <= i < j < self.names@.len() ==> #[trigger] self.names@[i]@ != #[trigger] self.names@[j]@
        &&& forall|i: int|
            0 <= i < self.names@.len() ==> #[trigger] self.contents@.contains_key(self.names@[i]@)
                && self.contents@[self.names@[i]@] == self.types@[i]
        &&& forall|k: Seq<char>|
            #[trigger] self.contents@.contains_key(k) ==> exists|i: int|
                0 <= i < self.names@.len() && #[trigger] self.names@[i]@ == k
    }

    /// The keys in the order in which they are stored.
    pub closed spec fn order(&self) -> Seq<Seq<char>> {
        views(self.names@)
    }

    /// The map of a well-formed store is finite.
    pub proof fn lemma_finite(&self)
        requires
            self.wf(),
        ensures
            self@.dom().finite(),
    {
    }

    pub fn new() -> (r: KeyStore)
        ensures
            r.wf(),
            r@ == Map::<Seq<char>, KeyType>::empty(),
    {
        KeyStore { names: Vec::new(), types: Vec::new(), contents: Ghost(Map::empty()) }
    }

    /// The number of keys.
    pub fn len(&self) -> (r: usize)
        requires
            self.wf(),
        ensures
            r == self@.len(),
    {
        self.names.len()
    }

    fn position(&self, k: &str) -> (r: Option<usize>)
        requires
            self.wf(),
        ensures
            r is None ==> !self@.contains_key(k@),
            r is Some ==> r.unwrap() < self.names@.len() && self.names@[r.unwrap() as int]@
                == k@,
    {
        let mut i: usize = 0;
        while i < self.names.len()
            invariant
                self.wf(),
                i <= self.names@.len(),
                forall|j: int| 0 <= j < i ==> #[trigger] self.names@[j]@ != k@,
            decreases self.names@.len() - i,
        {
            if text_eq(self.names[i].as_str(), k) {
                return Some(i);
            }
            i = i + 1;
        }
        None
    }

    /// The type of `k`, if it is known.
    pub fn get(&self, k: &str) -> (r: Option<KeyType>)
        requires
            self.wf(),
        ensures
            r == (if self@.contains_key(k@) {
                Some(self@[k@])
            } else {
                None
            }),
    {
        match self.position(k) {
            Some(i) => Some(self.types[i]),
            None => None,
        }
    }

    /// All keys, each once.
    pub fn key_list(&self) -> (r: Vec<String>)
        requires
            self.wf(),
        ensures
            r@.len() == self@.len(),
            forall|i: int| 0 <= i < r@.len() ==> self@.contains_key(#[trigger] r@[i]@),
            forall|k: Seq<char>| #[trigger]
                self@.contains_key(k) ==> exists|i: int| 0 <= i < r@.len() && r@[i]@ == k,
            forall|i: int, j: int| 0 <= i < j < r@.len() ==> #[trigger] r@[i]@ != #[trigger] r@[j]@,
    {
        let r = self.names.clone();
        assert(forall|i: int| 0 <= i < r@.len() ==> #[trigger] r@[i] == self.names@[i]);
        r
    }

    /// Adds `k` with type `Unknown` if it is not known yet.
    pub fn discover(&mut self, k: String) -> (added: bool)
        requires
            old(self).wf(),
        ensures
            final(self).wf(),
            added == !old(self)@.contains_key(k@),
            final(self)@ == (if old(self)@.contains_key(k@) {
                old(self)@
            } else {
                old(self)@.insert(k@, KeyType::Unknown)
            }),
    {
        if self.position(k.as_str()).is_some() {
            return false;
        }
        let ghost kv = k@;
        let ghost old_names = self.names@;
        assert(!self.contents@.dom().contains(kv));
        self.names.push(k);
        self.types.push(KeyType::Unknown);
        self.contents = Ghost(self.contents@.insert(kv, KeyType::Unknown));
        assert(self.names@[old_names.len() as int]@ == kv);
        assert forall|i: int| 0 <= i < self.names@.len() implies #[trigger] self.contents@.contains_key(
            self.names@[i]@,
        ) && self.contents@[self.names@[i]@] == self.types@[i] by {
            if i < old_names.len() {
                assert(self.names@[i] == old_names[i]);
            }
        }
        assert forall|k2: Seq<char>| #[trigger] self.contents@.contains_key(k2) implies exists|i: int|
            0 <= i < self.names@.len() && #[trigger] self.names@[i]@ == k2 by {
            if k2 != kv {
                let i = choose|i: int| 0 <= i < old_names.len() && #[trigger] old_names[i]@ == k2;
                assert(self.names@[i] == old_names[i]);
            } else {
                assert(self.names@[old_names.len() as int]@ == k2);
            }
        }
        true
    }

    /// Adds each of `ks` that is not known yet, with type `Unknown`.
    /// Tells whether any key was new.
    pub fn discover_all(&mut self, ks: Vec<String>) -> (changed: bool)
        requires
            old(self).wf(),
        ensures
            final(self).wf(),
            final(self)@ == with_discovered(old(self)@, views(ks@)),
            changed == (final(self)@ != old(self)@),
    {
        let ghost m0 = self@;
        let mut changed = false;
        let mut i: usize = 0;
        while i < ks.len()
            invariant
                self.wf(),
                i <= ks@.len(),
                self@ == with_discovered(m0, views(ks@.subrange(0, i as int))),
                changed == (self@ != m0),
                forall|k: Seq<char>| #[trigger] m0.contains_key(k) ==> self@.contains_key(k) && self@[k] == m0[k],
            decreases ks@.len() - i,
        {
            let k = ks[i].clone();
            let ghost before = self@;
            let added = self.discover(k);
            if added {
                changed = true;
                assert(self@.contains_key(ks@[i as int]@));
                assert(!m0.contains_key(ks@[i as int]@));
            }
            proof {
                let s1 = views(ks@.subrange(0, i + 1));
                assert(s1.drop_last() =~= views(ks@.subrange(0, i as int)));
                assert(s1.last() == ks@[i as int]@);
            }
            i = i + 1;
        }
        assert(ks@.subrange(0, ks@.len() as int) =~= ks@);
        changed
    }

    /// Sets the type of `k` if it is known; tells whether anything changed.
    pub fn set_type(&mut self, k: &str, t: KeyType) -> (changed: bool)
        requires
            old(self).wf(),
        ensures
            final(self).wf(),
            final(self)@ == (if old(self)@.contains_key(k@) {
                old(self)@.insert(k@, t)
            } else {
                old(self)@
            }),
            changed == (old(self)@.contains_key(k@) && old(self)@[k@] != t),
            final(self).order() == old(self).order(),
    {
        match self.position(k) {
            None => false,
            Some(i) => {
                let before = self.types[i];
                let ghost old_names = self.names@;
                let ghost old_types = self.types@;
                self.types.set(i, t);
                self.contents = Ghost(self.contents@.insert(k@, t));
                assert forall|j: int| 0 <= j < self.names@.len() implies #[trigger] self.contents@.contains_key(
                    self.names@[j]@,
                ) && self.contents@[self.names@[j]@] == self.types@[j] by {
                    assert(old(self).contents@.contains_key(old_names[j]@));
                    if j != i {
                        assert(old_names[j]@ != old_names[i as int]@);
                        assert(self.types@[j] == old_types[j]);
                    }
                }
                assert(self.contents@.dom() =~= old(self).contents@.dom());
                if before == t {
                    assert(self.contents@ =~= old(self).contents@);
                }
                before != t
            },
        }
    }

    /// Merges the classifications `rs` in order; tells whether the map changed.
    pub fn merge_types(&mut self, rs: &Vec<(String, String)>) -> (changed: bool)
        requires
            old(self).wf(),
        ensures
            final(self).wf(),
            final(self)@ == with_types(old(self)@, pair_views(rs@)),
            changed == (final(self)@ != old(self)@),
    {
        let ghost m0 = self@;
        let before = self.types.clone();
        let mut i: usize = 0;
        while i < rs.len()
            invariant
                self.wf(),
                i <= rs@.len(),
                self.order() == old(self).order(),
                self@ == with_types(m0, pair_views(rs@.subrange(0, i as int))),
            decreases rs@.len() - i,
        {
            let t = KeyType::from_name(rs[i].1.as_str());
            self.set_type(rs[i].0.as_str(), t);
            proof {
                let s1 = pair_views(rs@.subrange(0, i + 1));
                assert(s1.drop_last() =~= pair_views(rs@.subrange(0, i as int)));
                assert(s1.last() == (rs@[i as int].0@, rs@[i as int].1@));
            }
            i = i + 1;
        }
        assert(rs@.subrange(0, rs@.len() as int) =~= rs@);
        assert(self.order().len() == old(self).order().len());
        let mut j: usize = 0;
        while j < before.len()
            invariant
                self.wf(),
                old(self).wf(),
                self.order() == old(self).order(),
                before@ == old(self).types@,
                self.types@.len() == before@.len(),
                self@ == with_types(m0, pair_views(rs@)),
                m0 == old(self)@,
                j <= before@.len(),
                forall|l: int| 0 <= l < j ==> before@[l] == self.types@[l],
            decreases before@.len() - j,
        {
            if before[j] != self.types[j] {
                proof {
                    let k = self.names@[j as int]@;
                    assert(self.order()[j as int] == k);
                    assert(old(self).names@[j as int]@ == k);
                    assert(self.contents@.contains_key(self.names@[j as int]@));
                    assert(old(self).contents@.contains_key(old(self).names@[j as int]@));
                    assert(self@[k] != old(self)@[k]);
                }
                return true;
            }
            j = j + 1;
        }
        proof {
            assert forall|k: Seq<char>| #[trigger] self@.contains_key(k) == old(self)@.contains_key(k) by {
                if self@.contains_key(k) {
                    let l = choose|l: int| 0 <= l < self.names@.len() && #[trigger] self.names@[l]@ == k;
                    assert(self.order()[l] == k);
                    assert(old(self).names@[l]@ == k);
                }
                if old(self)@.contains_key(k) {
                    let l = choose|l: int| 0 <= l < old(self).names@.len() && #[trigger] old(self).names@[l]@ == k;
                    assert(old(self).order()[l] == k);
                    assert(self.names@[l]@ == k);
                }
            }
            assert forall|k: Seq<char>| #[trigger] self@.contains_key(k) implies self@[k] == old(self)@[k] by {
                let l = choose|l: int| 0 <= l < self.names@.len() && #[trigger] self.names@[l]@ == k;
                assert(self.order()[l] == k);
                assert(old(self).names@[l]@ == k);
            }
            assert(self@ =~= old(self)@);
        }
        false
    }

    /// Removes `k`; tells whether it was there.
    pub fn remove(&mut self, k: &str) -> (removed: bool)
        requires
            old(self).wf(),
        ensures
            final(self).wf(),
            final(self)@ == old(self)@.remove(k@),
            removed == old(self)@.contains_key(k@),
    {
        match self.position(k) {
            None => {
                assert(self.contents@.remove(k@) =~= self.contents@);
                false
            },
            Some(i) => {
                let ghost old_names = self.names@;
                let ghost old_types = self.types@;
                self.names.remove(i);
                self.types.remove(i);
                self.contents = Ghost(self.contents@.remove(k@));
                assert forall|a: int, b: int|
                    0 <= a < b < self.names@.len() implies #[trigger] self.names@[a]@
                    != #[trigger] self.names@[b]@ by {
                    let a0 = if a < i { a } else { a + 1 };
                    let b0 = if b < i { b } else { b + 1 };
                    assert(self.names@[a] == old_names[a0]);
                    assert(self.names@[b] == old_names[b0]);
                }
                assert forall|j: int| 0 <= j < self.names@.len() implies #[trigger] self.contents@.contains_key(
                    self.names@[j]@,
                ) && self.contents@[self.names@[j]@] == self.types@[j] by {
                    let j0 = if j < i { j } else { j + 1 };
                    assert(self.names@[j] == old_names[j0]);
                    assert(self.types@[j] == old_types[j0]);
                    assert(old(self).contents@.contains_key(old_names[j0]@));
                    assert(old_names[j0]@ != old_names[i as int]@);
                }
                assert forall|k2: Seq<char>| #[trigger] self.contents@.contains_key(k2) implies exists|
                    j: int,
                | 0 <= j < self.names@.len() && #[trigger] self.names@[j]@ == k2 by {
                    let j0 = choose|j0: int| 0 <= j0 < old_names.len() && #[trigger] old_names[j0]@ == k2;
                    assert(j0 != i);
                    let j = if j0 < i { j0 } else { j0 - 1 };
                    assert(self.names@[j] == old_names[j0]);
                }
                true
            },
        }
    }

    /// The keys of type `Unknown` that lie directly under `prefix`.
    pub fn unknown_children(&self, prefix: &str, sep: &str) -> (r: Vec<String>)
        requires
            self.wf(),
        ensures
            forall|i: int|
                0 <= i < r@.len() ==> self@.contains_key(#[trigger] r@[i]@) && self@[r@[i]@]
                    == KeyType::Unknown && is_direct_child(r@[i]@, prefix@, sep@),
            forall|k: Seq<char>|
                #[trigger] self@.contains_key(k) && self@[k] == KeyType::Unknown && is_direct_child(
                    k,
                    prefix@,
                    sep@,
                ) ==> exists|i: int| 0 <= i < r@.len() && r@[i]@ == k,
            forall|a: int, b: int| 0 <= a < b < r@.len() ==> #[trigger] r@[a]@ != #[trigger] r@[b]@,
    {
        let mut out: Vec<String> = Vec::new();
        let mut i: usize = 0;
        while i < self.names.len()
            invariant
                self.wf(),
                i <= self.names@.len(),
                forall|j: int|
                    0 <= j < out@.len() ==> self@.contains_key(#[trigger] out@[j]@) && self@[out@[j]@]
                        == KeyType::Unknown && is_direct_child(out@[j]@, prefix@, sep@),
                forall|j: int|
                    0 <= j < i && self.types@[j] == KeyType::Unknown && is_direct_child(
                        #[trigger] self.names@[j]@,
                        prefix@,
                        sep@,
                    ) ==> exists|l: int| 0 <= l < out@.len() && out@[l]@ == self.names@[j]@,
                forall|a: int| 0 <= a < out@.len() ==> exists|j: int| 0 <= j < i && #[trigger] out@[a]@ == self.names@[j]@,
                forall|a: int, b: int| 0 <= a < b < out@.len() ==> #[trigger] out@[a]@ != #[trigger] out@[b]@,
            decreases self.names@.len() - i,
        {
            let name = &self.names[i];
            let ghost out0 = out@;
            if self.types[i] == KeyType::Unknown && has_prefix(name.as_str(), prefix) {
                let rest = suffix_from(name.as_str(), prefix.unicode_len());
                if !has_text(rest.as_str(), sep) {
                    proof {
                        assert forall|a: int| 0 <= a < out0.len() implies #[trigger] out0[a]@
                            != self.names@[i as int]@ by {
                            let j = choose|j: int| 0 <= j < i && #[trigger] out0[a]@ == self.names@[j]@;
                            assert(self.names@[j]@ != self.names@[i as int]@);
                        }
                    }
                    out.push(name.clone());
                    assert(out@[out@.len() - 1]@ == self.names@[i as int]@);
                }
            }
            proof {
                assert(self@.contains_key(self.names@[i as int]@));
                assert forall|j: int| 0 <= j < out@.len() implies self@.contains_key(
                    #[trigger] out@[j]@,
                ) && self@[out@[j]@] == KeyType::Unknown && is_direct_child(out@[j]@, prefix@, sep@) by {
                    if j < out0.len() {
                        assert(out@[j] == out0[j]);
                    }
                }
                assert forall|j: int|
                    0 <= j < i + 1 && self.types@[j] == KeyType::Unknown && is_direct_child(
                        #[trigger] self.names@[j]@,
                        prefix@,
                        sep@,
                    ) implies exists|l: int| 0 <= l < out@.len() && out@[l]@ == self.names@[j]@ by {
                    if j < i {
                        let l = choose|l: int| 0 <= l < out0.len() && out0[l]@ == self.names@[j]@;
                        assert(out@[l] == out0[l]);
                    } else {
                        assert(out@[out@.len() - 1]@ == self.names@[i as int]@);
                    }
                }
                assert forall|a: int| 0 <= a < out@.len() implies exists|j: int|
                    0 <= j < i + 1 && #[trigger] out@[a]@ == self.names@[j]@ by {
                    if a < out0.len() {
                        assert(out@[a] == out0[a]);
                        let j = choose|j: int| 0 <= j < i && #[trigger] out0[a]@ == self.names@[j]@;
                        assert(out@[a]@ == self.names@[j]@);
                    } else {
                        assert(out@[a]@ == self.names@[i as int]@);
                    }
                }
                assert forall|a: int, b: int| 0 <= a < b < out@.len() implies #[trigger] out@[a]@
                    != #[trigger] out@[b]@ by {
                    if b < out0.len() {
                        assert(out@[a] == out0[a]);
                        assert(out@[b] == out0[b]);
                    } else {
                        assert(out@[a] == out0[a]);
                    }
                }
            }
            i = i + 1;
        }
        proof {
            assert forall|k: Seq<char>|
                #[trigger] self@.contains_key(k) && self@[k] == KeyType::Unknown && is_direct_child(
                    k,
                    prefix@,
                    sep@,
                ) implies exists|i: int| 0 <= i < out@.len() && out@[i]@ == k by {
                let j = choose|j: int| 0 <= j < self.names@.len() && #[trigger] self.names@[j]@ == k;
                assert(self.types@[j] == KeyType::Unknown);
            }
        }
        out
    }
}

} // verus!
