//! Named strings, one for each name.
use crate::request::pairs_view;
use vstd::prelude::*;
use vstd::std_specs::cmp::PartialEqSpecImpl;

verus! {

/// Whether no name occurs twice among the pairs.
pub open spec fn distinct_names(pairs: Seq<(Seq<char>, Seq<char>)>) -> bool {
    forall|i: int, j: int| 0 <= i < j < pairs.len() ==> pairs[i].0 != pairs[j].0
}

/// Whether the name occurs among the pairs.
pub open spec fn has_name(pairs: Seq<(Seq<char>, Seq<char>)>, name: Seq<char>) -> bool {
    exists|i: int| 0 <= i < pairs.len() && (#[trigger] pairs[i]).0 == name
}

/// The place of the name among the pairs, where it occurs.
pub open spec fn place_of(pairs: Seq<(Seq<char>, Seq<char>)>, name: Seq<char>) -> int {
    choose|i: int| 0 <= i < pairs.len() && (#[trigger] pairs[i]).0 == name
}

/// The pairs once the name has been given the value: in its old place where
/// the name occurred, at the end where it did not.
pub open spec fn with_pair(
    pairs: Seq<(Seq<char>, Seq<char>)>,
    name: Seq<char>,
    value: Seq<char>,
) -> Seq<(Seq<char>, Seq<char>)> {
    if has_name(pairs, name) {
        pairs.update(place_of(pairs, name), (name, value))
    } else {
        pairs.push((name, value))
    }
}

/// Whether each pair of either sequence occurs in the other.
pub open spec fn same_pairs(
    left: Seq<(Seq<char>, Seq<char>)>,
    right: Seq<(Seq<char>, Seq<char>)>,
) -> bool {
    &&& forall|i: int| 0 <= i < left.len() ==> right.contains(#[trigger] left[i])
    &&& forall|j: int| 0 <= j < right.len() ==> left.contains(#[trigger] right[j])
}

/// A mapping from names to strings that keeps the order in which the names
/// were first inserted. No name occurs twice. Two mappings are equal where
/// they give the same names the same values, in whatever order.
#[derive(Debug, Eq)]
pub struct Attributes {
    entries: Vec<(String, String)>,
}

impl View for Attributes {
    type V = Seq<(Seq<char>, Seq<char>)>;

    closed spec fn view(&self) -> Seq<(Seq<char>, Seq<char>)> {
        pairs_view(self.entries@)
    }
}

impl Attributes {
    #[verifier::type_invariant]
    spec fn names_are_distinct(&self) -> bool {
        distinct_names(self@)
    }

    /// The empty mapping.
    pub fn new() -> (attributes: Attributes)
        ensures
            attributes@ == Seq::<(Seq<char>, Seq<char>)>::empty(),
    {
        let attributes = Attributes { entries: Vec::new() };
        assert(attributes@ =~= Seq::<(Seq<char>, Seq<char>)>::empty());
        attributes
    }

    /// The number of names.
    pub fn len(&self) -> (n: usize)
        ensures
            n == self@.len(),
    {
        self.entries.len()
    }

    /// Whether there is no name.
    pub fn is_empty(&self) -> (empty: bool)
        ensures
            empty == (self@.len() == 0),
    {
        self.entries.len() == 0
    }

    /// The pairs, in order. No name occurs twice among them.
    pub fn pairs(&self) -> (pairs: &Vec<(String, String)>)
        ensures
            pairs_view(pairs@) == self@,
            distinct_names(self@),
    {
        proof {
            use_type_invariant(self);
        }
        &self.entries
    }

    /// Whether the name has the value.
    pub fn holds(&self, name: &str, value: &str) -> (found: bool)
        ensures
            found == self@.contains((name@, value@)),
    {
        let wanted_name = name.to_owned();
        let wanted_value = value.to_owned();
        let mut i: usize = 0;
        while i < self.entries.len()
            invariant
                i <= self.entries.len(),
                wanted_name@ == name@,
                wanted_value@ == value@,
                self@ == pairs_view(self.entries@),
                forall|k: int| 0 <= k < i ==> (#[trigger] self@[k]) != (name@, value@),
            decreases self.entries.len() - i,
        {
            if self.entries[i].0 == wanted_name && self.entries[i].1 == wanted_value {
                assert(self@[i as int] == (name@, value@));
                return true;
            }
            i += 1;
        }
        false
    }

    /// Whether each pair of this mapping occurs in the other.
    fn within(&self, other: &Attributes) -> (all: bool)
        ensures
            all == forall|i: int| 0 <= i < self@.len() ==> other@.contains(#[trigger] self@[i]),
    {
        let mut i: usize = 0;
        while i < self.entries.len()
            invariant
                i <= self.entries.len(),
                self@ == pairs_view(self.entries@),
                forall|k: int| 0 <= k < i ==> other@.contains(#[trigger] self@[k]),
            decreases self.entries.len() - i,
        {
            if !other.holds(self.entries[i].0.as_str(), self.entries[i].1.as_str()) {
                assert(!other@.contains(self@[i as int]));
                return false;
            }
            i += 1;
        }
        true
    }

    /// The value of a name, where the name occurs.
    pub fn get(&self, name: &str) -> (found: Option<&String>)
        ensures
            match found {
                Some(value) => has_name(self@, name@) && self@[place_of(self@, name@)].1 == value@,
                None => !has_name(self@, name@),
            },
    {
        proof {
            use_type_invariant(self);
        }
        let wanted = name.to_owned();
        let mut i: usize = 0;
        while i < self.entries.len()
            invariant
                i <= self.entries.len(),
                wanted@ == name@,
                self@ == pairs_view(self.entries@),
                distinct_names(self@),
                forall|k: int| 0 <= k < i ==> (#[trigger] self@[k]).0 != name@,
            decreases self.entries.len() - i,
        {
            if self.entries[i].0 == wanted {
                proof {
                    assert(self@[i as int].0 == name@);
                    let p = place_of(self@, name@);
                    assert(self@[p].0 == name@);
                    assert(p == i);
                }
                return Some(&self.entries[i].1);
            }
            i += 1;
        }
        None
    }

    /// Gives a name a value. Where the name had a value, that value is
    /// replaced in its place and returned; otherwise the pair is added at the
    /// end.
    pub fn insert(&mut self, name: String, value: String) -> (replaced: Option<String>)
        ensures
            final(self)@ == with_pair(old(self)@, name@, value@),
            distinct_names(old(self)@),
            distinct_names(final(self)@),
            match replaced {
                Some(before) => has_name(old(self)@, name@) && old(self)@[place_of(
                    old(self)@,
                    name@,
                )].1 == before@,
                None => !has_name(old(self)@, name@),
            },
    {
        proof {
            use_type_invariant(&*self);
        }
        let mut place: Option<usize> = None;
        let mut i: usize = 0;
        while i < self.entries.len() && place.is_none()
            invariant
                i <= self.entries.len(),
                *self == *old(self),
                self@ == pairs_view(self.entries@),
                match place {
                    Some(p) => p < self.entries.len() && self@[p as int].0 == name@,
                    None => forall|k: int| 0 <= k < i ==> (#[trigger] self@[k]).0 != name@,
                },
            decreases self.entries.len() - i + if place is None { 1nat } else { 0nat },
        {
            if self.entries[i].0 == name {
                place = Some(i);
            } else {
                i += 1;
            }
        }
        let ghost earlier = self@;
        let mut entries: Vec<(String, String)> = Vec::new();
        core::mem::swap(&mut self.entries, &mut entries);
        let replaced = match place {
            Some(p) => {
                proof {
                    let chosen = place_of(earlier, name@);
                    assert(earlier[chosen].0 == name@);
                    assert(earlier[p as int].0 == name@);
                    assert(chosen == p);
                }
                let before = entries[p].1.clone();
                entries.set(p, (name, value));
                proof {
                    assert(pairs_view(entries@) =~= earlier.update(p as int, (name@, value@)));
                }
                Some(before)
            },
            None => {
                entries.push((name, value));
                proof {
                    assert(pairs_view(entries@) =~= earlier.push((name@, value@)));
                }
                None
            },
        };
        self.entries = entries;
        replaced
    }
}

impl PartialEq for Attributes {
    fn eq(&self, other: &Attributes) -> (same: bool) {
        self.within(other) && other.within(self)
    }
}

impl PartialEqSpecImpl for Attributes {
    open spec fn obeys_eq_spec() -> bool {
        true
    }

    open spec fn eq_spec(&self, other: &Attributes) -> bool {
        same_pairs(self@, other@)
    }
}

impl Clone for Attributes {
    fn clone(&self) -> (copy: Attributes)
        ensures
            copy@ == self@,
    {
        proof {
            use_type_invariant(self);
        }
        let mut entries: Vec<(String, String)> = Vec::new();
        let mut i: usize = 0;
        while i < self.entries.len()
            invariant
                i <= self.entries.len(),
                entries.len() == i,
                forall|k: int|
                    0 <= k < i ==> entries[k].0@ == self.entries[k].0@ && entries[k].1@
                        == self.entries[k].1@,
            decreases self.entries.len() - i,
        {
            entries.push((self.entries[i].0.clone(), self.entries[i].1.clone()));
            i += 1;
        }
        assert(pairs_view(entries@) =~= self@);
        Attributes { entries }
    }
}

} // verus!
