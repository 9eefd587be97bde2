//! A small map from status tokens to values, in the order in which the
//! tokens were bound.

use vstd::prelude::*;
use vstd::string::*;
use crate::receiver::token_views;
use crate::text::same_text;

verus! {

/// Binds each of a list of distinct status tokens to a value.
#[derive(Debug)]
pub struct Binding<V> {
    names: Vec<String>,
    values: Vec<V>,
}

impl<V> Binding<V> {
    /// The bound tokens, in the order in which they were bound.
    pub closed spec fn names(&self) -> Seq<Seq<char>> {
        token_views(self.names@)
    }

    /// The values, each at the position of its token.
    pub closed spec fn values(&self) -> Seq<V> {
        self.values@
    }

    #[verifier::type_invariant]
    spec fn well_formed(self) -> bool {
        self.names@.len() == self.values@.len() && token_views(self.names@).no_duplicates()
    }

    /// The value bound to `name`, if it is bound.
    pub open spec fn lookup(&self, name: Seq<char>) -> Option<V> {
        if self.names().contains(name) {
            Some(self.values()[self.names().index_of(name)])
        } else {
            None
        }
    }

    /// A binding without tokens.
    pub fn new() -> (binding: Self)
        ensures
            binding.names() == Seq::<Seq<char>>::empty(),
            binding.values() == Seq::<V>::empty(),
    {
        let binding = Binding { names: Vec::new(), values: Vec::new() };
        binding
    }

    /// How many tokens are bound. No token is bound twice.
    pub fn len(&self) -> (len: usize)
        ensures
            len == self.names().len(),
            len == self.values().len(),
            self.names().no_duplicates(),
    {
        proof {
            use_type_invariant(self);
        }
        self.names.len()
    }

    /// Whether no token is bound.
    pub fn is_empty(&self) -> (empty: bool)
        ensures
            empty == (self.names().len() == 0),
    {
        self.names.len() == 0
    }

    fn position(&self, name: &str) -> (at: Option<usize>)
        ensures
            self.names().len() == self.values().len(),
            self.names().no_duplicates(),
            match at {
                Some(i) => i < self.names().len() && self.names()[i as int] == name@
                    && self.names().contains(name@) && self.names().index_of(name@) == i,
                None => !self.names().contains(name@),
            },
    {
        proof {
            use_type_invariant(self);
        }
        let mut i: usize = 0;
        while i < self.names.len()
            invariant
                i <= self.names.len(),
                self.names@.len() == self.values@.len(),
                token_views(self.names@).no_duplicates(),
                forall|j: int| 0 <= j < i ==> token_views(self.names@)[j] != name@,
            decreases self.names.len() - i,
        {
            if same_text(self.names[i].as_str(), name) {
                assert(token_views(self.names@)[i as int] == name@);
                return Some(i);
            }
            i += 1;
        }
        None
    }

    /// The value bound to `name`, if it is bound.
    pub fn get(&self, name: &str) -> (value: Option<&V>)
        ensures
            match value {
                Some(v) => self.lookup(name@) == Some(*v),
                None => self.lookup(name@) is None,
            },
    {
        match self.position(name) {
            Some(i) => Some(&self.values[i]),
            None => None,
        }
    }

    /// Whether `name` is bound.
    pub fn contains_key(&self, name: &str) -> (bound: bool)
        ensures
            bound == self.names().contains(name@),
    {
        self.position(name).is_some()
    }

    /// Binds `name` to `value` unless `name` is bound already, and says
    /// whether it did. A token that is bound keeps its value.
    pub fn insert_new(&mut self, name: String, value: V) -> (inserted: bool)
        ensures
            inserted == !old(self).names().contains(name@),
            inserted ==> final(self).names() == old(self).names().push(name@),
            inserted ==> final(self).values() == old(self).values().push(value),
            !inserted ==> final(self).names() == old(self).names(),
            !inserted ==> final(self).values() == old(self).values(),
            final(self).names().no_duplicates(),
            final(self).names().len() == final(self).values().len(),
    {
        proof {
            use_type_invariant(&*self);
        }
        if self.position(name.as_str()).is_some() {
            false
        } else {
            let ghost before = token_views(self.names@);
            let mut taken = Binding { names: Vec::new(), values: Vec::new() };
            core::mem::swap(self, &mut taken);
            let Binding { names: mut names, values: mut values } = taken;
            names.push(name);
            values.push(value);
            proof {
                assert(token_views(names@) =~= before.push(name@));
                assert forall|i: int, j: int|
                    0 <= i < before.len() + 1 && 0 <= j < before.len() + 1 && i != j implies before.push(
                    name@,
                )[i] != before.push(name@)[j] by {
                    if i < before.len() && j == before.len() {
                        assert(before.contains(before[i]));
                    }
                    if j < before.len() && i == before.len() {
                        assert(before.contains(before[j]));
                    }
                }
            }
            *self = Binding { names, values };
            true
        }
    }
}

} // verus!
