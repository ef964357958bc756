//! A finite map keyed by name, stored as a list of entries.

use vstd::prelude::*;

verus! {

/// The value that a list of entries binds to `name`: that of the last entry
/// with this name, so a later entry replaces an earlier one.
pub open spec fn bound_value<V>(entries: Seq<(String, V)>, name: Seq<char>) -> Option<V>
    decreases entries.len(),
{
    if entries.len() == 0 {
        None
    } else if entries.last().0@ == name {
        Some(entries.last().1)
    } else {
        bound_value(entries.drop_last(), name)
    }
}

/// A map from names to values. Its keys are unique by construction: the view
/// is a `Map`, and inserting under a name that is bound replaces the binding.
#[derive(Debug)]
pub struct NameMap<V> {
    entries: Vec<(String, V)>,
}

impl<V> View for NameMap<V> {
    type V = Map<Seq<char>, V>;

    closed spec fn view(&self) -> Map<Seq<char>, V> {
        Map::new(
            |name: Seq<char>| bound_value(self.entries@, name) is Some,
            |name: Seq<char>| bound_value(self.entries@, name)->0,
        )
    }
}

impl<V> NameMap<V> {
    /// The empty map.
    pub fn new() -> (res: Self)
        ensures
            res@ == Map::<Seq<char>, V>::empty(),
    {
        let res = NameMap { entries: Vec::new() };
        assert(res@ =~= Map::<Seq<char>, V>::empty());
        res
    }

    /// Binds `name` to `value`, replacing what `name` was bound to.
    pub fn insert(&mut self, name: String, value: V)
        ensures
            final(self)@ == old(self)@.insert(name@, value),
    {
        let ghost before = self.entries@;
        self.entries.push((name, value));
        proof {
            let after = self.entries@;
            assert(after.drop_last() =~= before);
            assert forall|k: Seq<char>| #[trigger] bound_value(after, k) == (if k == name@ {
                Some(value)
            } else {
                bound_value(before, k)
            }) by {}
            assert(self@ =~= old(self)@.insert(name@, value));
        }
    }

    /// The value bound to `name`, if there is one.
    pub fn get(&self, name: &String) -> (res: Option<&V>)
        ensures
            match res {
                Some(value) => self@.contains_key(name@) && *value == self@[name@],
                None => !self@.contains_key(name@),
            },
    {
        let mut i: usize = self.entries.len();
        assert(self.entries@.take(i as int) =~= self.entries@);
        while i > 0
            invariant
                i <= self.entries.len(),
                bound_value(self.entries@, name@) == bound_value(
                    self.entries@.take(i as int),
                    name@,
                ),
            decreases i,
        {
            i = i - 1;
            proof {
                let upto = self.entries@.take(i as int + 1);
                assert(upto.drop_last() =~= self.entries@.take(i as int));
                assert(upto.last() == self.entries@[i as int]);
            }
            if self.entries[i].0 == *name {
                return Some(&self.entries[i].1);
            }
        }
        None
    }

    /// Whether `name` is bound.
    pub fn contains(&self, name: &String) -> (res: bool)
        ensures
            res == self@.contains_key(name@),
    {
        self.get(name).is_some()
    }
}

} // verus!
