//! Named device attributes offered to a message template.

use vstd::prelude::*;

verus! {

/// A mapping from attribute names to values.
///
/// Entries are kept in insertion order; a later entry for a name replaces an
/// earlier one.
#[derive(Debug, Clone)]
pub struct Attributes {
    entries: Vec<(String, String)>,
}

/// The mapping that a list of entries stands for: the last entry of a name
/// gives its value.
pub closed spec fn mapping_of(entries: Seq<(String, String)>) -> Map<Seq<char>, Seq<char>>
    decreases entries.len(),
{
    if entries.len() == 0 {
        Map::empty()
    } else {
        mapping_of(entries.drop_last()).insert(entries.last().0@, entries.last().1@)
    }
}

impl View for Attributes {
    type V = Map<Seq<char>, Seq<char>>;

    closed spec fn view(&self) -> Map<Seq<char>, Seq<char>> {
        mapping_of(self.entries@)
    }
}

impl Attributes {
    /// A mapping without entries.
    pub fn new() -> (attributes: Self)
        ensures
            attributes@ == Map::<Seq<char>, Seq<char>>::empty(),
    {
        Attributes { entries: Vec::new() }
    }

    /// Binds `name` to `value`, replacing what `name` was bound to.
    pub fn insert(&mut self, name: &str, value: &str)
        ensures
            final(self)@ == old(self)@.insert(name@, value@),
    {
        let entry = (String::from_str(name), String::from_str(value));
        proof {
            assert(self.entries@.push(entry).drop_last() =~= self.entries@);
        }
        self.entries.push(entry);
    }

    /// The value bound to `name`, if there is one.
    pub fn get(&self, name: &str) -> (value: Option<&str>)
        ensures
            value is Some <==> self@.contains_key(name@),
            value matches Some(text) ==> text@ == self@[name@],
    {
        let key = String::from_str(name);
        let mut i: usize = self.entries.len();
        proof {
            assert(self.entries@.take(i as int) =~= self.entries@);
        }
        while i > 0
            invariant
                i <= self.entries.len(),
                key@ == name@,
                mapping_of(self.entries@).contains_key(name@) <==> mapping_of(
                    self.entries@.take(i as int),
                ).contains_key(name@),
                mapping_of(self.entries@).contains_key(name@) ==> mapping_of(self.entries@)[name@]
                    == mapping_of(self.entries@.take(i as int))[name@],
            decreases i,
        {
            proof {
                assert(self.entries@.take(i as int).drop_last() =~= self.entries@.take(i - 1));
            }
            i = i - 1;
            let entry = &self.entries[i];
            if entry.0 == key {
                return Some(entry.1.as_str());
            }
        }
        None
    }
}

} // verus!
