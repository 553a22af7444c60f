//! The compact set record: a set's name and how many editions it has.
use vstd::prelude::*;

verus! {

/// A set identified by id and name, with its number of editions.
#[derive(Debug, PartialEq, Eq)]
pub struct SetSummary {
    pub id: u8,
    pub name: String,
    pub editions: u8,
}

impl Clone for SetSummary {
    fn clone(&self) -> (r: Self)
        ensures
            r == *self,
    {
        SetSummary { id: self.id, name: self.name.clone(), editions: self.editions }
    }
}

} // verus!
