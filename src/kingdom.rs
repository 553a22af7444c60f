//! The cards chosen for one game.
use vstd::prelude::*;

use crate::card::copy_vec;

verus! {

/// The supply and basic cards, by id, selected for a single game setup.
#[derive(Debug, PartialEq, Eq)]
pub struct Kingdom {
    pub supply_card_ids: Vec<u16>,
    pub basic_card_ids: Vec<u16>,
}

impl Clone for Kingdom {
    fn clone(&self) -> (r: Self)
        ensures
            r.supply_card_ids@ == self.supply_card_ids@,
            r.basic_card_ids@ == self.basic_card_ids@,
    {
        Kingdom {
            supply_card_ids: copy_vec(&self.supply_card_ids),
            basic_card_ids: copy_vec(&self.basic_card_ids),
        }
    }
}

} // verus!
