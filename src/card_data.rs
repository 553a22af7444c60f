//! The read-only card index that the query layer serves from.
use vstd::prelude::*;
use vstd::hash_map::StringHashMap;
use std::collections::HashMap;

use crate::card::Card;
use crate::catalog::{get_all_card_id_map, get_all_card_name_map, id_index, name_index};

verus! {

/// Cards by id, and by name and lowercased name. Built once, never changed.
pub struct CardData {
    pub id_card_map: HashMap<u16, Card>,
    pub name_card_map: StringHashMap<Card>,
}

/// Builds both lookups of `cards`.
pub fn build_card_data(cards: &Vec<Card>) -> (r: CardData)
    ensures
        r.id_card_map@.dom() == id_index(cards@).dom(),
        forall|k: u16| #[trigger]
            r.id_card_map@.contains_key(k) ==> r.id_card_map@[k]@ == id_index(cards@)[k],
        r.name_card_map@.dom() == name_index(cards@).dom(),
        forall|k: Seq<char>| #[trigger]
            r.name_card_map@.contains_key(k) ==> r.name_card_map@[k]@ == name_index(cards@)[k],
{
    CardData {
        id_card_map: get_all_card_id_map(cards),
        name_card_map: get_all_card_name_map(cards),
    }
}

} // verus!
