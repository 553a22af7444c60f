//! The full card list and the lookups built from it.
use vstd::prelude::*;
use vstd::hash_map::StringHashMap;
use std::collections::HashMap;

use crate::card::{Card, CardView};

verus! {

broadcast use vstd::std_specs::hash::group_hash_axioms;

/// `c` with its ASCII capital letters made small.
pub open spec fn ascii_lower_char(c: char) -> char {
    if 'A' <= c && c <= 'Z' {
        ((c as u32) + 32) as char
    } else {
        c
    }
}

/// `s` with every ASCII capital letter made small; other characters kept.
pub open spec fn ascii_lower(s: Seq<char>) -> Seq<char> {
    s.map_values(|c: char| ascii_lower_char(c))
}

/// Relies on `str::to_ascii_lowercase`: ASCII letters `A`..`Z` become
/// `a`..`z`, every other character is kept.
#[verifier::external_body]
fn to_ascii_lowercase(s: &str) -> (r: String)
    ensures
        r@ == ascii_lower(s@),
{
    s.to_ascii_lowercase()
}

/// The id lookup of `cards`: a later card with the same id replaces an
/// earlier one.
pub open spec fn id_index(cards: Seq<Card>) -> Map<u16, CardView>
    decreases cards.len(),
{
    if cards.len() == 0 {
        Map::empty()
    } else {
        let last = cards.last();
        id_index(cards.drop_last()).insert(last.id, last@)
    }
}

/// The name lookup of `cards`: each card under its name and under its
/// ASCII-lowercased name; a later card replaces an earlier one.
pub open spec fn name_index(cards: Seq<Card>) -> Map<Seq<char>, CardView>
    decreases cards.len(),
{
    if cards.len() == 0 {
        Map::empty()
    } else {
        let last = cards.last();
        name_index(cards.drop_last()).insert(last.name@, last@).insert(
            ascii_lower(last.name@),
            last@,
        )
    }
}

/// The base cards followed by the cards of the first expansion.
pub fn get_all_card_vec(base_cards: Vec<Card>, dominion_cards: Vec<Card>) -> (r: Vec<Card>)
    ensures
        r@ == base_cards@ + dominion_cards@,
{
    let mut all_cards = base_cards;
    let mut rest = dominion_cards;
    all_cards.append(&mut rest);
    all_cards
}

/// Every card of `cards` keyed by its id.
pub fn get_all_card_id_map(cards: &Vec<Card>) -> (r: HashMap<u16, Card>)
    ensures
        r@.dom() == id_index(cards@).dom(),
        forall|k: u16| #[trigger] r@.contains_key(k) ==> r@[k]@ == id_index(cards@)[k],
{
    let mut map: HashMap<u16, Card> = HashMap::new();
    let mut i: usize = 0;
    while i < cards.len()
        invariant
            0 <= i <= cards@.len(),
            map@.dom() == id_index(cards@.subrange(0, i as int)).dom(),
            forall|k: u16| #[trigger]
                map@.contains_key(k) ==> map@[k]@ == id_index(cards@.subrange(0, i as int))[k],
        decreases cards@.len() - i,
    {
        let card = cards[i].clone();
        let id = card.id;
        map.insert(id, card);
        proof {
            let next = cards@.subrange(0, i + 1);
            assert(next.drop_last() =~= cards@.subrange(0, i as int));
            assert(next.last() == cards@[i as int]);
            assert(map@.dom() =~= id_index(next).dom());
        }
        i += 1;
    }
    assert(cards@.subrange(0, cards@.len() as int) =~= cards@);
    map
}

/// Every card of `cards` keyed by its name and by its ASCII-lowercased name.
pub fn get_all_card_name_map(cards: &Vec<Card>) -> (r: StringHashMap<Card>)
    ensures
        r@.dom() == name_index(cards@).dom(),
        forall|k: Seq<char>| #[trigger] r@.contains_key(k) ==> r@[k]@ == name_index(cards@)[k],
{
    let mut map: StringHashMap<Card> = StringHashMap::new();
    let mut i: usize = 0;
    while i < cards.len()
        invariant
            0 <= i <= cards@.len(),
            map@.dom() == name_index(cards@.subrange(0, i as int)).dom(),
            forall|k: Seq<char>| #[trigger]
                map@.contains_key(k) ==> map@[k]@ == name_index(cards@.subrange(0, i as int))[k],
        decreases cards@.len() - i,
    {
        let card = &cards[i];
        let lower = to_ascii_lowercase(card.name.as_str());
        map.insert(card.name.clone(), card.clone());
        map.insert(lower, card.clone());
        proof {
            let next = cards@.subrange(0, i + 1);
            assert(next.drop_last() =~= cards@.subrange(0, i as int));
            assert(next.last() == cards@[i as int]);
            assert(map@.dom() =~= name_index(next).dom());
        }
        i += 1;
    }
    assert(cards@.subrange(0, cards@.len() as int) =~= cards@);
    map
}

} // verus!
