//! Where the artwork endpoints redirect to, decided from the card index.
use vstd::prelude::*;
use vstd::string::StringExecFns;

use crate::card::{Card, CardFilepath};
use crate::card_data::CardData;
use crate::naming::sanitized;

verus! {

broadcast use vstd::std_specs::hash::group_hash_axioms;

/// The redirect target for the artwork of card `id` in the index `cards`:
/// the requested edition, or else the card's last edition.
pub open spec fn art_location(cards: Map<u16, Card>, id: u16, edition: Option<u8>) -> Seq<char> {
    if !cards.contains_key(id) {
        "../../card/no_such_card_id"@
    } else {
        let card = cards[id];
        let wanted = match edition {
            Some(e) => e,
            None => if card.editions@.len() > 0 {
                card.editions@.last()
            } else {
                u8::MAX
            },
        };
        if card.editions@.contains(wanted) {
            "../../card/"@ + sanitized(card.name@, wanted) + ".jpeg"@
        } else {
            "../../card/no_such_edition"@
        }
    }
}

fn art_location_of(card: &Card, edition: u8) -> (r: String)
    ensures
        r@ == if card.editions@.contains(edition) {
            "../../card/"@ + sanitized(card.name@, edition) + ".jpeg"@
        } else {
            "../../card/no_such_edition"@
        },
{
    match card.get_art_file_name(edition) {
        Ok(name) => {
            let mut target = String::from_str("../../card/");
            target.append(name.as_str());
            target.append(".jpeg");
            target
        },
        Err(_) => String::from_str("../../card/no_such_edition"),
    }
}

/// The redirect target for the latest edition of card `id`'s artwork.
pub fn card_art_location(data: &CardData, id: u16) -> (r: String)
    ensures
        r@ == art_location(data.id_card_map@, id, None),
{
    match data.id_card_map.get(&id) {
        Some(card) => {
            let n = card.editions.len();
            let edition = if n > 0 {
                card.editions[n - 1]
            } else {
                u8::MAX
            };
            art_location_of(card, edition)
        },
        None => String::from_str("../../card/no_such_card_id"),
    }
}

/// The redirect target for edition `edition` of card `id`'s artwork.
pub fn card_art_location_for_edition(data: &CardData, id: u16, edition: u8) -> (r: String)
    ensures
        r@ == art_location(data.id_card_map@, id, Some(edition)),
{
    match data.id_card_map.get(&id) {
        Some(card) => art_location_of(card, edition),
        None => String::from_str("../../card/no_such_card_id"),
    }
}

} // verus!
