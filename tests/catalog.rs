use dominion_league::card::Card;
use dominion_league::card_data::build_card_data;
use dominion_league::card_tag::CardTag;
use dominion_league::card_type::CardType;
use dominion_league::catalog::{get_all_card_id_map, get_all_card_name_map, get_all_card_vec};

fn card(id: u16, name: &str, editions: Vec<u8>) -> Card {
    let art_url = editions.iter().map(|e| format!("https://example.org/{}/{}.jpg", id, e)).collect();
    Card {
        id,
        name: name.to_string(),
        supply_card: id >= 100,
        basic_card: id < 100,
        card_counts: [10, 10, 10, 10, 10],
        set_id: if id < 100 { 0 } else { 1 },
        editions,
        card_tags: vec![CardTag::Costs2],
        kingdom_requirements: vec![],
        kingdom_synergies: vec![vec![CardTag::CanGainAction]],
        kingdom_anti_synergies: vec![],
        card_types: vec![CardType::Treasure],
        art_url,
    }
}

fn get_base_card_vec() -> Vec<Card> {
    vec![card(0, "Copper", vec![1, 2]), card(1, "Silver", vec![1, 2]), card(2, "Gold", vec![1])]
}

fn get_dominion_card_vec() -> Vec<Card> {
    vec![card(100, "Chapel", vec![1, 2]), card(101, "Throne Room", vec![1, 2])]
}

fn all_cards() -> Vec<Card> {
    get_all_card_vec(get_base_card_vec(), get_dominion_card_vec())
}

#[test]
fn test_get_all_card_vec() {
    let all_cards = all_cards();
    let base_cards = get_base_card_vec();
    let dominion_cards = get_dominion_card_vec();

    assert_eq!(all_cards.len(), base_cards.len() + dominion_cards.len());
    assert_eq!(all_cards[0], base_cards[0]);
    assert_eq!(all_cards[base_cards.len()], dominion_cards[0]);
}

#[test]
fn test_get_all_card_id_map() {
    let card_map = get_all_card_id_map(&all_cards());
    for card in all_cards().iter() {
        assert_eq!(card, &card_map[&card.id]);
    }
}

#[test]
fn test_get_all_card_name_map() {
    let card_map = get_all_card_name_map(&all_cards());
    for card in all_cards().iter() {
        assert_eq!(card, card_map.get(&card.name).unwrap());
    }
}

#[test]
fn test_get_all_card_name_map_has_lower_case() {
    let card_map = get_all_card_name_map(&all_cards());
    for card in all_cards().iter() {
        assert_eq!(card, card_map.get(&card.name.to_ascii_lowercase()).unwrap());
    }
}

#[test]
fn test_card_id_map() {
    let card_data = build_card_data(&all_cards());
    for card in all_cards().iter() {
        assert_eq!(card, &card_data.id_card_map[&card.id]);
    }
}

#[test]
fn test_card_name_map() {
    let card_data = build_card_data(&all_cards());
    for card in all_cards().iter() {
        assert_eq!(card, card_data.name_card_map.get(&card.name).unwrap());
        assert_eq!(card, card_data.name_card_map.get(&card.name.to_ascii_lowercase()).unwrap());
    }
}

#[test]
fn name_map_lowercases_only_ascii_capitals() {
    let cards = vec![card(7, "Throne Room", vec![1])];
    let card_map = get_all_card_name_map(&cards);
    assert!(card_map.get("throne room").is_some());
    assert!(card_map.get("Throne Room").is_some());
    assert!(card_map.get("THRONE ROOM").is_none());
    assert_eq!(card_map.len(), 2);
}

#[test]
fn id_map_keeps_the_later_card_of_a_repeated_id() {
    let cards = vec![card(5, "First", vec![1]), card(5, "Second", vec![1])];
    let card_map = get_all_card_id_map(&cards);
    assert_eq!(card_map.len(), 1);
    assert_eq!(card_map[&5].name, "Second");
}

#[test]
fn empty_catalog_gives_empty_maps() {
    let card_data = build_card_data(&vec![]);
    assert!(card_data.id_card_map.is_empty());
    assert!(card_data.name_card_map.is_empty());
}
