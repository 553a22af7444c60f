use dominion_league::error::AssetError;
use dominion_league::paths::{contains_edition, resolve_asset_path, AssetKind};

#[test]
fn card_art_of_copper_lands_in_cards() {
    let path = resolve_asset_path("/data", "Copper", &vec![1, 2], 1, AssetKind::CardArt).unwrap();
    assert!(path.ends_with("cards/Copper_1.jpeg"));
    assert_eq!(path, "/data/cards/Copper_1.jpeg");
}

#[test]
fn set_assets_land_in_the_set_directory() {
    let eds = vec![2, 3];
    assert_eq!(
        resolve_asset_path("/r", "Base Set", &eds, 3, AssetKind::SetCover).unwrap(),
        "/r/Base-Set_3/cover.png"
    );
    assert_eq!(
        resolve_asset_path("/r", "Base Set", &eds, 3, AssetKind::SetRulebook).unwrap(),
        "/r/Base-Set_3/rules.pdf"
    );
    assert_eq!(
        resolve_asset_path("/r", "Base Set", &eds, 2, AssetKind::SetIcon).unwrap(),
        "/r/Base-Set_2/icon.png"
    );
}

#[test]
fn unknown_edition_is_refused_for_every_kind() {
    let eds = vec![1, 2];
    for kind in [AssetKind::CardArt, AssetKind::SetCover, AssetKind::SetRulebook, AssetKind::SetIcon] {
        assert_eq!(resolve_asset_path("/r", "x", &eds, 3, kind), Err(AssetError::UnknownEdition));
    }
    assert_eq!(
        resolve_asset_path("/r", "x", &vec![], 0, AssetKind::CardArt),
        Err(AssetError::UnknownEdition)
    );
}

#[test]
fn resolving_twice_gives_the_same_path() {
    let eds = vec![4];
    let first = resolve_asset_path("/r", "Moat's Edge", &eds, 4, AssetKind::SetIcon);
    let second = resolve_asset_path("/r", "Moat's Edge", &eds, 4, AssetKind::SetIcon);
    assert_eq!(first, second);
    assert_eq!(first.unwrap(), "/r/Moat-s-Edge_4/icon.png");
}

#[test]
fn contains_edition_finds_members_only() {
    let eds = vec![13, 21];
    assert!(contains_edition(&eds, 13));
    assert!(contains_edition(&eds, 21));
    assert!(!contains_edition(&eds, 14));
    assert!(!contains_edition(&vec![], 0));
}
