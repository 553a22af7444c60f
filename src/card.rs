//! The card record and where its artwork is stored.
use vstd::prelude::*;

use crate::card_tag::CardTag;
use crate::card_type::CardType;
use crate::error::AssetError;
use crate::naming::{sanitize, sanitized};
use crate::paths::{asset_path, contains_edition, resolve_asset_path, AssetKind};

verus! {

/// One card of the catalog.
#[derive(Debug, PartialEq, Eq)]
pub struct Card {
    pub id: u16,
    pub name: String,
    pub supply_card: bool,
    pub basic_card: bool,
    /// Supply pile sizes for games of 2, 3, 4, 5 and 6 players.
    pub card_counts: [u8; 5],
    pub set_id: u8,
    pub editions: Vec<u8>,
    pub card_tags: Vec<CardTag>,
    pub kingdom_requirements: Vec<Vec<CardTag>>,
    pub kingdom_synergies: Vec<Vec<CardTag>>,
    pub kingdom_anti_synergies: Vec<Vec<CardTag>>,
    pub card_types: Vec<CardType>,
    /// One artwork URL per edition, in the order of `editions`.
    pub art_url: Vec<String>,
}

/// The contents of a card as plain mathematical values.
pub struct CardView {
    pub id: u16,
    pub name: Seq<char>,
    pub supply_card: bool,
    pub basic_card: bool,
    pub card_counts: Seq<u8>,
    pub set_id: u8,
    pub editions: Seq<u8>,
    pub card_tags: Seq<CardTag>,
    pub kingdom_requirements: Seq<Seq<CardTag>>,
    pub kingdom_synergies: Seq<Seq<CardTag>>,
    pub kingdom_anti_synergies: Seq<Seq<CardTag>>,
    pub card_types: Seq<CardType>,
    pub art_url: Seq<Seq<char>>,
}

/// Each tag list as a sequence of tags.
pub open spec fn tag_lists_view(v: Seq<Vec<CardTag>>) -> Seq<Seq<CardTag>> {
    v.map_values(|t: Vec<CardTag>| t@)
}

/// Each string as its sequence of characters.
pub open spec fn strings_view(v: Seq<String>) -> Seq<Seq<char>> {
    v.map_values(|s: String| s@)
}

impl View for Card {
    type V = CardView;

    open spec fn view(&self) -> CardView {
        CardView {
            id: self.id,
            name: self.name@,
            supply_card: self.supply_card,
            basic_card: self.basic_card,
            card_counts: self.card_counts@,
            set_id: self.set_id,
            editions: self.editions@,
            card_tags: self.card_tags@,
            kingdom_requirements: tag_lists_view(self.kingdom_requirements@),
            kingdom_synergies: tag_lists_view(self.kingdom_synergies@),
            kingdom_anti_synergies: tag_lists_view(self.kingdom_anti_synergies@),
            card_types: self.card_types@,
            art_url: strings_view(self.art_url@),
        }
    }
}

/// An element-by-element copy of a vector of plain values.
pub fn copy_vec<T: Copy>(v: &Vec<T>) -> (r: Vec<T>)
    ensures
        r@ == v@,
{
    let mut r: Vec<T> = Vec::new();
    let mut i: usize = 0;
    while i < v.len()
        invariant
            0 <= i <= v@.len(),
            r@ == v@.subrange(0, i as int),
        decreases v@.len() - i,
    {
        r.push(v[i]);
        i += 1;
    }
    assert(r@ =~= v@);
    r
}

/// A copy of a list of tag lists.
pub fn copy_tag_lists(v: &Vec<Vec<CardTag>>) -> (r: Vec<Vec<CardTag>>)
    ensures
        tag_lists_view(r@) == tag_lists_view(v@),
{
    let mut r: Vec<Vec<CardTag>> = Vec::new();
    let mut i: usize = 0;
    while i < v.len()
        invariant
            0 <= i <= v@.len(),
            r@.len() == i,
            forall|j: int| 0 <= j < i ==> r@[j]@ == v@[j]@,
        decreases v@.len() - i,
    {
        let inner = copy_vec(&v[i]);
        r.push(inner);
        i += 1;
    }
    assert(tag_lists_view(r@) =~= tag_lists_view(v@));
    r
}

/// A copy of a list of strings.
pub fn copy_strings(v: &Vec<String>) -> (r: Vec<String>)
    ensures
        strings_view(r@) == strings_view(v@),
{
    let mut r: Vec<String> = Vec::new();
    let mut i: usize = 0;
    while i < v.len()
        invariant
            0 <= i <= v@.len(),
            r@.len() == i,
            forall|j: int| 0 <= j < i ==> r@[j]@ == v@[j]@,
        decreases v@.len() - i,
    {
        let s = v[i].clone();
        r.push(s);
        i += 1;
    }
    assert(strings_view(r@) =~= strings_view(v@));
    r
}

impl Clone for Card {
    fn clone(&self) -> (r: Self)
        ensures
            r@ == self@,
    {
        Card {
            id: self.id,
            name: self.name.clone(),
            supply_card: self.supply_card,
            basic_card: self.basic_card,
            card_counts: self.card_counts,
            set_id: self.set_id,
            editions: copy_vec(&self.editions),
            card_tags: copy_vec(&self.card_tags),
            kingdom_requirements: copy_tag_lists(&self.kingdom_requirements),
            kingdom_synergies: copy_tag_lists(&self.kingdom_synergies),
            kingdom_anti_synergies: copy_tag_lists(&self.kingdom_anti_synergies),
            card_types: copy_vec(&self.card_types),
            art_url: copy_strings(&self.art_url),
        }
    }
}

/// Where the artwork of each edition of a card goes.
pub trait CardFilepath {
    /// The name the artwork is filed under.
    spec fn art_name(&self) -> Seq<char>;

    /// The editions that have artwork.
    spec fn art_editions(&self) -> Seq<u8>;

    /// The artwork location of `edition` under the storage root `root`.
    fn get_art_path(&self, root: &str, edition: u8) -> (r: Result<String, AssetError>)
        ensures
            r is Ok <==> self.art_editions().contains(edition),
            r matches Ok(p) ==> p@ == asset_path(
                root@,
                AssetKind::CardArt,
                sanitized(self.art_name(), edition),
            ),
            r matches Err(e) ==> e == AssetError::UnknownEdition,
    ;

    /// The sanitized file name (without extension) of the artwork of `edition`.
    fn get_art_file_name(&self, edition: u8) -> (r: Result<String, AssetError>)
        ensures
            r is Ok <==> self.art_editions().contains(edition),
            r matches Ok(s) ==> s@ == sanitized(self.art_name(), edition),
            r matches Err(e) ==> e == AssetError::UnknownEdition,
    ;
}

impl CardFilepath for Card {
    open spec fn art_name(&self) -> Seq<char> {
        self.name@
    }

    open spec fn art_editions(&self) -> Seq<u8> {
        self.editions@
    }

    fn get_art_path(&self, root: &str, edition: u8) -> (r: Result<String, AssetError>) {
        resolve_asset_path(root, self.name.as_str(), &self.editions, edition, AssetKind::CardArt)
    }

    fn get_art_file_name(&self, edition: u8) -> (r: Result<String, AssetError>) {
        if !contains_edition(&self.editions, edition) {
            return Err(AssetError::UnknownEdition);
        }
        Ok(sanitize(self.name.as_str(), edition))
    }
}

} // verus!
