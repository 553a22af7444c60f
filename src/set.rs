//! The set (expansion) record and where its cover, rulebook and icon go.
use vstd::prelude::*;

use crate::card::{copy_strings, copy_vec, strings_view};
use crate::error::AssetError;
use crate::naming::sanitized;
use crate::paths::{asset_path, resolve_asset_path, AssetKind};

verus! {

/// One published set of cards, with per-edition asset URLs. The three URL
/// lists are aligned with `editions`: entry `i` of each belongs to edition
/// `editions[i]`.
#[derive(Debug, PartialEq, Eq)]
pub struct CardSet {
    pub id: u8,
    pub name: String,
    pub editions: Vec<u8>,
    pub cover_art_url: Vec<String>,
    pub rule_book_url: Vec<String>,
    pub icon_url: Vec<String>,
}

/// At least one edition, and one URL of each kind per edition.
pub open spec fn set_lists_aligned(
    editions: Seq<u8>,
    cover_art_url: Seq<String>,
    rule_book_url: Seq<String>,
    icon_url: Seq<String>,
) -> bool {
    &&& editions.len() > 0
    &&& cover_art_url.len() == editions.len()
    &&& rule_book_url.len() == editions.len()
    &&& icon_url.len() == editions.len()
}

impl CardSet {
    /// The invariant that `new` establishes.
    pub open spec fn well_formed(&self) -> bool {
        set_lists_aligned(self.editions@, self.cover_art_url@, self.rule_book_url@, self.icon_url@)
    }

    /// Builds a set; fails with `ConstructionError` when there is no edition
    /// or a URL list is not as long as `editions`.
    pub fn new(
        id: u8,
        name: String,
        editions: Vec<u8>,
        cover_art_url: Vec<String>,
        rule_book_url: Vec<String>,
        icon_url: Vec<String>,
    ) -> (r: Result<CardSet, AssetError>)
        ensures
            r is Ok <==> set_lists_aligned(editions@, cover_art_url@, rule_book_url@, icon_url@),
            r matches Ok(s) ==> {
                &&& s.well_formed()
                &&& s.id == id
                &&& s.name == name
                &&& s.editions == editions
                &&& s.cover_art_url == cover_art_url
                &&& s.rule_book_url == rule_book_url
                &&& s.icon_url == icon_url
            },
            r matches Err(e) ==> e == AssetError::ConstructionError,
    {
        if editions.len() == 0 || editions.len() != cover_art_url.len()
            || editions.len() != rule_book_url.len() || editions.len() != icon_url.len() {
            return Err(AssetError::ConstructionError);
        }
        Ok(CardSet { id, name, editions, cover_art_url, rule_book_url, icon_url })
    }
}

impl Clone for CardSet {
    fn clone(&self) -> (r: Self)
        ensures
            r.id == self.id,
            r.name == self.name,
            r.editions@ == self.editions@,
            strings_view(r.cover_art_url@) == strings_view(self.cover_art_url@),
            strings_view(r.rule_book_url@) == strings_view(self.rule_book_url@),
            strings_view(r.icon_url@) == strings_view(self.icon_url@),
    {
        CardSet {
            id: self.id,
            name: self.name.clone(),
            editions: copy_vec(&self.editions),
            cover_art_url: copy_strings(&self.cover_art_url),
            rule_book_url: copy_strings(&self.rule_book_url),
            icon_url: copy_strings(&self.icon_url),
        }
    }
}

/// Where the cover art, rulebook and icon of each edition of a set go.
pub trait SetFilePaths {
    /// The name the assets are filed under.
    spec fn asset_name(&self) -> Seq<char>;

    /// The editions that have assets.
    spec fn asset_editions(&self) -> Seq<u8>;

    /// The cover art location of `edition` under the storage root `root`.
    fn get_cover_art_path(&self, root: &str, edition: u8) -> (r: Result<String, AssetError>)
        ensures
            r is Ok <==> self.asset_editions().contains(edition),
            r matches Ok(p) ==> p@ == asset_path(
                root@,
                AssetKind::SetCover,
                sanitized(self.asset_name(), edition),
            ),
            r matches Err(e) ==> e == AssetError::UnknownEdition,
    ;

    /// The rulebook location of `edition` under the storage root `root`.
    fn get_rule_book_path(&self, root: &str, edition: u8) -> (r: Result<String, AssetError>)
        ensures
            r is Ok <==> self.asset_editions().contains(edition),
            r matches Ok(p) ==> p@ == asset_path(
                root@,
                AssetKind::SetRulebook,
                sanitized(self.asset_name(), edition),
            ),
            r matches Err(e) ==> e == AssetError::UnknownEdition,
    ;

    /// The icon location of `edition` under the storage root `root`.
    fn get_icon_path(&self, root: &str, edition: u8) -> (r: Result<String, AssetError>)
        ensures
            r is Ok <==> self.asset_editions().contains(edition),
            r matches Ok(p) ==> p@ == asset_path(
                root@,
                AssetKind::SetIcon,
                sanitized(self.asset_name(), edition),
            ),
            r matches Err(e) ==> e == AssetError::UnknownEdition,
    ;
}

impl SetFilePaths for CardSet {
    open spec fn asset_name(&self) -> Seq<char> {
        self.name@
    }

    open spec fn asset_editions(&self) -> Seq<u8> {
        self.editions@
    }

    fn get_cover_art_path(&self, root: &str, edition: u8) -> (r: Result<String, AssetError>) {
        resolve_asset_path(root, self.name.as_str(), &self.editions, edition, AssetKind::SetCover)
    }

    fn get_rule_book_path(&self, root: &str, edition: u8) -> (r: Result<String, AssetError>) {
        resolve_asset_path(root, self.name.as_str(), &self.editions, edition, AssetKind::SetRulebook)
    }

    fn get_icon_path(&self, root: &str, edition: u8) -> (r: Result<String, AssetError>) {
        resolve_asset_path(root, self.name.as_str(), &self.editions, edition, AssetKind::SetIcon)
    }
}

} // verus!
