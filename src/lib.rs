//! Catalog records for a deck-building card game, and the verified logic that
//! turns them into safe on-disk asset locations and download plans.
pub mod card;
pub mod card_data;
pub mod card_tag;
pub mod card_type;
pub mod catalog;
pub mod error;
pub mod kingdom;
pub mod naming;
pub mod paths;
pub mod routes;
pub mod scrape;
pub mod set;
pub mod set_summary;
