//! The printed categories of a card.
use vstd::prelude::*;

verus! {

/// One printed category of a card.
#[derive(Debug, Clone, Copy, PartialEq, Eq, Structural)]
pub enum CardType {
    Action,
    Treasure,
    Victory,
    Curse,
    Attack,
    Reaction,
}

} // verus!
