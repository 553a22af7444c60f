//! Gameplay labels attached to cards.
use vstd::prelude::*;

verus! {

/// A label describing one effect or property of a card.
#[derive(Debug, Clone, Copy, PartialEq, Eq, Structural)]
pub enum CardTag {
    // Action
    CanReplaceAction,
    WillReplaceAction,
    CanGainAction,
    WillGainAction,

    // Cards in hand
    CanReplaceCard,
    WillReplaceCard,
    CanDrawCard,
    NetGainCards,
    NetLoseCards,

    // Discard
    CanDiscardCard,
    WillDiscardCard,
    DiscardFromDeck,

    // Gains Cards
    WillGainCard,
    WillGainCardUnder4,
    WillGainCardToHandUnder4,
    WillGainCardUnder5,
    WillGainCardToHandUnder5,
    GainGold,
    GainSilver,
    GainCopper,

    // Trashing
    TrashFromHand,
    TrashMultipleFromHand,
    TrashForBenefit,
    TrashToGain,
    TrashTreasre,
    TrashAction,
    TrashVictory,
    TrashCurse,
    TrashSelf,
    TrashFromDeck,

    // Buys
    CanGainBuy,
    WillGainBuy,

    // Coin
    CanGainCoin,
    WillGainCoin,

    // Miss
    ProtectionFromAttack,
    WeakerForEmptySupply,
    StrongerForEmptySuppy,
    UsesActionInHand,

    // Controls Deck Order
    ControlsTopOfDeck,
    AddCardToTopOfDeck,

    // Attack type
    CurseAttack,
    TrashingAttack,
    DiscardingAttack,
    DiscardToTopOfDeckAttack,

    // Card costs
    Costs0,
    Costs1,
    Costs2,
    Costs3,
    Costs4,
    Costs5,
    Costs6,
    Costs7,
    Costs8,

    // Card types
    IsAction,
    IsTreasure,
    IsVictory,
    IsCurse,
    IsAttack,
    IsReaction,
}

} // verus!
