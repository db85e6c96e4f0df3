//! Players.
use vstd::prelude::*;

use crate::types::identifiers::{ObjectId, PlayerId};
use crate::types::mana_cost::{ManaPool, ManaUnit};

verus! {

/// A player with the zones that only they own (CR 400.1).
#[derive(Clone, Debug, PartialEq, Eq)]
pub struct Player {
    pub id: PlayerId,
    pub life: i32,
    /// Top card first.
    pub library: Vec<ObjectId>,
    pub hand: Vec<ObjectId>,
    pub graveyard: Vec<ObjectId>,
    pub mana_pool: ManaPool,
    pub cards_drawn_this_turn: u32,
    pub is_eliminated: bool,
}

/// The contents of a player.
pub struct PlayerModel {
    pub id: PlayerId,
    pub life: i32,
    pub library: Seq<ObjectId>,
    pub hand: Seq<ObjectId>,
    pub graveyard: Seq<ObjectId>,
    pub mana: Seq<ManaUnit>,
    pub cards_drawn_this_turn: u32,
    pub is_eliminated: bool,
}

impl View for Player {
    type V = PlayerModel;

    open spec fn view(&self) -> PlayerModel {
        PlayerModel {
            id: self.id,
            life: self.life,
            library: self.library@,
            hand: self.hand@,
            graveyard: self.graveyard@,
            mana: self.mana_pool.mana@,
            cards_drawn_this_turn: self.cards_drawn_this_turn,
            is_eliminated: self.is_eliminated,
        }
    }
}

impl Player {
    pub open spec fn fresh(id: PlayerId, life: i32) -> PlayerModel {
        PlayerModel {
            id,
            life,
            library: Seq::empty(),
            hand: Seq::empty(),
            graveyard: Seq::empty(),
            mana: Seq::empty(),
            cards_drawn_this_turn: 0,
            is_eliminated: false,
        }
    }

    /// A player who just sat down.
    pub fn new(id: PlayerId, life: i32) -> (r: Self)
        ensures
            r@ == Player::fresh(id, life),
    {
        Player {
            id,
            life,
            library: Vec::new(),
            hand: Vec::new(),
            graveyard: Vec::new(),
            mana_pool: ManaPool { mana: Vec::new() },
            cards_drawn_this_turn: 0,
            is_eliminated: false,
        }
    }
}

} // verus!
