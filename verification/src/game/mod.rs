pub mod ability_utils;
pub mod action_laws;
pub mod combat;
pub mod deck_loading;
pub mod effects;
pub mod engine;
pub mod filter;
pub mod filter_laws;
pub mod game_object;
pub mod legal_actions;
pub mod mana_laws;
pub mod mana_payment;
pub mod object_store;
pub mod outcome;
pub mod planar_laws;
pub mod planechase;
pub mod players;
pub mod printed_cards;
pub mod quantity;
pub mod replacement;
pub mod replacement_laws;
pub mod seat_laws;
pub mod setup_laws;
pub mod vanguard;
pub mod vanguard_laws;
pub mod zone_laws;
pub mod zones;
