pub mod ability;
pub mod action_order_laws;
pub mod action_payloads;
pub mod action_stable_order;
pub mod actions;
pub mod answer_laws;
pub mod card;
pub mod card_type;
pub mod choices;
pub mod counters;
pub mod description_laws;
pub mod events;
pub mod format;
pub mod game_state;
pub mod identifiers;
pub mod keywords;
pub mod log;
pub mod mana;
pub mod mana_cost;
pub mod mana_spend;
pub mod named_choice;
pub mod payload_order_laws;
pub mod phase;
pub mod player;
pub mod prompts;
pub mod proposed_event;
pub mod quantity;
pub mod replacements;
pub mod selection;
pub mod statics;
pub mod target_filter;
pub mod tokens;
pub mod triggers;
pub mod zones;
