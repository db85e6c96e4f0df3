pub mod block_laws;
pub mod card_laws;
pub mod effect_laws;
pub mod laws;
pub mod number_laws;
pub mod oracle;
pub mod oracle_auction;
pub mod oracle_effect;
pub mod oracle_gift;
pub mod oracle_trigger;
pub mod primitives;
pub mod trigger_laws;
