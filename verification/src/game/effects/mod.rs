pub mod auction_laws;
pub mod basic;
pub mod bidding_laws;
pub mod chain;
pub mod draw;
pub mod draw_laws;
pub mod gift_delivery;
pub mod gift_laws;
pub mod instruction_laws;
pub mod life;
pub mod life_auction;
pub mod planeswalk;
pub mod repeated_payment;
pub mod round_laws;
pub mod token;
