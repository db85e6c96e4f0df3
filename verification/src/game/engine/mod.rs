pub mod auction;
pub mod cards;
pub mod cast_laws;
pub mod casting;
pub mod choice_laws;
pub mod dispatch;
pub mod mode_laws;
pub mod modes;
pub mod priority;
pub mod priority_laws;
pub mod replacement_choice;
pub mod reply;
pub mod resolve_laws;
pub mod resume;
pub mod target_laws;
pub mod trigger_order;
