pub mod client_view;
pub mod clock;
pub mod clock_laws;
pub mod clock_loop;
pub mod derived_views;
pub mod protocol;
pub mod session;
pub mod timeout_laws;
pub mod turn_clock;
pub mod update_laws;
