pub mod key;
pub mod natural;
pub mod stable_ord;
