mod shared;
pub mod database;
pub mod game;
pub mod order;
pub mod parser;
pub mod server;
pub mod text;
pub mod types;
