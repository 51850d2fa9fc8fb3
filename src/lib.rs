pub mod account;
pub mod bank;
pub mod ids;
pub mod user;
pub mod laws;
