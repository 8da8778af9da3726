pub mod account;
pub mod constants;
pub mod error;
pub mod protocol;
