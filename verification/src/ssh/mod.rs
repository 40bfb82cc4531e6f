pub mod client;
pub mod executor;
