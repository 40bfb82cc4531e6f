pub mod cli;
pub mod config;
pub mod modules;
pub mod os;
pub mod ssh;
pub mod text;
