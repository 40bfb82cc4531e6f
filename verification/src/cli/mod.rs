pub mod args;
pub mod prompts;
