pub mod command;
pub mod laws;
pub mod normal;
pub mod render;
pub mod rules;
pub mod setup;
pub mod types;
