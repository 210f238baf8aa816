pub mod commands;
pub mod output;
