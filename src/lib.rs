pub mod command;
pub mod output;
