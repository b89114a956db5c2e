pub mod command;
pub mod config;
pub mod decision;
