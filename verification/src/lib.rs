pub mod command;
pub mod config;
pub mod database;
pub mod event;
pub mod layout;
pub mod operations;
pub mod table;
