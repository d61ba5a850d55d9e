pub mod command;
pub mod provider;
pub mod text;
