pub mod cli;
pub mod data;
pub mod display;
pub mod lemmas;
pub mod state;
