pub mod cli;
pub mod tracker;
