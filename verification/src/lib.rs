pub mod cli;
pub mod json;
pub mod smc_dump;
pub mod tui;
pub mod types;
