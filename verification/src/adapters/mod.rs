pub mod cli_handlers;
pub mod formatters;
