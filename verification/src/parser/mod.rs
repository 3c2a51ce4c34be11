pub mod tokens;
pub mod action_parser;
