//! Deduplication of Temporal workflow histories by their semantic shape.
pub mod text;
pub mod wrappers;
pub mod history;
pub mod tokenizer;
pub mod config;
pub mod cli;
pub mod http;
pub mod scanner;
pub mod cleanup;
pub mod temporal;
