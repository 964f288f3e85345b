//! A minimal interactive command shell library: a quote-aware input
//! tokenizer, a search-path command resolver, and a command dispatcher
//! that maps parsed commands to user-visible outcomes.
//!
//! The surrounding program supplies the operating-system facts (the
//! current directory, whether a path exists on disk, what a spawned
//! process printed); every decision taken on those facts lives here.

pub mod command;
pub mod shell;
pub mod text;
