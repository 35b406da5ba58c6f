//! Command dispatch for a small front end to a local model-serving daemon.
//!
//! The front end lists, pulls, runs and removes models by running the
//! external `ollama` program, and asks the daemon's HTTP API for single,
//! unstreamed generations. This crate holds every decision of it and none of
//! its effects: it reads a command from an argument vector ([`cli`]), plans
//! the one action the command needs ([`dispatch`]), writes the body of a
//! generation request and reads the reply ([`generate`]), and turns what
//! happened at the boundary into a result ([`ollama`], [`generate`],
//! [`error`]). Starting processes, talking HTTP and printing are left to the
//! caller.

pub mod cli;
pub mod dispatch;
pub mod error;
pub mod generate;
pub mod json;
pub mod ollama;
pub mod prompts;
pub mod text;

pub use error::Error;
pub use generate::{GenerateRequest, GenerateResponse};
