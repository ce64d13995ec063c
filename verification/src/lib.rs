//! Fermi notifier: the rules of a service that asks a text generator for an
//! estimation puzzle, pushes the problem at once and schedules the solution.

pub mod config;
pub mod error;
pub mod gemini;
pub mod ntfy;
pub mod status;
pub mod text;
pub mod trigger;
