//! The application state machine: what is on screen, and what a key does to it.

pub mod app;
pub mod display;
pub mod key;
