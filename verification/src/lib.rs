//! Decisions of a bus-arrival lookup, kept free of input and output.
//!
//! A lookup reads its settings, sends one HTTP request for a bus stop,
//! judges the answer and hands the decoded JSON back as text. Reading,
//! sending and receiving are left to the caller; what is built, accepted
//! and rejected is decided here, and every decision carries a contract.

pub mod busstop;
pub mod encoding;
pub mod error;
pub mod json;
pub mod model;
pub mod request;
pub mod response;
pub mod settings;
pub mod tool;
