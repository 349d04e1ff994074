//! A small web service framework: pages, actions and templates stored in a
//! database decide which routes exist and what each request runs.
//!
//! This crate holds the logic of the framework with its contracts: flag
//! decoding, SQL escaping and statement building, template trees, the
//! routing and preflight decisions, and the step functions of the template
//! engine. The network and database plumbing lives in the program around it.

pub mod text;
pub mod json;
pub mod types;
pub mod module;
pub mod engine;
pub mod service;
pub mod meta;
