//! Core of a small arithmetic quiz for young learners: range-based question
//! generation keyed by difficulty, a placeholder schedule for word problems
//! that are resolved later (remotely or by a local fallback), an answer
//! grading engine, and the store that publishes each new question list.
//!
//! Everything here is pure logic over plain values; the browser front end
//! owns the markup, the event wiring and the remote call itself.

pub mod config;
pub mod enrich;
pub mod generate;
pub mod grade;
pub mod parse;
pub mod question;
pub mod sampler;
pub mod schedule;
pub mod store;
pub mod text;
