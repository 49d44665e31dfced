//! Verified core of an LLM-backed report generation service.
//!
//! The library covers the logic that is worth proving: the pricing table and
//! cost computation, error classification, prompt/preview truncation, lenient
//! JSON extraction from model output, the retry/fallback orchestrator of the
//! LLM client, and the four-stage report pipeline (retrieve, analyze,
//! generate, format). Transport, persistence and telemetry stay outside.

pub mod adapters;
pub mod analyze;
pub mod client;
pub mod codec;
pub mod dates;
pub mod errors;
pub mod format;
pub mod generate;
pub mod llm;
pub mod numfmt;
pub mod orchestrator;
pub mod pricing;
pub mod retrieve;
pub mod slug;
pub mod text;
pub mod web;
