//! The JSON codec the pipeline is handed: turning extracted JSON text into
//! the stages' parse shapes, and a stage result back into JSON for the next
//! prompt. The application implements it with its JSON library; nothing is
//! assumed of an implementation — the stages state what holds for every
//! outcome.

use crate::analyze::{AnalysisResult, ParsedAnalysis};
use crate::generate::ParsedNarrative;
use vstd::prelude::*;

verus! {

/// Decoding and encoding of the model's JSON answers.
pub trait JsonCodec {
    /// Parse an analysis answer; `None` when the text is not the expected
    /// JSON object.
    fn parse_analysis(&self, json: &str) -> Option<ParsedAnalysis>;

    /// Parse a narrative answer; `None` when the text is not the expected
    /// JSON object.
    fn parse_narrative(&self, json: &str) -> Option<ParsedNarrative>;

    /// Render an analysis result as JSON for the narrative prompt.
    fn analysis_to_json(&self, analysis: &AnalysisResult) -> String;
}

} // verus!
