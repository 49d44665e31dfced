//! The format stage: assemble the final report from the three earlier
//! stages' outputs — summing tokens and cost across the two LLM calls and
//! deduplicating provider names in first-use order.

use crate::analyze::AnalysisResult;
use crate::dates::Date;
use crate::errors::AppError;
use crate::generate::{NarrativeResult, NarrativeSection};
use crate::retrieve::RetrieveResult;
use vstd::prelude::*;

verus! {

/// The finished report, immutable after formatting.
#[derive(Clone, Debug)]
pub struct Report {
    /// Fresh opaque identifier, assigned once per pipeline run.
    pub id: String,
    pub title: String,
    pub executive_summary: String,
    pub sections: Vec<NarrativeSection>,
    pub indicators_used: Vec<String>,
    pub time_range_start: Date,
    pub time_range_end: Date,
    pub total_data_points: usize,
    /// Tokens across both LLM calls.
    pub total_tokens: u64,
    /// Cost across both LLM calls, in nanodollars.
    pub total_cost_nanos: u128,
    /// Serving providers in first-use order, each named once.
    pub providers_used: Vec<String>,
    pub generation_duration_ms: u64,
    pub trace_id: String,
}

/// Everything the format stage consumes.
pub struct FormatParams {
    pub retrieve_result: RetrieveResult,
    pub analysis: AnalysisResult,
    pub narrative: NarrativeResult,
    pub indicators_requested: Vec<String>,
    pub start_date: Date,
    pub end_date: Date,
    pub duration_ms: u64,
    pub trace_id: String,
}

/// The relation [`format_report`] establishes between its inputs and the
/// report: every report field is a function of the identifier and the
/// params, with the totals summed across the two calls and the providers
/// deduplicated in first-use order.
pub open spec fn format_post(id: String, p: FormatParams, r: Report) -> bool {
    &&& r.id == id
    &&& r.title@ == p.narrative.title@
    &&& r.executive_summary@ == p.narrative.executive_summary@
    &&& r.sections@ == p.narrative.sections@
    &&& r.indicators_used@ == p.indicators_requested@
    &&& r.time_range_start == p.start_date
    &&& r.time_range_end == p.end_date
    &&& r.total_data_points == p.retrieve_result.total_data_points
    &&& r.total_tokens == p.analysis.input_tokens + p.analysis.output_tokens
        + p.narrative.input_tokens + p.narrative.output_tokens
    &&& r.total_cost_nanos == p.analysis.cost_nanos + p.narrative.cost_nanos
    &&& r.providers_used@.len() == (if p.narrative.provider@ == p.analysis.provider@ {
        1int
    } else {
        2int
    })
    &&& r.providers_used@[0]@ == p.analysis.provider@
    &&& (p.narrative.provider@ != p.analysis.provider@ ==> r.providers_used@[1]@
        == p.narrative.provider@)
    &&& r.generation_duration_ms == p.duration_ms
    &&& r.trace_id == p.trace_id
}

/// Assemble the final report. This stage is pure: it always succeeds, and
/// the report is determined by the identifier and the inputs.
pub fn format_report(report_id: String, params: FormatParams) -> (r: Result<Report, AppError>)
    ensures
        r matches Ok(rep) && format_post(report_id, params, rep),
{
    let FormatParams {
        retrieve_result,
        analysis,
        narrative,
        indicators_requested,
        start_date,
        end_date,
        duration_ms,
        trace_id,
    } = params;
    let total_tokens: u64 = (analysis.input_tokens as u64) + (analysis.output_tokens as u64) + (
    narrative.input_tokens as u64) + (narrative.output_tokens as u64);
    let total_cost_nanos: u128 = (analysis.cost_nanos as u128) + (narrative.cost_nanos as u128);
    let same_provider = narrative.provider == analysis.provider;
    let mut providers_used: Vec<String> = Vec::new();
    providers_used.push(analysis.provider);
    if !same_provider {
        providers_used.push(narrative.provider);
    }
    Ok(
        Report {
            id: report_id,
            title: narrative.title,
            executive_summary: narrative.executive_summary,
            sections: narrative.sections,
            indicators_used: indicators_requested,
            time_range_start: start_date,
            time_range_end: end_date,
            total_data_points: retrieve_result.total_data_points,
            total_tokens,
            total_cost_nanos,
            providers_used,
            generation_duration_ms: duration_ms,
            trace_id,
        },
    )
}

/// Formatting is a pure function of its inputs: two reports formatted from
/// the same stage outputs carry the same totals, the same content, and the
/// same deduplicated, order-preserving provider list, whatever identifiers
/// they were assigned.
pub proof fn lemma_format_report_pure(
    id1: String,
    id2: String,
    p: FormatParams,
    r1: Report,
    r2: Report,
)
    requires
        format_post(id1, p, r1),
        format_post(id2, p, r2),
    ensures
        r1.total_tokens == r2.total_tokens,
        r1.total_cost_nanos == r2.total_cost_nanos,
        r1.total_tokens == p.analysis.input_tokens + p.analysis.output_tokens
            + p.narrative.input_tokens + p.narrative.output_tokens,
        r1.providers_used@.len() == r2.providers_used@.len(),
        forall|i: int|
            0 <= i < r1.providers_used@.len() ==> r1.providers_used@[i]@
                == r2.providers_used@[i]@,
        r1.title@ == r2.title@,
        r1.total_data_points == r2.total_data_points,
{
    assert forall|i: int| 0 <= i < r1.providers_used@.len() implies r1.providers_used@[i]@
        == r2.providers_used@[i]@ by {
        if i == 0 {
        } else {
            assert(i == 1);
        }
    }
}

} // verus!
