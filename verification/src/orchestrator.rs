//! The report pipeline orchestrator: validate the caller's request, then run
//! retrieve, analyze, generate and format strictly in order, and hand back
//! the finished report for the application to persist.

use crate::analyze::analyze;
use crate::client::LlmClient;
use crate::codec::JsonCodec;
use crate::dates::{date_of, parse_date, valid_date_str, Date};
use crate::errors::AppError;
use crate::format::{format_post, format_report, FormatParams, Report};
use crate::generate::generate;
use crate::llm::{Clock, Provider};
use crate::retrieve::{retrieve, total_points, IndicatorData};
use vstd::prelude::*;

verus! {

/// A validated report request.
#[derive(Clone, Debug)]
pub struct ReportRequest {
    pub indicators: Vec<String>,
    pub start_date: Date,
    pub end_date: Date,
}

/// The raw request body as the HTTP boundary receives it.
#[derive(Clone, Debug)]
pub struct CreateReportBody {
    pub indicators: Vec<String>,
    pub start_date: String,
    pub end_date: String,
}

/// Paging parameters of the report listing.
#[derive(Clone, Copy, Debug, PartialEq, Eq, Structural)]
pub struct ListQuery {
    pub limit: Option<i64>,
    pub offset: Option<i64>,
}

impl ListQuery {
    /// The effective paging window: twenty records from the start unless the
    /// caller chose otherwise.
    pub fn effective(&self) -> (r: (i64, i64))
        ensures
            r.0 == if self.limit is Some {
                self.limit->0 as int
            } else {
                20int
            },
            r.1 == if self.offset is Some {
                self.offset->0 as int
            } else {
                0int
            },
    {
        let limit = match self.limit {
            Some(l) => l,
            None => 20,
        };
        let offset = match self.offset {
            Some(o) => o,
            None => 0,
        };
        (limit, offset)
    }
}

/// Validate a raw request: indicators must be named, both dates must be
/// well-formed `YYYY-MM-DD` days, and the range must not be empty or
/// reversed. Returns the validation error the boundary maps to a 400.
pub fn validate_report_request(body: &CreateReportBody) -> (r: Result<ReportRequest, AppError>)
    ensures
        body.indicators@.len() == 0 ==> (r matches Err(e) && e matches AppError::Validation(m)
            && m@ == "indicators must not be empty"@),
        body.indicators@.len() > 0 && !valid_date_str(body.start_date@) ==> (r matches Err(e)
            && e matches AppError::Validation(m) && m@
            == "invalid start_date format, use YYYY-MM-DD"@),
        body.indicators@.len() > 0 && valid_date_str(body.start_date@) && !valid_date_str(
            body.end_date@,
        ) ==> (r matches Err(e) && e matches AppError::Validation(m) && m@
            == "invalid end_date format, use YYYY-MM-DD"@),
        body.indicators@.len() > 0 && valid_date_str(body.start_date@) && valid_date_str(
            body.end_date@,
        ) && date_of(body.end_date@).le_spec(date_of(body.start_date@)) ==> (r matches Err(e)
            && e matches AppError::Validation(m) && m@ == "start_date must be before end_date"@),
        body.indicators@.len() > 0 && valid_date_str(body.start_date@) && valid_date_str(
            body.end_date@,
        ) && !date_of(body.end_date@).le_spec(date_of(body.start_date@)) ==> (r matches Ok(req)
            && req.indicators@ == body.indicators@ && req.start_date == date_of(body.start_date@)
            && req.end_date == date_of(body.end_date@)),
        r matches Ok(req) ==> {
            &&& body.indicators@.len() > 0
            &&& valid_date_str(body.start_date@)
            &&& valid_date_str(body.end_date@)
            &&& crate::dates::date_str(req.start_date) == body.start_date@
            &&& crate::dates::date_str(req.end_date) == body.end_date@
            &&& !req.end_date.le_spec(req.start_date)
        },
        r matches Err(e) ==> e is Validation,
{
    if body.indicators.len() == 0 {
        return Err(AppError::Validation("indicators must not be empty".to_owned()));
    }
    let start_date = match parse_date(body.start_date.as_str()) {
        Some(d) => d,
        None => {
            return Err(AppError::Validation("invalid start_date format, use YYYY-MM-DD".to_owned()));
        },
    };
    let end_date = match parse_date(body.end_date.as_str()) {
        Some(d) => d,
        None => {
            return Err(AppError::Validation("invalid end_date format, use YYYY-MM-DD".to_owned()));
        },
    };
    if end_date.le(&start_date) {
        return Err(AppError::Validation("start_date must be before end_date".to_owned()));
    }
    Ok(ReportRequest { indicators: body.indicators.clone(), start_date, end_date })
}

/// Relies on uuid::Uuid::new_v4 and its Display form: a fresh random
/// identifier rendered as the 36-character hyphenated text.
#[verifier::external_body]
fn new_report_id() -> (r: String)
    ensures
        r@.len() == 36,
{
    uuid::Uuid::new_v4().to_string()
}

/// Run the four pipeline stages strictly in order on rows the application
/// already fetched for the request's indicators and date range. An empty
/// result set is the terminal no-data condition, raised before any LLM call;
/// the finished report carries the request's indicators, the two calls'
/// summed accounting, and the serving providers in first-use order.
pub fn generate_report<P: Provider, F: Provider, C: Clock, J: JsonCodec>(
    client: &mut LlmClient<P, F, C>,
    codec: &J,
    model_capable: &str,
    model_fast: &str,
    system_context: &str,
    request: &ReportRequest,
    data: Vec<IndicatorData>,
    trace_id: String,
) -> (r: Result<Report, AppError>)
    requires
        old(client).pricing.wf(),
        total_points(data@) <= usize::MAX,
    ensures
        final(client).same_setup(*old(client)),
        data@.len() == 0 ==> (r matches Err(e) && e matches AppError::Pipeline(m) && m@
            == "No data found for requested indicators"@ && final(client).metrics == old(
            client,
        ).metrics),
        old(client).fallback is None ==> final(client).metrics.fallbacks == old(
            client,
        ).metrics.fallbacks,
        r matches Err(e) ==> e is Llm || e is Pipeline,
        r matches Err(e) ==> (e is Pipeline ==> data@.len() == 0),
        data@.len() > 0 ==> (r is Ok || (r matches Err(e) && e is Llm)),
        r matches Ok(rep) ==> {
            &&& rep.id@.len() == 36
            &&& rep.trace_id@ == trace_id@
            &&& rep.indicators_used@ == request.indicators@
            &&& rep.time_range_start == request.start_date
            &&& rep.time_range_end == request.end_date
            &&& rep.total_data_points == total_points(data@)
            &&& 1 <= rep.providers_used@.len() <= 2
            &&& forall|i: int|
                0 <= i < rep.providers_used@.len() ==> (#[trigger] rep.providers_used@[i]@ == old(
                    client,
                ).primary_provider@ || (old(client).fallback is Some && rep.providers_used@[i]@
                    == old(client).fallback_provider@))
        },
{
    let start_ms = client.clock.now_ms();
    let retrieved = match retrieve(data) {
        Ok(rr) => rr,
        Err(e) => {
            return Err(e);
        },
    };
    let analysis = match analyze(client, codec, model_fast, &retrieved.indicators, system_context) {
        Ok(a) => a,
        Err(e) => {
            return Err(e);
        },
    };
    let narrative = match generate(client, codec, model_capable, &retrieved.indicators, &analysis) {
        Ok(n) => n,
        Err(e) => {
            return Err(e);
        },
    };
    let end_ms = client.clock.now_ms();
    let duration_ms = if end_ms >= start_ms {
        end_ms - start_ms
    } else {
        0
    };
    let report_id = new_report_id();
    let params = FormatParams {
        retrieve_result: retrieved,
        analysis,
        narrative,
        indicators_requested: request.indicators.clone(),
        start_date: request.start_date,
        end_date: request.end_date,
        duration_ms,
        trace_id,
    };
    match format_report(report_id, params) {
        Ok(rep) => Ok(rep),
        Err(e) => Err(e),
    }
}

} // verus!
