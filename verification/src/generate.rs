//! The generate stage: feed the analysis JSON, the indicator list and the
//! inferred time range to the capable model and ask for a structured
//! narrative (title, executive summary, sections) as JSON, parsed with the
//! same lenient policy as the analyze stage.

use crate::analyze::AnalysisResult;
use crate::client::LlmClient;
use crate::codec::JsonCodec;
use crate::dates::date_str;
use crate::errors::AppError;
use crate::llm::{inc, Clock, GenerateRequest, Provider};
use crate::retrieve::IndicatorData;
use vstd::prelude::*;
use vstd::string::StrSliceExecFns;
use vstd::string::StringExecFns;

verus! {

/// One section of the narrative.
#[derive(Clone, Debug)]
pub struct NarrativeSection {
    pub heading: String,
    pub content: String,
}

/// The fields a well-formed narrative answer may carry; each is optional in
/// the model's JSON.
#[derive(Clone, Debug)]
pub struct ParsedNarrative {
    pub title: Option<String>,
    pub executive_summary: Option<String>,
    pub sections: Option<Vec<NarrativeSection>>,
}

/// The generate stage's structured output with the accounting of the call
/// that produced it.
#[derive(Clone, Debug)]
pub struct NarrativeResult {
    pub title: String,
    pub executive_summary: String,
    pub sections: Vec<NarrativeSection>,
    pub input_tokens: u32,
    pub output_tokens: u32,
    pub cost_nanos: u64,
    pub provider: String,
}

/// The listing of one indicator: its name with its code in parentheses.
pub open spec fn indicator_item(ind: IndicatorData) -> Seq<char> {
    ind.name@ + " ("@ + ind.code@ + ")"@
}

/// All indicators listed, comma separated.
pub open spec fn indicator_list(data: Seq<IndicatorData>) -> Seq<char>
    decreases data.len(),
{
    if data.len() == 0 {
        Seq::empty()
    } else if data.len() == 1 {
        indicator_item(data[0])
    } else {
        indicator_list(data.drop_last()) + ", "@ + indicator_item(data.last())
    }
}

/// The time range the report covers: first to last observation of the first
/// indicator, or `unknown` when there is none.
pub open spec fn time_range_spec(data: Seq<IndicatorData>) -> Seq<char> {
    if data.len() > 0 && data[0].values@.len() > 0 {
        date_str(data[0].values@[0].observation_date) + " to "@ + date_str(
            data[0].values@.last().observation_date,
        )
    } else {
        "unknown"@
    }
}

/// Build the comma-separated indicator listing.
pub fn build_indicator_list(data: &Vec<IndicatorData>) -> (r: String)
    ensures
        r@ == indicator_list(data@),
{
    let mut out = String::new();
    let n = data.len();
    let mut i: usize = 0;
    proof {
        assert(out@ =~= indicator_list(data@.take(0)));
    }
    while i < n
        invariant
            0 <= i <= n,
            n == data@.len(),
            out@ == indicator_list(data@.take(i as int)),
        decreases n - i,
    {
        proof {
            assert(data@.take(i as int + 1).drop_last() =~= data@.take(i as int));
            assert(data@.take(i as int + 1).last() == data@[i as int]);
        }
        if i > 0 {
            out.append(", ");
        }
        out.append(data[i].name.as_str());
        out.append(" (");
        out.append(data[i].code.as_str());
        out.append(")");
        proof {
            assert(out@ =~= indicator_list(data@.take(i as int + 1)));
        }
        i = i + 1;
    }
    proof {
        assert(data@.take(n as int) =~= data@);
    }
    out
}

/// Build the time-range phrase.
pub fn build_time_range(data: &Vec<IndicatorData>) -> (r: String)
    ensures
        r@ == time_range_spec(data@),
{
    if data.len() > 0 {
        let vals = &data[0].values;
        let m = vals.len();
        if m > 0 {
            proof {
                assert(vals@.last() == vals@[m - 1]);
            }
            let mut out = String::new();
            let fd = crate::dates::format_date(&vals[0].observation_date);
            out.append(fd.as_str());
            out.append(" to ");
            let ld = crate::dates::format_date(&vals[m - 1].observation_date);
            out.append(ld.as_str());
            proof {
                assert(out@ =~= time_range_spec(data@));
            }
            return out;
        }
    }
    "unknown".to_owned()
}

/// The fixed pieces of the narrative prompt around the indicator list, time
/// range and analysis JSON.
pub open spec fn narrative_prompt_spec(
    list: Seq<char>,
    range: Seq<char>,
    analysis_json: Seq<char>,
) -> Seq<char> {
    "Write a structured economic report based on this analysis.\n\nIndicators: "@ + list
        + "\nTime period: "@ + range + "\n\nAnalysis:\n"@ + analysis_json
        + "\n\nReturn your report as JSON with this exact structure:\n{\n  \"title\": \"Report title\",\n  \"executive_summary\": \"2-3 sentence overview\",\n  \"sections\": [\n    {\"heading\": \"Section title\", \"content\": \"Section content with data references\"}\n  ]\n}\n\nInclude 3-5 sections covering the major themes from the analysis."@
}

/// Assemble the narrative prompt.
pub fn narrative_prompt(list: &str, range: &str, analysis_json: &str) -> (r: String)
    ensures
        r@ == narrative_prompt_spec(list@, range@, analysis_json@),
{
    let mut p = String::new();
    p.append("Write a structured economic report based on this analysis.\n\nIndicators: ");
    p.append(list);
    p.append("\nTime period: ");
    p.append(range);
    p.append("\n\nAnalysis:\n");
    p.append(analysis_json);
    p.append(
        "\n\nReturn your report as JSON with this exact structure:\n{\n  \"title\": \"Report title\",\n  \"executive_summary\": \"2-3 sentence overview\",\n  \"sections\": [\n    {\"heading\": \"Section title\", \"content\": \"Section content with data references\"}\n  ]\n}\n\nInclude 3-5 sections covering the major themes from the analysis.",
    );
    proof {
        assert(p@ =~= narrative_prompt_spec(list@, range@, analysis_json@));
    }
    p
}

/// Assemble the stage output from a lenient parse of the model's text:
/// missing fields take the generic title and summary, and an unparsable
/// answer degrades to a single `Analysis` section holding the raw text.
pub fn parse_narrative_response(
    content: &str,
    parsed: Option<ParsedNarrative>,
    input_tokens: u32,
    output_tokens: u32,
    cost_nanos: u64,
    provider: String,
) -> (r: NarrativeResult)
    ensures
        r.input_tokens == input_tokens,
        r.output_tokens == output_tokens,
        r.cost_nanos == cost_nanos,
        r.provider == provider,
        parsed matches Some(p) ==> {
            &&& (p.title matches Some(t) ==> r.title@ == t@)
            &&& (p.title is None ==> r.title@ == "Economic Report"@)
            &&& (p.executive_summary matches Some(s) ==> r.executive_summary@ == s@)
            &&& (p.executive_summary is None ==> r.executive_summary@
                == "Analysis of economic indicators."@)
            &&& (p.sections matches Some(s) ==> r.sections@ == s@)
            &&& (p.sections is None ==> r.sections@.len() == 0)
        },
        parsed is None ==> r.title@ == "Economic Report"@ && r.executive_summary@
            == content@.take(vstd::math::min(500, content@.len() as int)) && r.sections@.len() == 1
            && r.sections@[0].heading@ == "Analysis"@ && r.sections@[0].content@ == content@,
{
    match parsed {
        Some(p) => NarrativeResult {
            title: match p.title {
                Some(t) => t,
                None => "Economic Report".to_owned(),
            },
            executive_summary: match p.executive_summary {
                Some(s) => s,
                None => "Analysis of economic indicators.".to_owned(),
            },
            sections: match p.sections {
                Some(s) => s,
                None => Vec::new(),
            },
            input_tokens,
            output_tokens,
            cost_nanos,
            provider,
        },
        None => {
            let n = content.unicode_len();
            let cut = if n > 500 {
                500
            } else {
                n
            };
            let excerpt = content.substring_char(0, cut).to_owned();
            let mut sections: Vec<NarrativeSection> = Vec::new();
            sections.push(
                NarrativeSection { heading: "Analysis".to_owned(), content: content.to_owned() },
            );
            NarrativeResult {
                title: "Economic Report".to_owned(),
                executive_summary: excerpt,
                sections,
                input_tokens,
                output_tokens,
                cost_nanos,
                provider,
            }
        },
    }
}

/// The generate stage: ask the capable model for the structured narrative
/// built on the analysis, parsing the answer leniently. Fails only when the
/// LLM transport fails terminally.
pub fn generate<P: Provider, F: Provider, C: Clock, J: JsonCodec>(
    client: &mut LlmClient<P, F, C>,
    codec: &J,
    model: &str,
    data: &Vec<IndicatorData>,
    analysis: &AnalysisResult,
) -> (r: Result<NarrativeResult, AppError>)
    requires
        old(client).pricing.wf(),
    ensures
        final(client).same_setup(*old(client)),
        final(client).metrics.fallbacks == old(client).metrics.fallbacks || (old(client).fallback
            is Some && final(client).metrics.fallbacks == inc(old(client).metrics.fallbacks)),
        old(client).fallback is None ==> final(client).metrics.fallbacks == old(
            client,
        ).metrics.fallbacks,
        r matches Ok(nr) ==> (nr.provider@ == old(client).primary_provider@ || (old(
            client,
        ).fallback is Some && nr.provider@ == old(client).fallback_provider@)),
        r matches Err(e) ==> e is Llm,
{
    let list = build_indicator_list(data);
    let range = build_time_range(data);
    let analysis_json = codec.analysis_to_json(analysis);
    let prompt = narrative_prompt(list.as_str(), range.as_str(), analysis_json.as_str());
    let req = GenerateRequest {
        model: model.to_owned(),
        system:
            "You are an expert economic analyst writing structured reports. Write clear, data-driven narrative with specific numbers and dates. Be concise but thorough.".to_owned(),
        prompt,
        temperature_milli: 300,
        max_tokens: 4096,
        stage: "generate".to_owned(),
    };
    match client.generate(&req) {
        Ok(resp) => {
            let json = crate::text::extract_json(resp.content.as_str());
            let parsed = codec.parse_narrative(json.as_str());
            Ok(
                parse_narrative_response(
                    resp.content.as_str(),
                    parsed,
                    resp.input_tokens,
                    resp.output_tokens,
                    resp.cost_nanos,
                    resp.provider,
                ),
            )
        },
        Err(e) => Err(AppError::Llm(e.message)),
    }
}

} // verus!
