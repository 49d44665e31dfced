//! The analyze stage: build a compact textual summary of the retrieved
//! series (range, first/last, min/max/avg, January sample points), ask the
//! fast model for trends, correlations and key findings as JSON, and parse
//! the answer leniently — a malformed answer degrades to a raw-text excerpt
//! instead of failing the stage.

use crate::client::LlmClient;
use crate::codec::JsonCodec;
use crate::dates::date_str;
use crate::errors::AppError;
use crate::llm::{inc, Clock, GenerateRequest, Provider};
use crate::numfmt::{append_centi, append_u64, centi_str, dec_str};
use crate::retrieve::{DataPoint, IndicatorData};
use vstd::prelude::*;
use vstd::string::StrSliceExecFns;
use vstd::string::StringExecFns;

verus! {

/// Sum of the centi-unit values of a series.
pub open spec fn sum_centi(s: Seq<DataPoint>) -> int
    decreases s.len(),
{
    if s.len() == 0 {
        0
    } else {
        sum_centi(s.drop_last()) + s.last().value_centi
    }
}

/// Smallest centi-unit value of a series (zero for an empty one).
pub open spec fn min_centi(s: Seq<DataPoint>) -> int
    decreases s.len(),
{
    if s.len() == 0 {
        0
    } else if s.len() == 1 {
        s[0].value_centi as int
    } else {
        vstd::math::min(min_centi(s.drop_last()), s.last().value_centi as int)
    }
}

/// Largest centi-unit value of a series (zero for an empty one).
pub open spec fn max_centi(s: Seq<DataPoint>) -> int
    decreases s.len(),
{
    if s.len() == 0 {
        0
    } else if s.len() == 1 {
        s[0].value_centi as int
    } else {
        vstd::math::max(max_centi(s.drop_last()), s.last().value_centi as int)
    }
}

/// The truncated-toward-zero mean of a series, in centi-units.
pub open spec fn avg_centi(s: Seq<DataPoint>) -> int {
    let total = sum_centi(s);
    let n = s.len() as int;
    if n == 0 {
        0
    } else if total >= 0 {
        total / n
    } else {
        -((-total) / n)
    }
}

/// The sample line for one January observation.
pub open spec fn january_line(p: DataPoint) -> Seq<char> {
    "  "@ + date_str(p.observation_date) + ": "@ + centi_str(p.value_centi as int) + "\n"@
}

/// Sample lines for the January observations of a series, a compact trend
/// proxy in place of an exhaustive data dump.
pub open spec fn january_lines(s: Seq<DataPoint>) -> Seq<char>
    decreases s.len(),
{
    if s.len() == 0 {
        Seq::empty()
    } else {
        january_lines(s.drop_last()) + (if s.last().observation_date.month == 1 {
            january_line(s.last())
        } else {
            Seq::<char>::empty()
        })
    }
}

/// The statistics block of one indicator's summary; empty for a series with
/// no observations.
pub open spec fn stats_block(ind: IndicatorData) -> Seq<char> {
    let v = ind.values@;
    if v.len() == 0 {
        Seq::empty()
    } else {
        "Range: "@ + date_str(v[0].observation_date) + " to "@ + date_str(
            v.last().observation_date,
        ) + "\n"@ + "First value: "@ + centi_str(v[0].value_centi as int) + ", Last value: "@
            + centi_str(v.last().value_centi as int) + "\n"@ + "Data points: "@ + dec_str(v.len())
            + "\n"@ + "Min: "@ + centi_str(min_centi(v)) + ", Max: "@ + centi_str(max_centi(v))
            + ", Avg: "@ + centi_str(avg_centi(v)) + "\n"@ + january_lines(v)
    }
}

/// One indicator's section of the data summary.
pub open spec fn indicator_summary(ind: IndicatorData) -> Seq<char> {
    "\n## "@ + ind.name@ + " ("@ + ind.code@ + ")\n"@ + "Unit: "@ + ind.unit@ + ", Frequency: "@
        + ind.frequency@ + "\n"@ + stats_block(ind)
}

/// The whole data summary handed to the model.
pub open spec fn data_summary_spec(data: Seq<IndicatorData>) -> Seq<char>
    decreases data.len(),
{
    if data.len() == 0 {
        Seq::empty()
    } else {
        data_summary_spec(data.drop_last()) + indicator_summary(data.last())
    }
}

proof fn lemma_min_max_sum_push(s: Seq<DataPoint>, i: int)
    requires
        1 <= i < s.len(),
    ensures
        min_centi(s.take(i + 1)) == vstd::math::min(min_centi(s.take(i)), s[i].value_centi as int),
        max_centi(s.take(i + 1)) == vstd::math::max(max_centi(s.take(i)), s[i].value_centi as int),
        sum_centi(s.take(i + 1)) == sum_centi(s.take(i)) + s[i].value_centi,
{
    assert(s.take(i + 1).drop_last() =~= s.take(i));
    assert(s.take(i + 1).last() == s[i]);
}

/// Minimum, maximum and sum of a non-empty series, in one pass.
fn min_max_sum(values: &Vec<DataPoint>) -> (r: (i64, i64, i128))
    requires
        values@.len() > 0,
    ensures
        r.0 == min_centi(values@),
        r.1 == max_centi(values@),
        r.2 == sum_centi(values@),
        -(values@.len() as int) * 0x8000_0000_0000_0000 <= r.2 <= (values@.len() as int)
            * 0x7fff_ffff_ffff_ffff,
{
    let n = values.len();
    let mut lo: i64 = values[0].value_centi;
    let mut hi: i64 = values[0].value_centi;
    let mut total: i128 = values[0].value_centi as i128;
    let mut i: usize = 1;
    proof {
        assert(values@.take(1).drop_last() =~= Seq::<DataPoint>::empty());
        assert(values@.take(1).last() == values@[0]);
        assert(values@.take(1).len() == 1);
        assert(values@.take(1)[0] == values@[0]);
        assert(sum_centi(Seq::<DataPoint>::empty()) == 0);
        assert(sum_centi(values@.take(1)) == values@[0].value_centi);
        assert(min_centi(values@.take(1)) == values@[0].value_centi);
        assert(max_centi(values@.take(1)) == values@[0].value_centi);
    }
    while i < n
        invariant
            1 <= i <= n,
            n == values@.len(),
            lo == min_centi(values@.take(i as int)),
            hi == max_centi(values@.take(i as int)),
            total == sum_centi(values@.take(i as int)),
            -(i as int) * 0x8000_0000_0000_0000 <= total <= (i as int) * 0x7fff_ffff_ffff_ffff,
        decreases n - i,
    {
        proof {
            lemma_min_max_sum_push(values@, i as int);
        }
        let v = values[i].value_centi;
        if v < lo {
            lo = v;
        }
        if v > hi {
            hi = v;
        }
        total = total + (v as i128);
        i = i + 1;
    }
    proof {
        assert(values@.take(n as int) =~= values@);
    }
    (lo, hi, total)
}

/// The truncated mean from a series' sum and length.
fn avg_from_sum(total: i128, n: usize, ghost_values: Ghost<Seq<DataPoint>>) -> (r: i64)
    requires
        n == ghost_values@.len(),
        n > 0,
        total == sum_centi(ghost_values@),
        -(n as int) * 0x8000_0000_0000_0000 <= total <= (n as int) * 0x7fff_ffff_ffff_ffff,
    ensures
        r == avg_centi(ghost_values@),
{
    if total >= 0 {
        let q = (total as u128) / (n as u128);
        proof {
            vstd::arithmetic::div_mod::lemma_div_is_ordered(
                total as int,
                (n as int) * 0x7fff_ffff_ffff_ffff,
                n as int,
            );
            vstd::arithmetic::div_mod::lemma_div_multiples_vanish(0x7fff_ffff_ffff_ffff, n as int);
        }
        q as i64
    } else {
        let pos = (-total) as u128;
        let q = pos / (n as u128);
        proof {
            vstd::arithmetic::div_mod::lemma_div_is_ordered(
                pos as int,
                (n as int) * 0x8000_0000_0000_0000,
                n as int,
            );
            vstd::arithmetic::div_mod::lemma_div_multiples_vanish(0x8000_0000_0000_0000, n as int);
        }
        if q == 0x8000_0000_0000_0000u128 {
            i64::MIN
        } else {
            -(q as i64)
        }
    }
}

/// The statistics block of one indicator, as a fresh string.
fn build_stats_block(ind: &IndicatorData) -> (r: String)
    ensures
        r@ == stats_block(*ind),
{
    let mut block = String::new();
    let n = ind.values.len();
    if n == 0 {
        proof {
            assert(block@ =~= stats_block(*ind));
        }
        return block;
    }
    let first = &ind.values[0];
    let last = &ind.values[n - 1];
    proof {
        assert(ind.values@.last() == ind.values@[n - 1]);
    }
    block.append("Range: ");
    proof {
        assert(Seq::<char>::empty() + "Range: "@ =~= "Range: "@);
    }
    let fd = crate::dates::format_date(&first.observation_date);
    block.append(fd.as_str());
    block.append(" to ");
    let ld = crate::dates::format_date(&last.observation_date);
    block.append(ld.as_str());
    block.append("\n");
    block.append("First value: ");
    append_centi(&mut block, first.value_centi);
    block.append(", Last value: ");
    append_centi(&mut block, last.value_centi);
    block.append("\n");
    block.append("Data points: ");
    append_u64(&mut block, n as u64);
    block.append("\n");
    let (lo, hi, total) = min_max_sum(&ind.values);
    let avg = avg_from_sum(total, n, Ghost(ind.values@));
    block.append("Min: ");
    append_centi(&mut block, lo);
    block.append(", Max: ");
    append_centi(&mut block, hi);
    block.append(", Avg: ");
    append_centi(&mut block, avg);
    block.append("\n");
    let ghost base = block@;
    let mut i: usize = 0;
    proof {
        assert(ind.values@.take(0) =~= Seq::<DataPoint>::empty());
        assert(base + january_lines(ind.values@.take(0)) =~= base);
    }
    while i < n
        invariant
            0 <= i <= n,
            n == ind.values@.len(),
            block@ == base + january_lines(ind.values@.take(i as int)),
        decreases n - i,
    {
        proof {
            assert(ind.values@.take(i as int + 1).drop_last() =~= ind.values@.take(i as int));
            assert(ind.values@.take(i as int + 1).last() == ind.values@[i as int]);
        }
        let p = &ind.values[i];
        if p.observation_date.month == 1 {
            block.append("  ");
            let pd = crate::dates::format_date(&p.observation_date);
            block.append(pd.as_str());
            block.append(": ");
            append_centi(&mut block, p.value_centi);
            block.append("\n");
            proof {
                assert(block@ =~= base + january_lines(ind.values@.take(i as int + 1)));
            }
        } else {
            proof {
                assert(block@ + Seq::<char>::empty() =~= block@);
            }
        }
        i = i + 1;
    }
    proof {
        assert(ind.values@.take(n as int) =~= ind.values@);
    }
    block
}

/// Append one indicator's summary section to `out`.
fn append_indicator_summary(out: &mut String, ind: &IndicatorData)
    ensures
        final(out)@ == old(out)@ + indicator_summary(*ind),
{
    let mut section = String::new();
    section.append("\n## ");
    proof {
        assert(Seq::<char>::empty() + "\n## "@ =~= "\n## "@);
    }
    section.append(ind.name.as_str());
    section.append(" (");
    section.append(ind.code.as_str());
    section.append(")\n");
    section.append("Unit: ");
    section.append(ind.unit.as_str());
    section.append(", Frequency: ");
    section.append(ind.frequency.as_str());
    section.append("\n");
    let block = build_stats_block(ind);
    section.append(block.as_str());
    out.append(section.as_str());
}

/// Build the textual summary of all retrieved series.
pub fn build_data_summary(data: &Vec<IndicatorData>) -> (r: String)
    ensures
        r@ == data_summary_spec(data@),
{
    let mut out = String::new();
    let n = data.len();
    let mut i: usize = 0;
    proof {
        assert(data@.take(0) =~= Seq::<IndicatorData>::empty());
    }
    while i < n
        invariant
            0 <= i <= n,
            n == data@.len(),
            out@ == data_summary_spec(data@.take(i as int)),
        decreases n - i,
    {
        proof {
            assert(data@.take(i as int + 1).drop_last() =~= data@.take(i as int));
            assert(data@.take(i as int + 1).last() == data@[i as int]);
        }
        append_indicator_summary(&mut out, &data[i]);
        i = i + 1;
    }
    proof {
        assert(data@.take(n as int) =~= data@);
    }
    out
}

/// The fixed instruction that precedes the data summary in the analysis
/// prompt.
pub open spec fn analysis_prompt_prefix() -> Seq<char> {
    "Analyze the following economic data and identify trends, correlations, and key findings.\nReturn your analysis as JSON with this exact structure:\n{\n  \"trends\": [{\"indicator\": \"CODE\", \"direction\": \"increasing|decreasing|stable|volatile\", \"description\": \"...\"}],\n  \"correlations\": [\"description of correlation between indicators\"],\n  \"key_findings\": [\"important insight 1\", \"important insight 2\"]\n}\n\nDATA:\n"@
}

/// The analysis prompt: the fixed instruction followed by the data summary.
pub fn analysis_prompt(data_summary: &str) -> (r: String)
    ensures
        r@ == analysis_prompt_prefix() + data_summary@,
{
    let mut p = String::new();
    p.append(
        "Analyze the following economic data and identify trends, correlations, and key findings.\nReturn your analysis as JSON with this exact structure:\n{\n  \"trends\": [{\"indicator\": \"CODE\", \"direction\": \"increasing|decreasing|stable|volatile\", \"description\": \"...\"}],\n  \"correlations\": [\"description of correlation between indicators\"],\n  \"key_findings\": [\"important insight 1\", \"important insight 2\"]\n}\n\nDATA:\n",
    );
    p.append(data_summary);
    p
}

/// One trend the model reports for an indicator.
#[derive(Clone, Debug)]
pub struct Trend {
    pub indicator: String,
    pub direction: String,
    pub description: String,
}

/// The fields a well-formed analysis answer may carry; each is optional in
/// the model's JSON.
#[derive(Clone, Debug)]
pub struct ParsedAnalysis {
    pub trends: Option<Vec<Trend>>,
    pub correlations: Option<Vec<String>>,
    pub key_findings: Option<Vec<String>>,
}

/// The analyze stage's structured output with the accounting of the call
/// that produced it.
#[derive(Clone, Debug)]
pub struct AnalysisResult {
    pub trends: Vec<Trend>,
    pub correlations: Vec<String>,
    pub key_findings: Vec<String>,
    pub input_tokens: u32,
    pub output_tokens: u32,
    pub cost_nanos: u64,
    pub provider: String,
}

/// Assemble the stage output from a lenient parse of the model's text:
/// missing fields default to empty, and an unparsable answer degrades to a
/// single key finding holding the first five hundred characters of the raw
/// text.
pub fn parse_analysis_response(
    content: &str,
    parsed: Option<ParsedAnalysis>,
    input_tokens: u32,
    output_tokens: u32,
    cost_nanos: u64,
    provider: String,
) -> (r: AnalysisResult)
    ensures
        r.input_tokens == input_tokens,
        r.output_tokens == output_tokens,
        r.cost_nanos == cost_nanos,
        r.provider == provider,
        parsed matches Some(p) ==> {
            &&& (p.trends matches Some(t) ==> r.trends@ == t@)
            &&& (p.trends is None ==> r.trends@.len() == 0)
            &&& (p.correlations matches Some(c) ==> r.correlations@ == c@)
            &&& (p.correlations is None ==> r.correlations@.len() == 0)
            &&& (p.key_findings matches Some(k) ==> r.key_findings@ == k@)
            &&& (p.key_findings is None ==> r.key_findings@.len() == 0)
        },
        parsed is None ==> r.trends@.len() == 0 && r.correlations@.len() == 0
            && r.key_findings@.len() == 1 && r.key_findings@[0]@ == content@.take(
            vstd::math::min(500, content@.len() as int),
        ),
{
    match parsed {
        Some(p) => AnalysisResult {
            trends: match p.trends {
                Some(t) => t,
                None => Vec::new(),
            },
            correlations: match p.correlations {
                Some(c) => c,
                None => Vec::new(),
            },
            key_findings: match p.key_findings {
                Some(k) => k,
                None => Vec::new(),
            },
            input_tokens,
            output_tokens,
            cost_nanos,
            provider,
        },
        None => {
            let n = content.unicode_len();
            let cut = if n > 500 {
                500
            } else {
                n
            };
            let excerpt = content.substring_char(0, cut).to_owned();
            let mut key_findings: Vec<String> = Vec::new();
            key_findings.push(excerpt);
            AnalysisResult {
                trends: Vec::new(),
                correlations: Vec::new(),
                key_findings,
                input_tokens,
                output_tokens,
                cost_nanos,
                provider,
            }
        },
    }
}

/// The analyze stage: summarize the data, ask the fast model for structured
/// findings, and parse the answer leniently. Fails only when the LLM
/// transport fails terminally.
pub fn analyze<P: Provider, F: Provider, C: Clock, J: JsonCodec>(
    client: &mut LlmClient<P, F, C>,
    codec: &J,
    model: &str,
    data: &Vec<IndicatorData>,
    system_context: &str,
) -> (r: Result<AnalysisResult, AppError>)
    requires
        old(client).pricing.wf(),
    ensures
        final(client).same_setup(*old(client)),
        final(client).metrics.fallbacks == old(client).metrics.fallbacks || (old(client).fallback
            is Some && final(client).metrics.fallbacks == inc(old(client).metrics.fallbacks)),
        old(client).fallback is None ==> final(client).metrics.fallbacks == old(
            client,
        ).metrics.fallbacks,
        r matches Ok(a) ==> (a.provider@ == old(client).primary_provider@ || (old(client).fallback
            is Some && a.provider@ == old(client).fallback_provider@)),
        r matches Err(e) ==> e is Llm,
{
    let summary = build_data_summary(data);
    let prompt = analysis_prompt(summary.as_str());
    let req = GenerateRequest {
        model: model.to_owned(),
        system: system_context.to_owned(),
        prompt,
        temperature_milli: 300,
        max_tokens: 2048,
        stage: "analyze".to_owned(),
    };
    match client.generate(&req) {
        Ok(resp) => {
            let json = crate::text::extract_json(resp.content.as_str());
            let parsed = codec.parse_analysis(json.as_str());
            Ok(
                parse_analysis_response(
                    resp.content.as_str(),
                    parsed,
                    resp.input_tokens,
                    resp.output_tokens,
                    resp.cost_nanos,
                    resp.provider,
                ),
            )
        },
        Err(e) => Err(AppError::Llm(e.message)),
    }
}

} // verus!
