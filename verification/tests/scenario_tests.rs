use report_gen::analyze::{AnalysisResult, ParsedAnalysis, Trend};
use report_gen::client::LlmClient;
use report_gen::codec::JsonCodec;
use report_gen::dates::Date;
use report_gen::errors::AppError;
use report_gen::generate::{NarrativeSection, ParsedNarrative};
use report_gen::llm::{ClientMetrics, Clock, GenerateRequest, GenerateResponse, Provider};
use report_gen::orchestrator::{generate_report, ReportRequest};
use report_gen::pricing::PricingTable;
use report_gen::retrieve::{DataPoint, IndicatorData};

struct ScriptProvider {
    outcomes: Vec<Result<GenerateResponse, String>>,
    calls: usize,
}

impl Provider for ScriptProvider {
    fn generate(&mut self, _req: &GenerateRequest) -> Result<GenerateResponse, String> {
        self.calls += 1;
        if self.outcomes.is_empty() {
            Err("script exhausted".to_string())
        } else {
            self.outcomes.remove(0)
        }
    }

    fn name(&self) -> String {
        "script".to_string()
    }
}

struct TestClock {
    now: u64,
}

impl Clock for TestClock {
    fn now_ms(&mut self) -> u64 {
        self.now += 10;
        self.now
    }

    fn sleep_ms(&mut self, _ms: u64) {}
}

// A codec that understands only the exact shapes these scenarios feed it.
struct TestCodec;

impl JsonCodec for TestCodec {
    fn parse_analysis(&self, json: &str) -> Option<ParsedAnalysis> {
        let v: serde_json::Value = serde_json::from_str(json).ok()?;
        if !v.is_object() {
            return None;
        }
        let trends = match v.get("trends") {
            None | Some(serde_json::Value::Null) => None,
            Some(serde_json::Value::Array(items)) => {
                let mut out = Vec::new();
                for item in items {
                    out.push(Trend {
                        indicator: item.get("indicator")?.as_str()?.to_string(),
                        direction: item.get("direction")?.as_str()?.to_string(),
                        description: item.get("description")?.as_str()?.to_string(),
                    });
                }
                Some(out)
            }
            Some(_) => return None,
        };
        let key_findings = match v.get("key_findings") {
            None | Some(serde_json::Value::Null) => None,
            Some(serde_json::Value::Array(items)) => {
                let mut out = Vec::new();
                for item in items {
                    out.push(item.as_str()?.to_string());
                }
                Some(out)
            }
            Some(_) => return None,
        };
        Some(ParsedAnalysis {
            trends,
            correlations: None,
            key_findings,
        })
    }

    fn parse_narrative(&self, json: &str) -> Option<ParsedNarrative> {
        let v: serde_json::Value = serde_json::from_str(json).ok()?;
        if !v.is_object() {
            return None;
        }
        let title = match v.get("title") {
            None | Some(serde_json::Value::Null) => None,
            Some(serde_json::Value::String(s)) => Some(s.clone()),
            Some(_) => return None,
        };
        let executive_summary = match v.get("executive_summary") {
            None | Some(serde_json::Value::Null) => None,
            Some(serde_json::Value::String(s)) => Some(s.clone()),
            Some(_) => return None,
        };
        let sections = match v.get("sections") {
            None | Some(serde_json::Value::Null) => None,
            Some(serde_json::Value::Array(items)) => {
                let mut out = Vec::new();
                for item in items {
                    out.push(NarrativeSection {
                        heading: item.get("heading")?.as_str()?.to_string(),
                        content: item.get("content")?.as_str()?.to_string(),
                    });
                }
                Some(out)
            }
            Some(_) => return None,
        };
        Some(ParsedNarrative {
            title,
            executive_summary,
            sections,
        })
    }

    fn analysis_to_json(&self, _analysis: &AnalysisResult) -> String {
        "{}".to_string()
    }
}

fn ok_resp(model: &str, content: &str) -> Result<GenerateResponse, String> {
    Ok(GenerateResponse {
        content: content.to_string(),
        model: model.to_string(),
        input_tokens: 100,
        output_tokens: 40,
        cost_nanos: 0,
        finish_reason: "stop".to_string(),
        provider: String::new(),
    })
}

fn gdp_data() -> Vec<IndicatorData> {
    vec![IndicatorData {
        code: "GDP".to_string(),
        name: "Gross Domestic Product".to_string(),
        unit: "Billions".to_string(),
        frequency: "Quarterly".to_string(),
        values: vec![DataPoint {
            observation_date: Date {
                year: 2023,
                month: 1,
                day: 1,
            },
            value_centi: 2712345,
        }],
    }]
}

fn gdp_request() -> ReportRequest {
    ReportRequest {
        indicators: vec!["GDP".to_string()],
        start_date: Date {
            year: 2023,
            month: 1,
            day: 1,
        },
        end_date: Date {
            year: 2023,
            month: 12,
            day: 31,
        },
    }
}

fn fresh_client(
    primary: Vec<Result<GenerateResponse, String>>,
    fallback: Option<Vec<Result<GenerateResponse, String>>>,
) -> LlmClient<ScriptProvider, ScriptProvider, TestClock> {
    let mut pricing = PricingTable::new();
    assert!(pricing.insert("gpt-4.1".to_string(), 2_000, 8_000));
    assert!(pricing.insert("gpt-4.1-mini".to_string(), 400, 1_600));
    assert!(pricing.insert("anthropic-small-v1".to_string(), 1_000, 5_000));
    LlmClient {
        primary: ScriptProvider {
            outcomes: primary,
            calls: 0,
        },
        fallback: fallback.map(|outcomes| ScriptProvider { outcomes, calls: 0 }),
        primary_provider: "openai".to_string(),
        fallback_provider: "anthropic".to_string(),
        fallback_model: "anthropic-small-v1".to_string(),
        pricing,
        clock: TestClock { now: 0 },
        metrics: ClientMetrics::new(),
    }
}

const ANALYSIS_JSON: &str = r#"{"trends": [{"indicator": "GDP", "direction": "increasing", "description": "up"}], "key_findings": ["grew"]}"#;
const NARRATIVE_JSON: &str = r#"{"title": "GDP Report", "executive_summary": "Growth.", "sections": [{"heading": "Overview", "content": "GDP grew."}]}"#;

#[test]
fn test_pipeline_happy_path_assembles_report() {
    let mut client = fresh_client(
        vec![
            ok_resp("gpt-4.1-mini", ANALYSIS_JSON),
            ok_resp("gpt-4.1", NARRATIVE_JSON),
        ],
        None,
    );
    let report = generate_report(
        &mut client,
        &TestCodec,
        "gpt-4.1",
        "gpt-4.1-mini",
        "schema context",
        &gdp_request(),
        gdp_data(),
        "trace-1".to_string(),
    )
    .unwrap();
    assert_eq!(report.title, "GDP Report");
    assert_eq!(report.executive_summary, "Growth.");
    assert_eq!(report.sections.len(), 1);
    assert_eq!(report.indicators_used, vec!["GDP"]);
    assert_eq!(report.total_data_points, 1);
    assert_eq!(report.total_tokens, 100 + 40 + 100 + 40);
    // Analyze priced as gpt-4.1-mini, narrative as gpt-4.1.
    assert_eq!(
        report.total_cost_nanos,
        (100 * 400 + 40 * 1_600) + (100 * 2_000 + 40 * 8_000)
    );
    assert_eq!(report.providers_used, vec!["openai"]);
    assert_eq!(report.trace_id, "trace-1");
    assert_eq!(report.id.len(), 36);
    assert_eq!(client.metrics.fallbacks, 0);
}

#[test]
fn test_analyze_fallback_serves_report_and_counts_once_per_call() {
    // The analyze stage's primary fails its whole budget, the fallback
    // serves it; the generate stage's primary then succeeds.
    let mut client = fresh_client(
        vec![
            Err("503 service unavailable".to_string()),
            Err("503 service unavailable".to_string()),
            Err("503 service unavailable".to_string()),
            ok_resp("gpt-4.1", NARRATIVE_JSON),
        ],
        Some(vec![ok_resp("anthropic-small-v1", ANALYSIS_JSON)]),
    );
    let report = generate_report(
        &mut client,
        &TestCodec,
        "gpt-4.1",
        "gpt-4.1-mini",
        "schema context",
        &gdp_request(),
        gdp_data(),
        "trace-2".to_string(),
    )
    .unwrap();
    // The analyze call escalated exactly once.
    assert_eq!(client.metrics.fallbacks, 1);
    assert_eq!(report.providers_used, vec!["anthropic", "openai"]);
}

#[test]
fn test_primary_down_entirely_report_names_only_fallback() {
    // Every primary attempt of both stages fails; the fallback serves both
    // calls, so the report names exactly the fallback provider, once.
    let mut client = fresh_client(
        vec![],
        Some(vec![
            ok_resp("anthropic-small-v1", ANALYSIS_JSON),
            ok_resp("anthropic-small-v1", NARRATIVE_JSON),
        ]),
    );
    let report = generate_report(
        &mut client,
        &TestCodec,
        "gpt-4.1",
        "gpt-4.1-mini",
        "schema context",
        &gdp_request(),
        gdp_data(),
        "trace-3".to_string(),
    )
    .unwrap();
    assert_eq!(report.providers_used, vec!["anthropic"]);
    assert!(!report.providers_used.contains(&"openai".to_string()));
    // One escalation per logical generation call.
    assert_eq!(client.metrics.fallbacks, 2);
    // Both calls priced at the fallback model's rates.
    assert_eq!(report.total_cost_nanos, 2 * (100 * 1_000 + 40 * 5_000));
}

#[test]
fn test_no_data_fails_before_any_llm_call() {
    let mut client = fresh_client(
        vec![ok_resp("gpt-4.1-mini", ANALYSIS_JSON)],
        Some(vec![ok_resp("anthropic-small-v1", NARRATIVE_JSON)]),
    );
    let result = generate_report(
        &mut client,
        &TestCodec,
        "gpt-4.1",
        "gpt-4.1-mini",
        "schema context",
        &gdp_request(),
        Vec::new(),
        "trace-4".to_string(),
    );
    match result {
        Err(AppError::Pipeline(m)) => {
            assert_eq!(m, "No data found for requested indicators");
        }
        _ => panic!("expected the no-data pipeline error"),
    }
    assert_eq!(client.primary.calls, 0);
    assert_eq!(client.fallback.as_ref().unwrap().calls, 0);
    assert_eq!(client.metrics, ClientMetrics::new());
}

#[test]
fn test_title_only_narrative_gets_defaults_without_failing() {
    let mut client = fresh_client(
        vec![
            ok_resp("gpt-4.1-mini", ANALYSIS_JSON),
            ok_resp("gpt-4.1", r#"{"title":"Partial Report"}"#),
        ],
        None,
    );
    let report = generate_report(
        &mut client,
        &TestCodec,
        "gpt-4.1",
        "gpt-4.1-mini",
        "schema context",
        &gdp_request(),
        gdp_data(),
        "trace-5".to_string(),
    )
    .unwrap();
    assert_eq!(report.title, "Partial Report");
    assert_eq!(report.executive_summary, "Analysis of economic indicators.");
    assert!(report.sections.is_empty());
}

#[test]
fn test_exhausted_retries_without_fallback_fail_the_stage() {
    let mut client = fresh_client(vec![], None);
    let result = generate_report(
        &mut client,
        &TestCodec,
        "gpt-4.1",
        "gpt-4.1-mini",
        "schema context",
        &gdp_request(),
        gdp_data(),
        "trace-6".to_string(),
    );
    match result {
        Err(AppError::Llm(m)) => {
            assert!(m.starts_with("primary provider openai failed after retries: "));
        }
        _ => panic!("expected a terminal LLM error"),
    }
    assert_eq!(client.primary.calls, 3);
}
