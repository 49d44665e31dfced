use report_gen::analyze::{analysis_prompt, build_data_summary};
use report_gen::dates::{format_date, parse_date, Date};
use report_gen::generate::{build_indicator_list, build_time_range};
use report_gen::numfmt::{centi_to_string, u64_to_string};
use report_gen::orchestrator::{validate_report_request, CreateReportBody, ListQuery};
use report_gen::retrieve::{DataPoint, Indicator, IndicatorData};
use report_gen::web::{bearer_token, claims_for, AuthUser, NotificationPayload, OptionalAuthUser};

#[test]
fn test_u64_to_string() {
    assert_eq!(u64_to_string(0), "0");
    assert_eq!(u64_to_string(7), "7");
    assert_eq!(u64_to_string(12345), "12345");
    assert_eq!(u64_to_string(u64::MAX), "18446744073709551615");
}

#[test]
fn test_centi_to_string() {
    assert_eq!(centi_to_string(123456), "1234.56");
    assert_eq!(centi_to_string(5), "0.05");
    assert_eq!(centi_to_string(100), "1.00");
    assert_eq!(centi_to_string(0), "0.00");
    assert_eq!(centi_to_string(-325), "-3.25");
    assert_eq!(centi_to_string(-5), "-0.05");
}

#[test]
fn test_format_date_pads() {
    assert_eq!(
        format_date(&Date {
            year: 2023,
            month: 1,
            day: 9
        }),
        "2023-01-09"
    );
    assert_eq!(
        format_date(&Date {
            year: 5,
            month: 12,
            day: 31
        }),
        "0005-12-31"
    );
}

#[test]
fn test_parse_date_accepts_real_days() {
    assert_eq!(
        parse_date("2024-02-29"),
        Some(Date {
            year: 2024,
            month: 2,
            day: 29
        })
    );
    assert_eq!(
        parse_date("2023-12-31"),
        Some(Date {
            year: 2023,
            month: 12,
            day: 31
        })
    );
}

#[test]
fn test_parse_date_rejects_malformed_and_impossible() {
    assert_eq!(parse_date("2023-02-29"), None); // not a leap year
    assert_eq!(parse_date("1900-02-29"), None); // century rule
    assert_eq!(parse_date("2000-02-29"), Some(Date { year: 2000, month: 2, day: 29 }));
    assert_eq!(parse_date("2023-13-01"), None);
    assert_eq!(parse_date("2023-00-10"), None);
    assert_eq!(parse_date("2023-04-31"), None);
    assert_eq!(parse_date("2023-1-01"), None);
    assert_eq!(parse_date("2023/01/01"), None);
    assert_eq!(parse_date(""), None);
    assert_eq!(parse_date("not a date!"), None);
}

#[test]
fn test_date_roundtrip() {
    let d = parse_date("1987-06-05").unwrap();
    assert_eq!(format_date(&d), "1987-06-05");
}

#[test]
fn test_list_query_defaults() {
    let query = ListQuery {
        limit: None,
        offset: None,
    };
    assert_eq!(query.effective(), (20, 0));
}

#[test]
fn test_list_query_with_values() {
    let query = ListQuery {
        limit: Some(10),
        offset: Some(5),
    };
    assert_eq!(query.effective(), (10, 5));
}

#[test]
fn test_create_report_body_deserialize() {
    let v: serde_json::Value = serde_json::from_str(
        r#"{"indicators": ["UNRATE", "CPIAUCSL"], "start_date": "2020-01-01", "end_date": "2023-12-31"}"#,
    )
    .unwrap();
    let body = CreateReportBody {
        indicators: v["indicators"]
            .as_array()
            .unwrap()
            .iter()
            .map(|i| i.as_str().unwrap().to_string())
            .collect(),
        start_date: v["start_date"].as_str().unwrap().to_string(),
        end_date: v["end_date"].as_str().unwrap().to_string(),
    };
    assert_eq!(body.indicators, vec!["UNRATE", "CPIAUCSL"]);
    assert_eq!(body.start_date, "2020-01-01");
    assert_eq!(body.end_date, "2023-12-31");
    let req = validate_report_request(&body).unwrap();
    assert_eq!(req.indicators, vec!["UNRATE", "CPIAUCSL"]);
    assert_eq!(
        req.start_date,
        Date {
            year: 2020,
            month: 1,
            day: 1
        }
    );
}

#[test]
fn test_create_report_body_empty_indicators() {
    let body = CreateReportBody {
        indicators: vec![],
        start_date: "2020-01-01".to_string(),
        end_date: "2023-12-31".to_string(),
    };
    assert!(body.indicators.is_empty());
    match validate_report_request(&body) {
        Err(report_gen::errors::AppError::Validation(m)) => {
            assert_eq!(m, "indicators must not be empty");
        }
        _ => panic!("expected a validation error"),
    }
}

#[test]
fn test_validate_report_request_date_errors() {
    let bad_start = CreateReportBody {
        indicators: vec!["GDP".to_string()],
        start_date: "01-01-2020".to_string(),
        end_date: "2023-12-31".to_string(),
    };
    match validate_report_request(&bad_start) {
        Err(report_gen::errors::AppError::Validation(m)) => {
            assert_eq!(m, "invalid start_date format, use YYYY-MM-DD");
        }
        _ => panic!("expected a validation error"),
    }
    let bad_end = CreateReportBody {
        indicators: vec!["GDP".to_string()],
        start_date: "2020-01-01".to_string(),
        end_date: "2023-13-31".to_string(),
    };
    match validate_report_request(&bad_end) {
        Err(report_gen::errors::AppError::Validation(m)) => {
            assert_eq!(m, "invalid end_date format, use YYYY-MM-DD");
        }
        _ => panic!("expected a validation error"),
    }
    let reversed = CreateReportBody {
        indicators: vec!["GDP".to_string()],
        start_date: "2023-12-31".to_string(),
        end_date: "2020-01-01".to_string(),
    };
    match validate_report_request(&reversed) {
        Err(report_gen::errors::AppError::Validation(m)) => {
            assert_eq!(m, "start_date must be before end_date");
        }
        _ => panic!("expected a validation error"),
    }
    let equal = CreateReportBody {
        indicators: vec!["GDP".to_string()],
        start_date: "2020-01-01".to_string(),
        end_date: "2020-01-01".to_string(),
    };
    assert!(validate_report_request(&equal).is_err());
}

#[test]
fn test_claims_for() {
    let c = claims_for(7, 1_700_000_000, 24);
    assert_eq!(c.sub, 7);
    assert_eq!(c.iat, 1_700_000_000);
    assert_eq!(c.exp, 1_700_000_000 + 24 * 3600);
}

#[test]
fn test_claims_serialization() {
    let claims = claims_for(42, 1_700_000_000, 24);
    let mut obj = serde_json::Map::new();
    obj.insert(
        "sub".to_string(),
        serde_json::Value::Number(claims.sub.into()),
    );
    obj.insert(
        "exp".to_string(),
        serde_json::Value::Number(claims.exp.into()),
    );
    obj.insert(
        "iat".to_string(),
        serde_json::Value::Number(claims.iat.into()),
    );
    let json = serde_json::Value::Object(obj).to_string();
    let v: serde_json::Value = serde_json::from_str(&json).expect("deserialization should succeed");
    let parsed = report_gen::web::Claims {
        sub: v["sub"].as_i64().unwrap() as i32,
        exp: v["exp"].as_i64().unwrap(),
        iat: v["iat"].as_i64().unwrap(),
    };
    assert_eq!(claims.sub, parsed.sub);
    assert_eq!(claims.exp, parsed.exp);
    assert_eq!(claims.iat, parsed.iat);
}

#[test]
fn test_bearer_token() {
    assert_eq!(bearer_token("Bearer abc.def.ghi"), Some("abc.def.ghi".to_string()));
    assert_eq!(bearer_token("Bearer "), Some(String::new()));
    assert_eq!(bearer_token("Token abc"), None);
    assert_eq!(bearer_token("bearer abc"), None);
    assert_eq!(bearer_token(""), None);
}

#[test]
fn test_register_input_deserialization() {
    let json = r#"{"email": "new@example.com", "password": "secret123", "name": "New User"}"#;
    let v: serde_json::Value = serde_json::from_str(json).expect("deserialization should succeed");
    let input = report_gen::web::RegisterInput {
        email: v["email"].as_str().unwrap().to_string(),
        password: v["password"].as_str().unwrap().to_string(),
        name: v["name"].as_str().unwrap().to_string(),
    };

    assert_eq!(input.email, "new@example.com");
    assert_eq!(input.password, "secret123");
    assert_eq!(input.name, "New User");
}

#[test]
fn test_login_input_deserialization() {
    let json = r#"{"email": "test@example.com", "password": "secret123"}"#;
    let v: serde_json::Value = serde_json::from_str(json).expect("deserialization should succeed");
    let input = report_gen::web::LoginInput {
        email: v["email"].as_str().unwrap().to_string(),
        password: v["password"].as_str().unwrap().to_string(),
    };

    assert_eq!(input.email, "test@example.com");
    assert_eq!(input.password, "secret123");
}

#[test]
fn test_auth_user_shapes() {
    let a = AuthUser(12);
    assert_eq!(a.0, 12);
    let o = OptionalAuthUser(None);
    assert!(o.0.is_none());
    let n = NotificationPayload {
        article_id: 3,
        title: "New article".to_string(),
    };
    assert_eq!(n.article_id, 3);
    let ind = Indicator {
        id: 1,
        code: "GDP".to_string(),
        name: "Gross Domestic Product".to_string(),
        frequency: "Quarterly".to_string(),
        unit: "Billions".to_string(),
        description: None,
    };
    assert_eq!(ind.code, "GDP");
}

fn sample_indicator() -> IndicatorData {
    IndicatorData {
        code: "GDP".to_string(),
        name: "Gross Domestic Product".to_string(),
        unit: "Billions".to_string(),
        frequency: "Quarterly".to_string(),
        values: vec![
            DataPoint {
                observation_date: Date {
                    year: 2020,
                    month: 1,
                    day: 1,
                },
                value_centi: 123456,
            },
            DataPoint {
                observation_date: Date {
                    year: 2020,
                    month: 4,
                    day: 1,
                },
                value_centi: 130000,
            },
        ],
    }
}

#[test]
fn test_build_data_summary_exact_text() {
    let summary = build_data_summary(&vec![sample_indicator()]);
    let expected = "\n## Gross Domestic Product (GDP)\n\
                    Unit: Billions, Frequency: Quarterly\n\
                    Range: 2020-01-01 to 2020-04-01\n\
                    First value: 1234.56, Last value: 1300.00\n\
                    Data points: 2\n\
                    Min: 1234.56, Max: 1300.00, Avg: 1267.28\n  2020-01-01: 1234.56\n";
    assert_eq!(summary, expected);
}

#[test]
fn test_build_data_summary_empty_series_has_no_stats() {
    let ind = IndicatorData {
        code: "X".to_string(),
        name: "Empty".to_string(),
        unit: "U".to_string(),
        frequency: "F".to_string(),
        values: vec![],
    };
    let summary = build_data_summary(&vec![ind]);
    assert_eq!(summary, "\n## Empty (X)\nUnit: U, Frequency: F\n");
}

#[test]
fn test_analysis_prompt_wraps_summary() {
    let p = analysis_prompt("SUMMARY-HERE");
    assert!(p.starts_with("Analyze the following economic data"));
    assert!(p.ends_with("DATA:\nSUMMARY-HERE"));
    assert!(p.contains("\"trends\""));
}

#[test]
fn test_indicator_list_and_time_range() {
    let data = vec![sample_indicator(), {
        let mut other = sample_indicator();
        other.code = "CPI".to_string();
        other.name = "Consumer Prices".to_string();
        other
    }];
    assert_eq!(
        build_indicator_list(&data),
        "Gross Domestic Product (GDP), Consumer Prices (CPI)"
    );
    assert_eq!(build_time_range(&data), "2020-01-01 to 2020-04-01");
    assert_eq!(build_time_range(&vec![]), "unknown");
}
