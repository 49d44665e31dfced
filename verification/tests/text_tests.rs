use report_gen::text::{extract_json, str_eq, truncate};

#[test]
fn test_truncate_short() {
    assert_eq!(truncate("hello", 10), "hello");
}

#[test]
fn test_truncate_exact() {
    assert_eq!(truncate("hello", 5), "hello");
}

#[test]
fn test_truncate_long() {
    let result = truncate("hello world", 5);
    assert_eq!(result, "hello");
}

#[test]
fn test_truncate_multibyte_safe() {
    let result = truncate("hé世界!", 3);
    assert!(result.len() <= 3);
    assert!(result.is_char_boundary(result.len()));
}

#[test]
fn test_truncate_never_splits_multibyte() {
    // One ASCII byte then a two-byte character: a budget of two must not
    // split the second character.
    let result = truncate("aé", 2);
    assert!(result.len() <= 2);
    assert_eq!(result, "a");
}

#[test]
fn test_truncate_empty() {
    assert_eq!(truncate("", 4), "");
    assert_eq!(truncate("abc", 0), "");
}

#[test]
fn test_extract_json_raw() {
    let input = r#"{"trends": [], "correlations": [], "key_findings": ["test"]}"#;
    let result = extract_json(input);
    assert!(result.starts_with('{'));
    let parsed: serde_json::Value = serde_json::from_str(&result).unwrap();
    assert_eq!(parsed["key_findings"][0], "test");
}

#[test]
fn test_extract_json_markdown_block() {
    let input = "Here is the analysis:\n```json\n{\"trends\": []}\n```\nDone.";
    let result = extract_json(input);
    assert_eq!(result, "{\"trends\": []}");
}

#[test]
fn test_extract_json_generic_code_block() {
    let input = "```\n{\"key\": \"value\"}\n```";
    let result = extract_json(input);
    assert_eq!(result, "{\"key\": \"value\"}");
}

#[test]
fn test_extract_json_embedded_in_text() {
    let input = "The result is {\"a\": 1} and that's it.";
    let result = extract_json(input);
    assert_eq!(result, "{\"a\": 1}");
}

#[test]
fn test_extract_json_no_json() {
    let input = "No JSON here at all";
    let result = extract_json(input);
    assert_eq!(result, input);
}

#[test]
fn test_extract_json_same_object_from_all_three_embeddings() {
    let bare = "The result is {\"a\":1} here.";
    let fenced_json = "```json\n{\"a\":1}\n```";
    let fenced_plain = "```\n{\"a\":1}\n```";
    assert_eq!(extract_json(bare), "{\"a\":1}");
    assert_eq!(extract_json(fenced_json), "{\"a\":1}");
    assert_eq!(extract_json(fenced_plain), "{\"a\":1}");
}

#[test]
fn test_extract_json_nested_object_fenced() {
    let object = "{\"a\":{\"b\":2}}";
    let fenced = format!("```json\n{object}\n```");
    assert_eq!(extract_json(&fenced), object);
    let plain = format!("```\n{object}\n```");
    assert_eq!(extract_json(&plain), object);
}

#[test]
fn test_extract_json_brace_after_closing_brace() {
    // A closing brace before any opening brace holds no JSON object: the
    // input comes back unchanged.
    let input = "} nothing here {";
    assert_eq!(extract_json(input), input);
}

#[test]
fn test_str_eq() {
    assert!(str_eq("abc", "abc"));
    assert!(!str_eq("abc", "abd"));
    assert!(!str_eq("abc", "ab"));
    assert!(str_eq("", ""));
}
