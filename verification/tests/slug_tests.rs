use report_gen::slug::generate_slug;

#[test]
fn test_generate_slug_simple() {
    assert_eq!(generate_slug("Hello World"), "hello-world");
}

#[test]
fn test_generate_slug_with_special_chars() {
    assert_eq!(
        generate_slug("Hello, World! How are you?"),
        "hello-world-how-are-you"
    );
}

#[test]
fn test_generate_slug_with_numbers() {
    assert_eq!(
        generate_slug("Top 10 Tips for 2024"),
        "top-10-tips-for-2024"
    );
}

#[test]
fn test_generate_slug_with_multiple_spaces() {
    assert_eq!(
        generate_slug("Multiple   Spaces   Here"),
        "multiple-spaces-here"
    );
}

#[test]
fn test_generate_slug_preserves_lowercase() {
    assert_eq!(generate_slug("UPPERCASE TITLE"), "uppercase-title");
}

#[test]
fn test_generate_slug_handles_leading_trailing_special_chars() {
    assert_eq!(generate_slug("---Hello World---"), "hello-world");
}

#[test]
fn test_generate_slug_empty_title() {
    assert_eq!(generate_slug(""), "");
}

#[test]
fn test_generate_slug_only_special_chars() {
    assert_eq!(generate_slug("!@#$%^&*()"), "");
}
