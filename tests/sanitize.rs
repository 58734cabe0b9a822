use rmcp_postgres::conn::{config_setting, config_tokens, sanitize_connection_string};

#[test]
fn test_sanitize_connection_string() {
    let input = "host=localhost user=postgres password=secret123 dbname=test";
    let output = sanitize_connection_string(input);
    assert!(output.contains("password=***"));
    assert!(!output.contains("secret123"));
    assert!(output.contains("host=localhost"));
    assert!(output.contains("dbname=test"));
}

#[test]
fn test_sanitize_connection_string_no_password() {
    let input = "host=localhost user=postgres dbname=test";
    let output = sanitize_connection_string(input);
    assert_eq!(input, output);
}

#[test]
fn sanitize_keeps_everything_after_the_password() {
    let output = sanitize_connection_string("host=h password=pw dbname=d");
    assert_eq!(output, "host=h password=*** dbname=d");
}

#[test]
fn sanitize_password_at_the_end() {
    let output = sanitize_connection_string("host=h password=pw");
    assert_eq!(output, "host=h password=***");
}

#[test]
fn tokens_split_on_whitespace() {
    let toks = config_tokens("  host=h   user=u\tdbname=d ");
    assert_eq!(toks, vec!["host=h".to_string(), "user=u".to_string(), "dbname=d".to_string()]);
}

#[test]
fn settings_and_their_defaults() {
    let config = "host=db user=alice password=secret dbname=app";
    assert_eq!(config_setting(config, "dbname=", "unknown"), "app");
    assert_eq!(config_setting(config, "user=", "unknown"), "alice");
    assert_eq!(config_setting("user=bob", "host=", "localhost"), "localhost");
}

#[test]
fn tokens_split_on_any_whitespace() {
    assert_eq!(config_setting("host=a\u{c}user=b", "user=", "unknown"), "b");
    assert_eq!(config_setting("host=a\u{b}user=c\u{3000}dbname=d", "dbname=", "unknown"), "d");
}
