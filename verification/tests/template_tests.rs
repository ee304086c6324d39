//! Tests of placeholder substitution, including a comparison with the
//! template engine the substitution rules were taken from.

use billgen::{fill, has_placeholder};
use std::collections::HashMap;
use text_placeholder::Template;

fn pairs(fields: &[(&str, &str)]) -> Vec<(String, String)> {
    fields.iter().map(|(k, v)| (k.to_string(), v.to_string())).collect()
}

fn engine_fill(template: &str, fields: &[(&str, &str)]) -> String {
    let mut table: HashMap<&str, &str> = HashMap::new();
    for (k, v) in fields {
        table.insert(k, v);
    }
    Template::new(template).fill_with_hashmap(&table)
}

#[test]
fn fills_simple_placeholders() {
    let fields = pairs(&[("first", "text"), ("second", "placeholder")]);
    assert_eq!(fill("Hello {{first}} {{second}}!", &fields), "Hello text placeholder!");
}

#[test]
fn missing_key_becomes_empty() {
    let fields = pairs(&[("known", "v")]);
    assert_eq!(fill("a {{unknown}} b", &fields), "a  b");
}

#[test]
fn keys_are_trimmed_of_spaces() {
    let fields = pairs(&[("key", "v")]);
    assert_eq!(fill("x{{ key }}y", &fields), "xvy");
    assert_eq!(fill("x{{   key}}y", &fields), "xvy");
}

#[test]
fn unclosed_placeholder_stays_literal() {
    let fields = pairs(&[("key", "v")]);
    assert_eq!(fill("a {{key} b", &fields), "a {{key} b");
    assert_eq!(fill("a {{key", &fields), "a {{key");
}

#[test]
fn matches_template_engine_behavior() {
    let fields = [("name", "Alice"), ("amount", "250.00"), ("x", "")];
    let templates = [
        "{{name}} owes {{amount}}",
        "no placeholders here",
        "{{name}}{{name}}{{name}}",
        "start {{ name }} middle {{missing}} end",
        "{{x}}empty{{x}}",
        "stray } and { braces {{name}}",
        "trailing {{name",
        "{{}} empty key",
        "{{name}}{{amount}} adjacent",
        "{{{{name}}}} nested braces",
    ];
    for t in templates {
        assert_eq!(fill(t, &pairs(&fields)), engine_fill(t, &fields), "template: {}", t);
    }
}

#[test]
fn matches_template_engine_on_unusual_content() {
    let fields = [("name", "J\u{fc}rgen"), ("brace", "{{name}}")];
    let templates = [
        "Gr\u{fc}\u{df}e {{name}}!",
        "value with braces: {{brace}} end",
        "\u{e4}{{name}}\u{f6}",
    ];
    for t in templates {
        assert_eq!(fill(t, &pairs(&fields)), engine_fill(t, &fields), "template: {}", t);
    }
}

#[test]
fn detects_placeholders() {
    assert!(has_placeholder("a {{key}} b"));
    assert!(has_placeholder("{{}}"));
    assert!(!has_placeholder("plain text"));
    assert!(!has_placeholder("a {{key with no close"));
    assert!(!has_placeholder("}} {{"));
}

#[test]
fn no_placeholder_syntax_remains_when_all_fields_supplied() {
    let fields = pairs(&[("a", "1"), ("b", "2"), ("c", "3")]);
    let template = "x {{a}} y {{ b }} z {{c}} w {{d}}";
    let out = fill(template, &fields);
    assert_eq!(out, "x 1 y 2 z 3 w ");
    assert!(!out.contains("{{"));
    assert!(!out.contains("}}"));
}
