use metal_deploy::env::{
    lines_of, parse_template_line, parse_template_text, populate_env, EnvVars, TemplateEntry,
};
use metal_deploy::text::{is_blank_str, trim_str};

fn entry(k: &str, v: &str) -> TemplateEntry {
    TemplateEntry {
        key: k.to_string(),
        value: v.to_string(),
    }
}

#[test]
fn trim_removes_unicode_whitespace() {
    assert_eq!(trim_str("  abc \t\n"), "abc");
    assert_eq!(trim_str("\u{3000}x y\u{a0}"), "x y");
    assert_eq!(trim_str("   "), "");
    assert_eq!(trim_str(""), "");
    assert!(is_blank_str(" \t\r\n"));
    assert!(!is_blank_str(" a "));
}

#[test]
fn lines_like_bufread() {
    assert_eq!(lines_of("a\r\nb\n\nc"), vec!["a", "b", "", "c"]);
    assert_eq!(lines_of("a\n"), vec!["a"]);
    assert_eq!(lines_of("\n"), vec![""]);
    assert!(lines_of("").is_empty());
    assert_eq!(lines_of("x\r\r\n"), vec!["x\r"]);
    // A last line with no newline keeps its carriage return.
    assert_eq!(lines_of("a\r"), vec!["a\r"]);
    assert_eq!(lines_of("a\r\nb\r"), vec!["a", "b\r"]);
}

#[test]
fn template_last_line_keeps_carriage_return() {
    assert_eq!(parse_template_text("K=x\r"), vec![entry("K", "x\r")]);
    // A lone carriage return is a value, not an empty one.
    assert_eq!(parse_template_text("K=\r"), vec![entry("K", "\r")]);
    assert_eq!(parse_template_text("K=\r\n"), vec![entry("K", "")]);
}

#[test]
fn template_line_rules() {
    assert_eq!(parse_template_line("KEY=value"), Some(entry("KEY", "value")));
    assert_eq!(parse_template_line("KEY="), Some(entry("KEY", "")));
    assert_eq!(parse_template_line("A=b=c"), Some(entry("A", "b=c")));
    assert_eq!(parse_template_line("=x"), Some(entry("", "x")));
    assert_eq!(parse_template_line("# COMMENT=1"), None);
    assert_eq!(parse_template_line("   "), None);
    assert_eq!(parse_template_line("no equals here"), None);
    // Only a '#' in first position makes a comment.
    assert_eq!(parse_template_line(" #A=1"), Some(entry(" #A", "1")));
}

#[test]
fn template_text_parsing() {
    let text = "# database\nDB=mongodb://x\n\nPORT=\nSECRET=\r\nbad line\n";
    assert_eq!(
        parse_template_text(text),
        vec![entry("DB", "mongodb://x"), entry("PORT", ""), entry("SECRET", "")]
    );
}

#[test]
fn populate_asks_for_empty_values_in_order() {
    let entries = vec![entry("DB", "x"), entry("PORT", ""), entry("SECRET", "")];
    let answers = vec!["  8080 \n".to_string(), "s3cret\n".to_string()];
    let env = populate_env(&entries, &answers);
    assert_eq!(env.len(), 3);
    assert_eq!(env.get(&"PORT".to_string()), Some("8080".to_string()));
    assert_eq!(env.get(&"SECRET".to_string()), Some("s3cret".to_string()));
    assert_eq!(env.get(&"DB".to_string()), Some("x".to_string()));
    assert_eq!(env.render(), "DB=x\nPORT=8080\nSECRET=s3cret\n");
}

#[test]
fn duplicate_keys_keep_last_value_first_place() {
    let entries = vec![entry("A", "1"), entry("B", "2"), entry("A", "3")];
    let env = populate_env(&entries, &vec![]);
    assert_eq!(env.len(), 2);
    assert_eq!(env.get(&"A".to_string()), Some("3".to_string()));
    assert_eq!(env.render(), "A=3\nB=2\n");
}

#[test]
fn insert_then_get() {
    let mut env = EnvVars::new();
    assert_eq!(env.len(), 0);
    assert_eq!(env.get(&"K".to_string()), None);
    env.insert("K".to_string(), "v1".to_string());
    env.insert("L".to_string(), "w".to_string());
    env.insert("K".to_string(), "v2".to_string());
    assert_eq!(env.get(&"K".to_string()), Some("v2".to_string()));
    assert_eq!(env.get(&"L".to_string()), Some("w".to_string()));
    assert_eq!(env.len(), 2);
    assert_eq!(env.render(), "K=v2\nL=w\n");
}

#[test]
fn written_env_reads_back() {
    let entries = vec![entry("DB", "mongodb://h:1/x"), entry("EMPTYISH", " v "), entry("Z", "a=b")];
    let env = populate_env(&entries, &vec![]);
    let text = env.render();
    assert_eq!(parse_template_text(&text), entries);
}
