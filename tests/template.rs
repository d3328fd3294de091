use fastidious::error::ApplyError;
use fastidious::template::{match_line, render, replace_all, replace_line, replace_line2, ChangeString};
use fastidious::vars::Vars;
use std::ops::Range;

fn extract_range<'a>(s: &'a str, r: Range<usize>) -> &'a str {
    &s[r.start..r.end]
}

fn value_vars() -> Vars {
    let mut vars = Vars::new();
    vars.insert("value".into(), "FILLED".into());
    vars
}

#[test]
fn test_match_line() {
    let s1 = "a@@foo@@";
    let s2 = "@@foo@@a";
    let s3 = "@@foo@@";
    match match_line(s1) {
        Some((r, _outer)) => {
            assert_eq!(r.start, 3);
            assert_eq!(r.end, 6);
            assert_eq!(extract_range(&s1, r), "foo");
        }
        None => panic!("expected Template"),
    }
    match match_line(s2) {
        Some((r, outer)) => {
            assert_eq!(r.start, 2);
            assert_eq!(r.end, 5);
            assert_eq!(extract_range(s2, r), "foo");
            assert_eq!(extract_range(s2, outer), "@@foo@@");
        }
        None => panic!("expected Template"),
    }
    match match_line(s3) {
        Some((r, _outer)) => {
            assert_eq!(extract_range(s3, r), "foo");
        }
        None => panic!("expected Template"),
    }
}

#[test]
fn match_line_without_token() {
    assert!(match_line("plain text").is_none());
    assert!(match_line("only @@ one delimiter").is_none());
    assert!(match_line("").is_none());
}

#[test]
fn bound_token_is_spliced() {
    let vars = value_vars();
    assert_eq!(render(&vars, "key=@@value@@").unwrap(), "key=FILLED\n");
    assert_eq!(render(&vars, "a @@value@@ b").unwrap(), "a FILLED b\n");
    match replace_line(&vars, "x@@value@@y") {
        Ok(ChangeString::Changed(s)) => assert_eq!(s, "xFILLEDy\n"),
        _ => panic!("expected a change"),
    }
}

#[test]
fn unbound_token_fails_with_its_key() {
    let vars = value_vars();
    assert_eq!(
        render(&vars, "first line\nkey=@@missing@@\n"),
        Err(ApplyError::VarNotFound("missing".to_string()))
    );
    assert_eq!(
        replace_line(&vars, "@@nope@@"),
        Err(ApplyError::VarNotFound("nope".to_string()))
    );
}

#[test]
fn plain_line_is_unchanged() {
    let vars = value_vars();
    assert_eq!(render(&vars, "no tokens here").unwrap(), "no tokens here\n");
    assert_eq!(replace_line(&vars, "no tokens here"), Ok(ChangeString::Unchanged));
}

#[test]
fn only_first_token_is_replaced() {
    let mut vars = Vars::new();
    vars.insert("a".into(), "1".into());
    vars.insert("b".into(), "2".into());
    assert_eq!(render(&vars, "@@a@@ @@b@@").unwrap(), "1 @@b@@\n");
}

#[test]
fn render_keeps_line_structure() {
    let vars = value_vars();
    assert_eq!(render(&vars, "").unwrap(), "");
    assert_eq!(render(&vars, "a\n\nb").unwrap(), "a\n\nb\n");
    assert_eq!(render(&vars, "a\r\nv=@@value@@\r\n").unwrap(), "a\nv=FILLED\n");
}

#[test]
fn replace_line2_leaves_plain_argument() {
    let vars = value_vars();
    assert_eq!(replace_line2(&vars, "--flag").unwrap(), "--flag");
    assert_eq!(replace_line2(&vars, "@@value@@").unwrap(), "FILLED\n");
}

#[test]
fn replace_all_stops_at_first_unbound_key() {
    let vars = value_vars();
    let args = vec!["x".to_string(), "@@value@@".to_string()];
    assert_eq!(replace_all(&args, &vars).unwrap(), vec!["x".to_string(), "FILLED\n".to_string()]);
    let bad = vec!["@@one@@".to_string(), "@@two@@".to_string()];
    assert_eq!(replace_all(&bad, &vars), Err(ApplyError::VarNotFound("one".to_string())));
}
