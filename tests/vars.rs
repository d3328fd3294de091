use fastidious::vars::{_cmdline, _to_vars_split_eq, to_vars_split_odd, Vars};

#[test]
fn test_vars() -> () {
    {
        let v = vec![
            "a=1".to_string(),
            "b=2".to_string(),
            "c=3".to_string(),
            "foobarred".to_string(),
            "d=4".to_string(),
        ];
        let vars = _to_vars_split_eq(v);
        assert_eq!(vars.get("b").unwrap(), "2");
    }
    {
        let v = vec![
            "a".to_string(),
            "1".to_string(),
            "c".to_string(),
            "3".to_string(),
            "d".to_string(),
            "4".to_string(),
        ];
        let vars = to_vars_split_odd(v);
        assert_eq!(vars.get("c").unwrap(), "3");
    }
}

#[test]
fn split_eq_uses_first_equals_sign() {
    let vars = _to_vars_split_eq(vec!["k=a=b".to_string(), "noeq".to_string()]);
    assert_eq!(vars.get("k").unwrap(), "a=b");
    assert!(vars.get("noeq").is_none());
}

#[test]
fn split_odd_ignores_unpaired_last_item() {
    let vars = to_vars_split_odd(vec!["a".to_string(), "1".to_string(), "b".to_string()]);
    assert_eq!(vars.get("a").unwrap(), "1");
    assert!(vars.get("b").is_none());
}

#[test]
fn later_binding_replaces_earlier() {
    let mut vars = Vars::new();
    vars.insert("k".into(), "old".into());
    vars.insert("k".into(), "new".into());
    assert_eq!(vars.get("k").unwrap(), "new");
}

#[test]
fn cmdline_joins_with_spaces() {
    assert_eq!(_cmdline("ls".to_string(), vec!["-l", "/tmp"]), "ls -l /tmp");
    assert_eq!(_cmdline("true".to_string(), vec![]), "true");
}
