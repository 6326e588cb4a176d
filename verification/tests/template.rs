use clifana::render_template;

fn vars(pairs: &[(&str, &str)]) -> Vec<(String, String)> {
    pairs.iter().map(|(k, v)| (k.to_string(), v.to_string())).collect()
}

#[test]
fn literal_template_passes_through() {
    let v = vars(&[]);
    assert_eq!(render_template("rate(cpu[5m])", &v), Some("rate(cpu[5m])".to_string()));
}

#[test]
fn placeholder_is_substituted() {
    let v = vars(&[("podex", ".+")]);
    assert_eq!(
        render_template("rate(cpu{pod=~\"{{podex}}\"}[5m])", &v),
        Some("rate(cpu{pod=~\".+\"}[5m])".to_string())
    );
}

#[test]
fn missing_variable_fails() {
    let v = vars(&[("other", "x")]);
    assert_eq!(render_template("up{{podex}}", &v), None);
}

#[test]
fn unclosed_placeholder_fails() {
    let v = vars(&[("podex", ".+")]);
    assert_eq!(render_template("up{{podex", &v), None);
}

#[test]
fn later_duplicate_pair_overrides_earlier() {
    let v = vars(&[("a", "one"), ("a", "two")]);
    assert_eq!(render_template("{{a}}", &v), Some("two".to_string()));
}

#[test]
fn rendering_twice_gives_identical_output() {
    let v = vars(&[("podex", ".+"), ("job", "node")]);
    let t = "sum(rate(cpu{pod=~\"{{podex}}\",job=\"{{job}}\"}[5m]))";
    let first = render_template(t, &v);
    let second = render_template(t, &v);
    assert!(first.is_some());
    assert_eq!(first, second);
}

#[test]
fn several_placeholders_in_order() {
    let v = vars(&[("a", "1"), ("b", "2")]);
    assert_eq!(render_template("{{a}}-{{b}}-{{a}}", &v), Some("1-2-1".to_string()));
}

#[test]
fn empty_template_renders_empty() {
    let v = vars(&[]);
    assert_eq!(render_template("", &v), Some(String::new()));
}
