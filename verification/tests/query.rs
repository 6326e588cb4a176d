use clifana::parse_eval_pairs;
use clifana::prepare_query;
use clifana::prepare_query_range;
use clifana::ConfigFile;
use clifana::QueryError;
use clifana::QueryRef;
use clifana::ServerRef;

fn test_config() -> ConfigFile {
    ConfigFile {
        log_level: 0,
        servers: vec![ServerRef { name: "default".to_string(), url: "http://host".to_string() }],
        queries: vec![QueryRef { name: "cpu".to_string(), query: "rate(cpu[5m])".to_string() }],
    }
}

fn now_secs() -> u64 {
    std::time::SystemTime::now()
        .duration_since(std::time::UNIX_EPOCH)
        .unwrap()
        .as_secs()
}

#[test]
fn instant_query_sends_rendered_query_and_current_time() {
    let config = test_config();
    let now = now_secs();
    let req = prepare_query(&config, &"default".to_string(), &"cpu".to_string(), &vec![], now)
        .unwrap();
    assert_eq!(req.url, "http://host/api/v1/query");
    assert_eq!(req.form.len(), 2);
    assert_eq!(req.form[0], ("query".to_string(), "rate(cpu[5m])".to_string()));
    assert_eq!(req.form[1].0, "time");
    // The time field is the current epoch seconds, within a second.
    let sent: u64 = req.form[1].1.parse().unwrap();
    let after = now_secs();
    assert!(now <= sent && sent <= after + 1);
}

#[test]
fn range_query_covers_the_last_hour_with_minute_steps() {
    let config = test_config();
    let req = prepare_query_range(
        &config,
        &"default".to_string(),
        &"cpu".to_string(),
        &vec![],
        10000,
    )
    .unwrap();
    assert_eq!(req.url, "http://host/api/v1/query_range");
    assert_eq!(
        req.form,
        vec![
            ("query".to_string(), "rate(cpu[5m])".to_string()),
            ("step".to_string(), "1m".to_string()),
            ("start".to_string(), "6400".to_string()),
            ("end".to_string(), "10000".to_string()),
        ]
    );
}

#[test]
fn range_start_does_not_go_before_time_zero() {
    let config = test_config();
    let req = prepare_query_range(&config, &"default".to_string(), &"cpu".to_string(), &vec![], 7)
        .unwrap();
    assert_eq!(req.form[2], ("start".to_string(), "0".to_string()));
}

#[test]
fn unknown_server_is_reported() {
    let config = test_config();
    let r = prepare_query(&config, &"missing".to_string(), &"cpu".to_string(), &vec![], 0);
    assert_eq!(r.err(), Some(QueryError::UnknownServer));
}

#[test]
fn unknown_query_is_reported() {
    let config = test_config();
    let r = prepare_query(&config, &"default".to_string(), &"mem".to_string(), &vec![], 0);
    assert_eq!(r.err(), Some(QueryError::UnknownQuery));
}

#[test]
fn missing_template_variable_is_reported() {
    let mut config = test_config();
    config.queries.push(QueryRef {
        name: "pods".to_string(),
        query: "up{pod=~\"{{podex}}\"}".to_string(),
    });
    let r = prepare_query(&config, &"default".to_string(), &"pods".to_string(), &vec![], 0);
    assert_eq!(r.err(), Some(QueryError::TemplateError));
}

#[test]
fn substitutions_reach_the_rendered_query() {
    let mut config = test_config();
    config.queries.push(QueryRef {
        name: "pods".to_string(),
        query: "up{pod=~\"{{podex}}\"}".to_string(),
    });
    let vars = vec![("podex".to_string(), "web-.*".to_string())];
    let req = prepare_query(&config, &"default".to_string(), &"pods".to_string(), &vars, 5)
        .unwrap();
    assert_eq!(req.form[0], ("query".to_string(), "up{pod=~\"web-.*\"}".to_string()));
}

#[test]
fn eval_pairs_split_on_the_equals_sign() {
    let pairs = parse_eval_pairs(&vec!["podex=web-.*".to_string(), "job=node".to_string()])
        .unwrap();
    assert_eq!(
        pairs,
        vec![
            ("podex".to_string(), "web-.*".to_string()),
            ("job".to_string(), "node".to_string()),
        ]
    );
}

#[test]
fn later_substitution_overrides_earlier_duplicate() {
    let mut config = test_config();
    config.queries.push(QueryRef {
        name: "pods".to_string(),
        query: "up{pod=~\"{{podex}}\"}".to_string(),
    });
    let vars = vec![
        ("podex".to_string(), "one".to_string()),
        ("podex".to_string(), "two".to_string()),
    ];
    let req = prepare_query(&config, &"default".to_string(), &"pods".to_string(), &vars, 5)
        .unwrap();
    assert_eq!(req.form[0], ("query".to_string(), "up{pod=~\"two\"}".to_string()));
}

#[test]
fn eval_pair_without_equals_is_refused() {
    assert_eq!(parse_eval_pairs(&vec!["podex".to_string()]), None);
}

#[test]
fn eval_pair_value_stops_at_a_second_equals() {
    let pairs = parse_eval_pairs(&vec!["a=b=c".to_string()]).unwrap();
    assert_eq!(pairs, vec![("a".to_string(), "b".to_string())]);
}
