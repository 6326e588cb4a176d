use clifana::AppData;
use clifana::ConfigFile;
use clifana::Key;
use clifana::LoopDirective;
use clifana::NavState;
use clifana::QueryRef;
use clifana::ServerRef;

fn test_config() -> ConfigFile {
    ConfigFile {
        log_level: 0,
        servers: vec![ServerRef { name: "default".to_string(), url: "http://host".to_string() }],
        queries: vec![QueryRef { name: "cpu".to_string(), query: "rate(cpu[5m])".to_string() }],
    }
}

const SUCCESS_BODY: &str = "{\"status\":\"success\",\"data\":{\"resultType\":\"matrix\",\"result\":[{\"metric\":{},\"values\":[[1000,\"1.5\"],[1060,\"2.0\"]]}]}}";

fn refreshed_app() -> AppData {
    let mut app = AppData::new(test_config());
    app.apply_response(Some(SUCCESS_BODY));
    app
}

#[test]
fn successful_refresh_replaces_the_buffer() {
    let app = refreshed_app();
    assert_eq!(app.data.len(), 2);
    assert_eq!(app.data[0].timestamp, "1000");
    assert_eq!(app.data[0].value, "1.5");
    assert_eq!(app.data[1].timestamp, "1060");
    assert_eq!(app.data[1].value, "2.0");
    assert_eq!(app.log_buffer.len(), 0);
}

#[test]
fn backend_error_leaves_buffer_and_logs_once() {
    let mut app = refreshed_app();
    let before: Vec<(String, String)> =
        app.data.iter().map(|s| (s.timestamp.clone(), s.value.clone())).collect();
    let log_before = app.log_buffer.len();
    app.apply_response(Some("{\"status\":\"error\"}"));
    let after: Vec<(String, String)> =
        app.data.iter().map(|s| (s.timestamp.clone(), s.value.clone())).collect();
    assert_eq!(before, after);
    assert_eq!(app.log_buffer.len(), log_before + 1);
    let snap = app.log_buffer.read_snapshot();
    assert_eq!(snap[0], "refresh failed: the backend reported an error or returned no data");
}

#[test]
fn malformed_body_leaves_buffer_and_logs_once() {
    let mut app = refreshed_app();
    let log_before = app.log_buffer.len();
    app.apply_response(Some("{\"status\""));
    assert_eq!(app.data.len(), 2);
    assert_eq!(app.log_buffer.len(), log_before + 1);
    assert_eq!(
        app.log_buffer.read_snapshot()[0],
        "refresh failed: could not parse the backend response"
    );
}

#[test]
fn transport_failure_leaves_buffer_and_logs_once() {
    let mut app = refreshed_app();
    app.apply_response(None);
    assert_eq!(app.data.len(), 2);
    assert_eq!(app.log_buffer.len(), 1);
    assert_eq!(app.log_buffer.read_snapshot()[0], "refresh failed: could not reach the backend");
}

#[test]
fn unknown_server_skips_refresh_and_logs_once() {
    let mut config = test_config();
    config.servers.clear();
    let mut app = AppData::new(config);
    let req = app.on_tick(5_000);
    assert!(req.is_none());
    assert_eq!(app.data.len(), 0);
    assert_eq!(app.log_buffer.len(), 1);
    assert_eq!(
        app.log_buffer.read_snapshot()[0],
        "refresh failed: no server by that name in the config"
    );
}

#[test]
fn unknown_query_skips_refresh_and_logs_once() {
    let mut config = test_config();
    config.queries.clear();
    let mut app = AppData::new(config);
    let req = app.on_tick(5_000);
    assert!(req.is_none());
    assert_eq!(
        app.log_buffer.read_snapshot()[0],
        "refresh failed: there was no query by that name"
    );
}

#[test]
fn tick_prepares_the_default_range_query_when_due() {
    let mut app = AppData::new(test_config());
    let req = app.on_tick(10_000_000).expect("poll was due");
    assert_eq!(req.url, "http://host/api/v1/query_range");
    assert_eq!(req.form[0], ("query".to_string(), "rate(cpu[5m])".to_string()));
    assert_eq!(req.form[1], ("step".to_string(), "1m".to_string()));
    assert_eq!(req.form[2], ("start".to_string(), "6400".to_string()));
    assert_eq!(req.form[3], ("end".to_string(), "10000".to_string()));
    assert_eq!(app.last_refresh_ms, 10_000_000);
}

#[test]
fn tick_before_the_interval_does_nothing() {
    let mut app = AppData::new(test_config());
    app.on_tick(5_000).expect("first poll is due");
    let again = app.on_tick(5_500);
    assert!(again.is_none());
    assert_eq!(app.last_refresh_ms, 5_000);
    assert_eq!(app.log_buffer.len(), 0);
    assert!(app.on_tick(6_000).is_some());
}

#[test]
fn poll_timeout_counts_down_to_the_next_tick() {
    let mut app = AppData::new(test_config());
    app.on_tick(5_000);
    assert_eq!(app.poll_timeout_ms(5_000), 1000);
    assert_eq!(app.poll_timeout_ms(5_400), 600);
    assert_eq!(app.poll_timeout_ms(6_000), 0);
    assert_eq!(app.poll_timeout_ms(7_000), 0);
}

#[test]
fn quit_key_exits_from_every_menu_state() {
    // Menu closed.
    let mut app = AppData::new(test_config());
    assert_eq!(app.handle_key(Key::Quit), LoopDirective::Exit);
    // A group open.
    let mut app = AppData::new(test_config());
    app.handle_key(Key::Enter);
    assert!(matches!(app.menu.state, NavState::GroupOpen { .. }));
    assert_eq!(app.handle_key(Key::Quit), LoopDirective::Exit);
    // An item focused, refresh data present.
    let mut app = refreshed_app();
    app.handle_key(Key::Enter);
    app.handle_key(Key::Down);
    assert!(matches!(app.menu.state, NavState::ItemFocused { .. }));
    assert_eq!(app.handle_key(Key::Quit), LoopDirective::Exit);
}

#[test]
fn selecting_exit_in_the_menu_ends_the_loop() {
    let mut app = AppData::new(test_config());
    assert_eq!(app.handle_key(Key::Enter), LoopDirective::Continue);
    assert_eq!(app.handle_key(Key::Down), LoopDirective::Continue);
    assert_eq!(app.handle_key(Key::Enter), LoopDirective::Exit);
    assert!(matches!(app.menu.state, NavState::Closed));
}

#[test]
fn selecting_about_keeps_the_loop_running() {
    let mut app = AppData::new(test_config());
    app.handle_key(Key::Right);
    app.handle_key(Key::Enter);
    app.handle_key(Key::Right);
    app.handle_key(Key::Down);
    assert!(matches!(app.menu.state, NavState::ItemFocused { group: 1, item: 0 }));
    assert_eq!(app.handle_key(Key::Enter), LoopDirective::Continue);
}

#[test]
fn other_keys_change_nothing() {
    let mut app = refreshed_app();
    assert_eq!(app.handle_key(Key::Other), LoopDirective::Continue);
    assert_eq!(app.data.len(), 2);
    assert!(matches!(app.menu.state, NavState::Closed));
}
