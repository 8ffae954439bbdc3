use http_tui::app::App;
use http_tui::http::{describe_outcome, HttpMethod};

fn app_with(n: usize) -> App {
    let mut app = App::new();
    for i in 0..n {
        app.add_request(format!("r{}", i), format!("http://h/{}", i), "GET".to_string());
    }
    app
}

#[test]
fn success_sets_exact_response_only_there() {
    let mut app = app_with(3);
    app.record_response(0, Ok("old".to_string()));
    app.record_response(1, Ok("pong".to_string()));
    assert_eq!(app.requests[1].response, Some("pong".to_string()));
    assert_eq!(app.requests[0].response, Some("old".to_string()));
    assert_eq!(app.requests[2].response, None);
    assert_eq!(app.requests[1].name, "r1");
}

#[test]
fn failure_sets_nonempty_text_replacing_prior() {
    let mut app = app_with(1);
    app.record_response(0, Ok("pong".to_string()));
    app.record_response(0, Err(String::new()));
    let r = app.requests[0].response.clone().unwrap();
    assert!(!r.is_empty());
    assert_ne!(r, "pong");
    app.record_response(0, Err("connection refused".to_string()));
    assert_eq!(app.requests[0].response, Some("Error: connection refused".to_string()));
}

#[test]
fn outcome_texts() {
    assert_eq!(describe_outcome(Ok("body".to_string())), "body");
    assert_eq!(describe_outcome(Ok(String::new())), "");
    assert_eq!(describe_outcome(Err("x".to_string())), "Error: x");
    assert_eq!(describe_outcome(Err(String::new())), "Error: ");
}

#[test]
fn methods_recognized() {
    assert_eq!(HttpMethod::recognize("GET"), Some(HttpMethod::Get));
    assert_eq!(HttpMethod::recognize("POST"), Some(HttpMethod::Post));
    assert_eq!(HttpMethod::recognize("PUT"), Some(HttpMethod::Put));
    assert_eq!(HttpMethod::recognize("DELETE"), Some(HttpMethod::Delete));
    assert_eq!(HttpMethod::recognize("get"), None);
    assert_eq!(HttpMethod::recognize(""), None);
    assert_eq!(HttpMethod::recognize("GET "), None);
}

#[test]
fn unknown_method_falls_back_to_get() {
    assert_eq!(HttpMethod::for_request("PATCH"), HttpMethod::Get);
    assert_eq!(HttpMethod::for_request(""), HttpMethod::Get);
    assert_eq!(HttpMethod::for_request("DELETE"), HttpMethod::Delete);
    assert_eq!(HttpMethod::for_request("PUT"), HttpMethod::Put);
}
