use uwebsockets_rs::app::Application;
use uwebsockets_rs::app::HttpMethod;
use uwebsockets_rs::http_response::HeaderValue;
use uwebsockets_rs::http_response::HttpResponseStruct;
use uwebsockets_rs::http_response::ResponseState;
use uwebsockets_rs::us_socket_context_options::UsSocketContextOptions;
use uwebsockets_rs::websocket_behavior::WebSocketBehavior;

fn fresh_app() -> Application {
    Application::new(UsSocketContextOptions::new())
}

fn behavior() -> WebSocketBehavior {
    WebSocketBehavior {
        compression: 0,
        max_payload_length: 16 * 1024,
        idle_timeout: 120,
        max_backpressure: 64 * 1024,
        close_on_backpressure_limit: false,
        reset_idle_timeout_on_send: false,
        send_pings_automatically: true,
        max_lifetime: 0,
        upgrade: None,
        open: Some(1),
        message: Some(2),
        ping: None,
        pong: None,
        close: Some(3),
        drain: None,
        subscription: None,
    }
}

#[test]
fn matching_request_invokes_exactly_one_handler() {
    let mut app = fresh_app();
    app.get(b"/echo", 7);
    app.get(b"/echo", 8); // same pattern again: the first registration wins
    app.post(b"/echo", 9);
    app.any(b"/all", 10);

    assert_eq!(app.match_route(HttpMethod::Get, b"/echo"), Some(7));
    assert_eq!(app.match_route(HttpMethod::Post, b"/echo"), Some(9));
    assert_eq!(app.match_route(HttpMethod::Get, b"/all"), Some(10));
    assert_eq!(app.match_route(HttpMethod::Delete, b"/all"), Some(10));
    assert_eq!(app.match_route(HttpMethod::Get, b"/missing"), None);
    assert_eq!(app.match_route(HttpMethod::Delete, b"/echo"), None);
}

#[test]
fn every_method_registrar_records_its_method() {
    let mut app = fresh_app();
    app.get(b"/r", 1);
    app.post(b"/r", 2);
    app.put(b"/r", 3);
    app.patch(b"/r", 4);
    app.delete(b"/r", 5);
    app.options(b"/r", 6);
    app.trace(b"/r", 7);
    app.connect(b"/r", 8);
    assert_eq!(app.match_route(HttpMethod::Get, b"/r"), Some(1));
    assert_eq!(app.match_route(HttpMethod::Post, b"/r"), Some(2));
    assert_eq!(app.match_route(HttpMethod::Put, b"/r"), Some(3));
    assert_eq!(app.match_route(HttpMethod::Patch, b"/r"), Some(4));
    assert_eq!(app.match_route(HttpMethod::Delete, b"/r"), Some(5));
    assert_eq!(app.match_route(HttpMethod::Options, b"/r"), Some(6));
    assert_eq!(app.match_route(HttpMethod::Trace, b"/r"), Some(7));
    assert_eq!(app.match_route(HttpMethod::Connect, b"/r"), Some(8));
}

#[test]
fn ws_route_and_listen_are_recorded() {
    let mut app = fresh_app();
    app.ws(b"/chat", behavior());
    app.listen(3000, Some(42));
    assert_eq!(app.ws_routes.len(), 1);
    assert_eq!(app.ws_routes[0].pattern, b"/chat".to_vec());
    assert_eq!(app.ws_routes[0].behavior.message, Some(2));
    assert_eq!(app.listen_port, Some(3000));
    assert_eq!(app.listen_handler, Some(42));
    app.run();
    assert!(app.running);
}

#[test]
fn get_echo_scenario_returns_ok_body_and_closes() {
    // Register `GET /echo`; a request to `/echo` reaches that handler,
    // which answers status 200 with body "ok" and asks for the
    // connection to be closed.
    let mut app = fresh_app();
    app.get(b"/echo", 1);

    let handler = app.match_route(HttpMethod::Get, b"/echo");
    assert_eq!(handler, Some(1));

    // What handler 1 does with its response stream:
    let mut res = HttpResponseStruct::new(64 * 1024);
    res.write_status(b"200 OK").unwrap();
    res.write_header(b"content-type", b"text/plain").unwrap();
    res.end(b"ok", true).unwrap();

    assert_eq!(res.status, Some(b"200 OK".to_vec()));
    assert_eq!(res.headers.len(), 1);
    assert_eq!(res.headers[0].0, b"content-type".to_vec());
    assert_eq!(res.headers[0].1, HeaderValue::Text(b"text/plain".to_vec()));
    assert_eq!(res.body, b"ok".to_vec());
    assert_eq!(res.state, ResponseState::Finished);
    assert!(res.close_connection);
    assert!(res.has_responded());
}
