use uwebsockets_rs::http_response::CallbackSlot;
use uwebsockets_rs::http_response::HeaderValue;
use uwebsockets_rs::http_response::HttpResponseStruct;
use uwebsockets_rs::http_response::ResponseError;
use uwebsockets_rs::http_response::ResponseState;
use uwebsockets_rs::http_request::HttpRequest;
use uwebsockets_rs::websocket_behavior::UpgradeContext;

fn request_with_ws_headers() -> HttpRequest {
    HttpRequest::new(
        b"GET".to_vec(),
        b"/chat".to_vec(),
        Vec::new(),
        vec![
            (b"sec-websocket-key".to_vec(), b"dGhlIHNhbXBsZSBub25jZQ==".to_vec()),
            (b"sec-websocket-protocol".to_vec(), b"chat".to_vec()),
        ],
        Vec::new(),
        false,
    )
}

#[test]
fn second_terminal_action_is_rejected() {
    let mut res = HttpResponseStruct::new(1024);
    assert!(res.end(b"done", false).is_ok());
    assert_eq!(res.end(b"again", false), Err(ResponseError::AlreadyResponded));
    assert_eq!(res.end_without_body(false), Err(ResponseError::AlreadyResponded));
    assert!(res.try_end(b"x", 1, false).is_err());
    let ctx = UpgradeContext { context: 5 };
    assert!(res.upgrade(b"key", None, None, ctx, None).is_err());
}

#[test]
fn try_end_finalizes_and_blocks_later_actions() {
    let mut res = HttpResponseStruct::new(1024);
    let r = res.try_end(b"payload", 7, false).unwrap();
    assert!(r.ok);
    assert!(r.has_responded);
    assert_eq!(res.state, ResponseState::Finished);
    assert!(res.end(b"", false).is_err());
}

#[test]
fn try_end_queues_and_finalizes_without_ok() {
    // The bytes fit under the threshold but the peer is slow: the
    // response is finalized (has_responded) even though nothing was
    // flushed yet (not ok).
    let mut res = HttpResponseStruct::new(10);
    res.peer_ready = false;
    let r = res.try_end(b"abc", 3, false).unwrap();
    assert!(!r.ok);
    assert!(r.has_responded);
    assert_eq!(res.state, ResponseState::Finished);
    assert_eq!(res.buffered, 3);
    assert_eq!(res.declared_total, Some(3));
}

#[test]
fn try_end_backs_off_under_backpressure() {
    let mut res = HttpResponseStruct::new(4);
    res.peer_ready = false;
    res.buffered = 3;
    let r = res.try_end(b"abcdef", 6, false).unwrap();
    assert!(!r.ok);
    assert!(!r.has_responded);
    // Nothing was finalized: a drain clears the queue and the retry lands.
    assert_eq!(res.state, ResponseState::Open);
    res.drain();
    let r2 = res.try_end(b"abcdef", 6, false).unwrap();
    assert!(r2.ok);
    assert!(r2.has_responded);
    assert_eq!(res.body, b"abcdef".to_vec());
}

#[test]
fn writes_after_terminal_action_are_rejected() {
    let mut res = HttpResponseStruct::new(1024);
    res.end(b"", false).unwrap();
    assert_eq!(res.write_status(b"200 OK"), Err(ResponseError::AlreadyResponded));
    assert_eq!(res.write_header(b"k", b"v"), Err(ResponseError::AlreadyResponded));
    assert_eq!(res.write_header_int(b"k", 1), Err(ResponseError::AlreadyResponded));
    assert!(res.write(b"body").is_err());
}

#[test]
fn write_reports_backpressure_past_threshold() {
    let mut res = HttpResponseStruct::new(4);
    res.peer_ready = false;
    assert_eq!(res.write(b"abc"), Ok(true)); // 3 <= 4 queued
    assert_eq!(res.write(b"de"), Ok(false)); // 5 > 4: stop producing
    res.drain();
    assert_eq!(res.write(b"fg"), Ok(true)); // retry after drain succeeds
    assert_eq!(res.body, b"abcdefg".to_vec());
}

#[test]
fn abort_fires_exactly_once_and_reclaims_handlers() {
    let mut res = HttpResponseStruct::new(1024);
    res.on_aborted(11).unwrap();
    res.on_data(12).unwrap();
    res.on_writable(13).unwrap();
    assert_eq!(res.abort(), Some(11));
    assert_eq!(res.state, ResponseState::Aborted);
    assert_eq!(res.on_abort, CallbackSlot::Reclaimed);
    assert_eq!(res.on_data, CallbackSlot::Reclaimed);
    assert_eq!(res.on_writable, CallbackSlot::Reclaimed);
    // A second abort fires nothing and changes nothing.
    assert_eq!(res.abort(), None);
    assert_eq!(res.state, ResponseState::Aborted);
}

#[test]
fn handler_slots_register_once() {
    let mut res = HttpResponseStruct::new(1024);
    assert!(res.on_aborted(1).is_ok());
    assert_eq!(res.on_aborted(2), Err(ResponseError::HandlerAlreadyRegistered));
    assert!(res.on_writable(3).is_ok());
    assert_eq!(res.on_writable(4), Err(ResponseError::HandlerAlreadyRegistered));
    assert_eq!(res.cork(5), Ok(5));
    assert_eq!(res.cork(6), Err(ResponseError::HandlerAlreadyRegistered));
}

#[test]
fn data_handler_is_one_shot_on_final_chunk() {
    let mut res = HttpResponseStruct::new(1024);
    res.on_data(21).unwrap();
    assert_eq!(res.data_chunk(false), Some(21));
    assert_eq!(res.on_data, CallbackSlot::Registered(21));
    assert_eq!(res.data_chunk(true), Some(21));
    assert_eq!(res.on_data, CallbackSlot::Reclaimed);
    assert_eq!(res.data_chunk(true), None);
}

#[test]
fn end_reclaims_attached_handlers() {
    let mut res = HttpResponseStruct::new(1024);
    res.on_aborted(1).unwrap();
    res.on_writable(2).unwrap();
    res.end(b"bye", false).unwrap();
    assert_eq!(res.on_abort, CallbackSlot::Reclaimed);
    assert_eq!(res.on_writable, CallbackSlot::Reclaimed);
    // The exchange is over: the abort event no longer fires the handler.
    assert_eq!(res.abort(), None);
}

#[test]
fn upgrade_only_from_open_state() {
    let mut res = HttpResponseStruct::new(1024);
    res.write(b"partial").unwrap();
    let ctx = UpgradeContext { context: 9 };
    assert_eq!(
        res.upgrade(b"key", None, None, ctx, None),
        Err(ResponseError::AlreadyResponded)
    );

    let mut fresh = HttpResponseStruct::new(1024);
    let ctx2 = UpgradeContext { context: 9 };
    assert!(fresh.upgrade(b"key", Some(b"chat"), None, ctx2, Some(77)).is_ok());
    assert_eq!(fresh.state, ResponseState::Upgraded);
    let rec = fresh.upgrade_record.as_ref().unwrap();
    assert_eq!(rec.ws_key, b"key".to_vec());
    assert_eq!(rec.ws_protocol, Some(b"chat".to_vec()));
    assert_eq!(rec.ws_extensions, None);
    assert_eq!(rec.context, 9);
    assert_eq!(rec.user_data, Some(77));
}

#[test]
fn default_upgrade_reads_the_ws_headers() {
    let req = request_with_ws_headers();
    let mut res = HttpResponseStruct::new(1024);
    let ctx = UpgradeContext { context: 3 };
    assert!(res.default_upgrade(&req, ctx).is_ok());
    assert_eq!(res.state, ResponseState::Upgraded);
    let rec = res.upgrade_record.as_ref().unwrap();
    assert_eq!(rec.ws_key, b"dGhlIHNhbXBsZSBub25jZQ==".to_vec());
    assert_eq!(rec.ws_protocol, Some(b"chat".to_vec()));
    assert_eq!(rec.ws_extensions, None);
    assert_eq!(rec.user_data, None);
}

#[test]
fn write_header_int_records_the_number() {
    let mut res = HttpResponseStruct::new(1024);
    res.write_header_int(b"content-length", 42).unwrap();
    assert_eq!(res.headers[0].0, b"content-length".to_vec());
    assert_eq!(res.headers[0].1, HeaderValue::Number(42));
}

#[test]
fn write_offset_tracks_and_can_be_overridden() {
    let mut res = HttpResponseStruct::new(1024);
    res.write(b"abcde").unwrap();
    assert_eq!(res.get_write_offset(), 5);
    res.override_write_offset(2);
    assert_eq!(res.get_write_offset(), 2);
}

#[test]
fn pause_resume_and_continue() {
    let mut res = HttpResponseStruct::new(1024);
    res.pause();
    assert!(res.paused);
    res.resume();
    assert!(!res.paused);
    res.write_continue();
    assert!(res.continue_sent);
}
