use uwebsockets_rs::us_socket_context_options::UsSocketContextOptions;
use uwebsockets_rs::uws_loop::DeferQueue;
use uwebsockets_rs::websocket::Opcode;
use uwebsockets_rs::websocket::SendStatus;
use uwebsockets_rs::websocket_behavior::combine_compression;
use uwebsockets_rs::websocket_behavior::CompressOptions;
use uwebsockets_rs::websocket_behavior::WebSocketBehavior;

#[test]
fn opcode_values_match_the_wire_protocol() {
    assert_eq!(Opcode::Continuation.value(), 0);
    assert_eq!(Opcode::Text.value(), 1);
    assert_eq!(Opcode::Binary.value(), 2);
    assert_eq!(Opcode::Close.value(), 8);
    assert_eq!(Opcode::Ping.value(), 9);
    assert_eq!(Opcode::Pong.value(), 10);
    for v in [0u32, 1, 2, 8, 9, 10] {
        assert_eq!(Opcode::from_value(v).unwrap().value(), v);
    }
    assert_eq!(Opcode::from_value(3), None);
    assert_eq!(Opcode::from_value(11), None);
}

#[test]
fn send_status_values_match_the_engine() {
    assert_eq!(SendStatus::Backpressure.value(), 0);
    assert_eq!(SendStatus::Success.value(), 1);
    assert_eq!(SendStatus::Dropped.value(), 2);
    assert_eq!(SendStatus::from_value(0), Some(SendStatus::Backpressure));
    assert_eq!(SendStatus::from_value(1), Some(SendStatus::Success));
    assert_eq!(SendStatus::from_value(2), Some(SendStatus::Dropped));
    assert_eq!(SendStatus::from_value(3), None);
}

#[test]
fn compression_values_match_the_engine() {
    assert_eq!(CompressOptions::Disabled.value(), 0);
    assert_eq!(CompressOptions::SharedCompressor.value(), 1);
    assert_eq!(CompressOptions::SharedDecompressor.value(), 1 << 8);
    assert_eq!(CompressOptions::DedicatedDecompressor32kb.value(), 15 << 8);
    assert_eq!(CompressOptions::DedicatedDecompressor16kb.value(), 14 << 8);
    assert_eq!(CompressOptions::DedicatedDecompressor8kb.value(), 13 << 8);
    assert_eq!(CompressOptions::DedicatedDecompressor4kb.value(), 12 << 8);
    assert_eq!(CompressOptions::DedicatedDecompressor2kb.value(), 11 << 8);
    assert_eq!(CompressOptions::DedicatedDecompressor1kb.value(), 10 << 8);
    assert_eq!(CompressOptions::DedicatedDecompressor512b.value(), 9 << 8);
    assert_eq!(
        CompressOptions::DedicatedDecompressor.value(),
        CompressOptions::DedicatedDecompressor32kb.value()
    );
    assert_eq!(CompressOptions::DedicatedCompressor3kb.value(), 9 << 4 | 1);
    assert_eq!(CompressOptions::DedicatedCompressor4kb.value(), 9 << 4 | 2);
    assert_eq!(CompressOptions::DedicatedCompressor8kb.value(), 10 << 4 | 3);
    assert_eq!(CompressOptions::DedicatedCompressor16kb.value(), 11 << 4 | 4);
    assert_eq!(CompressOptions::DedicatedCompressor32kb.value(), 12 << 4 | 5);
    assert_eq!(CompressOptions::DedicatedCompressor64kb.value(), 13 << 4 | 6);
    assert_eq!(CompressOptions::DedicatedCompressor128kb.value(), 14 << 4 | 7);
    assert_eq!(CompressOptions::DedicatedCompressor256kb.value(), 15 << 4 | 8);
    assert_eq!(
        CompressOptions::DedicatedCompressor.value(),
        CompressOptions::DedicatedCompressor256kb.value()
    );
}

#[test]
fn compressor_and_decompressor_combine_losslessly() {
    let both = combine_compression(
        CompressOptions::DedicatedCompressor256kb,
        CompressOptions::DedicatedDecompressor32kb,
    );
    assert_eq!(
        both,
        CompressOptions::DedicatedCompressor256kb.value()
            | CompressOptions::DedicatedDecompressor32kb.value()
    );
    assert_eq!(both & 0xFF, CompressOptions::DedicatedCompressor256kb.value());
    assert_eq!(both & 0xFF00, CompressOptions::DedicatedDecompressor32kb.value());
    let shared = combine_compression(
        CompressOptions::SharedCompressor,
        CompressOptions::SharedDecompressor,
    );
    assert_eq!(shared, (1 << 8) | 1);
    let none = combine_compression(CompressOptions::Disabled, CompressOptions::Disabled);
    assert_eq!(none, 0);
}

#[test]
fn behavior_splits_into_wire_form_and_callbacks() {
    let behavior = WebSocketBehavior {
        compression: 1,
        max_payload_length: 4096,
        idle_timeout: 120,
        max_backpressure: 65536,
        close_on_backpressure_limit: false,
        reset_idle_timeout_on_send: true,
        send_pings_automatically: true,
        max_lifetime: 0,
        upgrade: None,
        open: Some(10),
        message: Some(11),
        ping: None,
        pong: None,
        close: Some(12),
        drain: Some(13),
        subscription: None,
    };
    let (wire, callbacks) = behavior.into_wire();
    assert_eq!(wire.compression, 1);
    assert_eq!(wire.max_payload_length, 4096);
    assert_eq!(wire.idle_timeout, 120);
    assert_eq!(wire.max_backpressure, 65536);
    assert!(!wire.close_on_backpressure_limit);
    assert!(wire.reset_idle_timeout_on_send);
    assert!(wire.send_pings_automatically);
    assert_eq!(wire.max_lifetime, 0);
    assert!(!wire.has_upgrade);
    assert!(wire.has_open);
    assert!(wire.has_message);
    assert!(!wire.has_ping);
    assert!(!wire.has_pong);
    assert!(wire.has_close);
    assert!(wire.has_drain);
    assert!(!wire.has_subscription);
    assert_eq!(callbacks.open, Some(10));
    assert_eq!(callbacks.message, Some(11));
    assert_eq!(callbacks.close, Some(12));
    assert_eq!(callbacks.drain, Some(13));
    assert_eq!(callbacks.upgrade, None);
}

#[test]
fn socket_options_reject_embedded_nul() {
    let mut opts = UsSocketContextOptions::new();
    assert!(opts.validate());
    opts.key_file_name = Some(b"/etc/ssl/key.pem".to_vec());
    opts.ssl_ciphers = Some(b"HIGH:!aNULL".to_vec());
    assert!(opts.validate());
    opts.passphrase = Some(b"bad\0byte".to_vec());
    assert!(!opts.validate());
}

#[test]
fn deferred_callbacks_run_in_enqueue_order() {
    let mut q = DeferQueue::new();
    assert_eq!(q.take_next(), None);
    q.defer(1);
    q.defer(2);
    q.defer(3);
    assert_eq!(q.take_next(), Some(1));
    assert_eq!(q.take_next(), Some(2));
    q.defer(4);
    assert_eq!(q.take_next(), Some(3));
    assert_eq!(q.take_next(), Some(4));
    assert_eq!(q.take_next(), None);
}
