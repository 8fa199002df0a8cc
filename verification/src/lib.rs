//! A verified model of an event-driven HTTP / WebSocket server front-end.
//!
//! The native socket engine (TCP, TLS, event multiplexing) lives outside this
//! crate; what is modelled and verified here is the connection-callback
//! framework built on top of it: the route registry and its dispatch rules,
//! the HTTP response state machine with its single-terminal-action discipline,
//! the WebSocket send / backpressure / subscription semantics, the lifecycle
//! ordering of connection callbacks, and the byte-level policies (UTF-8
//! truncation, compression option encoding) that the framework promises to
//! its handlers.

pub mod app;
pub mod http_request;
pub mod http_response;
pub mod lifecycle;
pub mod us_socket_context_options;
pub mod utils;
pub mod uws_loop;
pub mod websocket;
pub mod websocket_behavior;
