//! The outgoing half of an HTTP exchange, modelled as an explicit state
//! machine.  A response starts `Open`, may move to `Streaming` as body
//! bytes are written, and ends in exactly one of the terminal states
//! `Finished` (a terminal write succeeded), `Aborted` (the peer
//! disconnected first) or `Upgraded` (the connection switched to the
//! WebSocket protocol).  At most one terminal action succeeds; any later
//! one is rejected.
//!
//! Each response owns up to four attached handler closures (abort, data,
//! writable, cork), tracked here as slots.  A slot moves from `Vacant` to
//! `Registered` at registration and from `Registered` to `Reclaimed` when
//! its closure's ownership is taken back — and those are the only
//! transitions, so a closure is reclaimed at most once and never invoked
//! after reclamation.

use vstd::prelude::*;

use crate::utils::append_bytes;
use crate::utils::copy_bytes;

verus! {

/// Protocol state of one HTTP response stream.
#[derive(Clone, Copy, Debug, PartialEq, Eq, Structural)]
pub enum ResponseState {
    Open,
    Streaming,
    Upgraded,
    Finished,
    Aborted,
}

/// States in which the exchange is over and no further action is valid.
pub open spec fn is_terminal_state(s: ResponseState) -> bool {
    s is Upgraded || s is Finished || s is Aborted
}

/// Ownership state of one attached handler closure.  `Registered` carries
/// the token under which the embedder registered the closure.
#[derive(Clone, Copy, Debug, PartialEq, Eq, Structural)]
pub enum CallbackSlot {
    Vacant,
    Registered(u64),
    Reclaimed,
}

/// The one-step reclamation discipline: a registered closure is reclaimed,
/// everything else is left untouched.
pub open spec fn reclaimed(slot: CallbackSlot) -> CallbackSlot {
    match slot {
        CallbackSlot::Registered(_) => CallbackSlot::Reclaimed,
        other => other,
    }
}

/// Errors for caller-contract violations on a response stream.
#[derive(Clone, Copy, Debug, PartialEq, Eq, Structural)]
pub enum ResponseError {
    /// A terminal action had already succeeded (or the peer had aborted).
    AlreadyResponded,
    /// The callback slot already holds a closure.
    HandlerAlreadyRegistered,
}

/// Result of `try_end`: `ok` reports that the whole response was flushed
/// without exceeding the backpressure threshold; `has_responded` reports
/// that the response was finalized (possibly still queued).
#[derive(Clone, Copy, Debug, PartialEq, Eq, Structural)]
pub struct TryEndResult {
    pub ok: bool,
    pub has_responded: bool,
}

/// A header value as handed to the engine: either raw bytes or an integer
/// the engine renders in decimal.
#[derive(Clone, Debug, PartialEq, Eq)]
pub enum HeaderValue {
    Text(Vec<u8>),
    Number(u64),
}

/// Everything recorded by a successful protocol upgrade.
#[derive(Clone, Debug, PartialEq, Eq)]
pub struct UpgradeRecord {
    pub ws_key: Vec<u8>,
    pub ws_protocol: Option<Vec<u8>>,
    pub ws_extensions: Option<Vec<u8>>,
    pub context: u64,
    pub user_data: Option<u64>,
}

/// Model of one HTTP response stream.
///
/// The engine-facing quantities are modelled as plain values: `buffered` is
/// the number of body bytes queued behind backpressure, `peer_ready` says
/// whether the socket can currently flush immediately (cleared by the
/// engine when the peer is slow, set again by a drain), and
/// `max_backpressure` is the configured threshold past which writes are
/// refused.
pub struct HttpResponseStruct {
    pub state: ResponseState,
    pub on_abort: CallbackSlot,
    pub on_data: CallbackSlot,
    pub on_writable: CallbackSlot,
    pub on_cork: CallbackSlot,
    pub status: Option<Vec<u8>>,
    pub headers: Vec<(Vec<u8>, HeaderValue)>,
    pub body: Vec<u8>,
    pub buffered: u64,
    pub peer_ready: bool,
    pub max_backpressure: u64,
    pub write_offset: u64,
    pub paused: bool,
    pub continue_sent: bool,
    pub close_connection: bool,
    pub declared_total: Option<u64>,
    pub upgrade_record: Option<UpgradeRecord>,
}

impl HttpResponseStruct {
    /// A response is well formed when a finished exchange holds no
    /// registered closure (they were reclaimed exactly once on the way
    /// out) and a ready peer implies an empty queue.
    pub open spec fn wf(self) -> bool {
        &&& (is_terminal_state(self.state) ==> {
            &&& !(self.on_abort is Registered)
            &&& !(self.on_data is Registered)
            &&& !(self.on_writable is Registered)
            &&& !(self.on_cork is Registered)
        })
        &&& (self.peer_ready ==> self.buffered == 0)
    }

    /// Whether a terminal action can still succeed.
    pub open spec fn can_finalize(self) -> bool {
        self.state is Open || self.state is Streaming
    }

    /// Whether status and header writes are accepted.
    pub open spec fn writable(self) -> bool {
        self.state is Open || self.state is Streaming
    }

    /// Whether a body write of `len` bytes is taken without exceeding the
    /// backpressure threshold.
    pub open spec fn write_accepted(self, len: nat) -> bool {
        self.peer_ready || self.buffered + len <= self.max_backpressure
    }

    /// Fresh response for a newly accepted request, under the engine's
    /// configured backpressure threshold.
    pub fn new(max_backpressure: u64) -> (r: HttpResponseStruct)
        ensures
            r.wf(),
            r.state is Open,
            r.on_abort is Vacant,
            r.on_data is Vacant,
            r.on_writable is Vacant,
            r.on_cork is Vacant,
            r.status is None,
            r.headers@.len() == 0,
            r.body@.len() == 0,
            r.buffered == 0,
            r.peer_ready,
            r.max_backpressure == max_backpressure,
            r.write_offset == 0,
            !r.paused,
            !r.continue_sent,
            !r.close_connection,
            r.declared_total is None,
            r.upgrade_record is None,
    {
        HttpResponseStruct {
            state: ResponseState::Open,
            on_abort: CallbackSlot::Vacant,
            on_data: CallbackSlot::Vacant,
            on_writable: CallbackSlot::Vacant,
            on_cork: CallbackSlot::Vacant,
            status: None,
            headers: Vec::new(),
            body: Vec::new(),
            buffered: 0,
            peer_ready: true,
            max_backpressure,
            write_offset: 0,
            paused: false,
            continue_sent: false,
            close_connection: false,
            declared_total: None,
            upgrade_record: None,
        }
    }

    /// Record the status line.  Accepted only while the response is still
    /// writable; ordering mistakes beyond that are the engine's concern
    /// and are not re-validated here.
    pub fn write_status(&mut self, status: &[u8]) -> (r: Result<(), ResponseError>)
        requires
            old(self).wf(),
        ensures
            final(self).wf(),
            r is Ok <==> old(self).writable(),
            old(self).writable() ==> *final(self) == (HttpResponseStruct {
                status: Some(final(self).status->0),
                ..*old(self)
            }) && final(self).status->0@ == status@,
            !old(self).writable() ==> *final(self) == *old(self),
    {
        if self.state == ResponseState::Open || self.state == ResponseState::Streaming {
            self.status = Some(copy_bytes(status));
            Ok(())
        } else {
            Err(ResponseError::AlreadyResponded)
        }
    }

    /// Append a header with a byte-string value.
    pub fn write_header(&mut self, key: &[u8], value: &[u8]) -> (r: Result<(), ResponseError>)
        requires
            old(self).wf(),
        ensures
            final(self).wf(),
            r is Ok <==> old(self).writable(),
            old(self).writable() ==> {
                let hs = final(self).headers@;
                &&& hs.len() == old(self).headers@.len() + 1
                &&& hs.take(old(self).headers@.len() as int) == old(self).headers@
                &&& hs.last().0@ == key@
                &&& hs.last().1 matches HeaderValue::Text(v) && v@ == value@
                &&& *final(self) == (HttpResponseStruct {
                    headers: final(self).headers,
                    ..*old(self)
                })
            },
            !old(self).writable() ==> *final(self) == *old(self),
    {
        if self.state == ResponseState::Open || self.state == ResponseState::Streaming {
            self.headers.push((copy_bytes(key), HeaderValue::Text(copy_bytes(value))));
            proof {
                assert(final(self).headers@.take(old(self).headers@.len() as int) =~= old(
                    self,
                ).headers@);
            }
            Ok(())
        } else {
            Err(ResponseError::AlreadyResponded)
        }
    }

    /// Append a header whose value the engine renders as a decimal number.
    pub fn write_header_int(&mut self, key: &[u8], value: u64) -> (r: Result<(), ResponseError>)
        requires
            old(self).wf(),
        ensures
            final(self).wf(),
            r is Ok <==> old(self).writable(),
            old(self).writable() ==> {
                let hs = final(self).headers@;
                &&& hs.len() == old(self).headers@.len() + 1
                &&& hs.take(old(self).headers@.len() as int) == old(self).headers@
                &&& hs.last().0@ == key@
                &&& hs.last().1 == HeaderValue::Number(value)
                &&& *final(self) == (HttpResponseStruct {
                    headers: final(self).headers,
                    ..*old(self)
                })
            },
            !old(self).writable() ==> *final(self) == *old(self),
    {
        if self.state == ResponseState::Open || self.state == ResponseState::Streaming {
            self.headers.push((copy_bytes(key), HeaderValue::Number(value)));
            Ok(())
        } else {
            Err(ResponseError::AlreadyResponded)
        }
    }

    /// Append body bytes without finishing the response.  The return value
    /// reports whether the engine accepted the bytes without exceeding the
    /// backpressure threshold; `false` tells the caller to stop producing
    /// until a drain notification arrives.
    pub fn write(&mut self, data: &[u8]) -> (r: Result<bool, ResponseError>)
        requires
            old(self).wf(),
            old(self).buffered + data@.len() <= u64::MAX,
            old(self).write_offset + data@.len() <= u64::MAX,
        ensures
            final(self).wf(),
            r is Ok <==> old(self).writable(),
            !old(self).writable() ==> *final(self) == *old(self),
            old(self).writable() ==> r == Ok::<bool, ResponseError>(
                old(self).write_accepted(data@.len()),
            ),
            old(self).writable() ==> {
                &&& final(self).state is Streaming
                &&& final(self).body@ == old(self).body@ + data@
                &&& final(self).write_offset == old(self).write_offset + data@.len()
                &&& *final(self) == (HttpResponseStruct {
                    state: final(self).state,
                    body: final(self).body,
                    buffered: final(self).buffered,
                    write_offset: final(self).write_offset,
                    ..*old(self)
                })
                &&& old(self).peer_ready ==> final(self).buffered == 0 && r == Ok::<
                    bool,
                    ResponseError,
                >(true)
                &&& !old(self).peer_ready ==> final(self).buffered == old(self).buffered
                    + data@.len() && r == Ok::<bool, ResponseError>(
                    final(self).buffered <= old(self).max_backpressure,
                )
            },
    {
        if self.state == ResponseState::Open || self.state == ResponseState::Streaming {
            self.state = ResponseState::Streaming;
            append_bytes(&mut self.body, data);
            self.write_offset = self.write_offset + data.len() as u64;
            if self.peer_ready {
                Ok(true)
            } else {
                self.buffered = self.buffered + data.len() as u64;
                Ok(self.buffered <= self.max_backpressure)
            }
        } else {
            Err(ResponseError::AlreadyResponded)
        }
    }

    /// Unconditional terminal write: append the final bytes, finish the
    /// response, and reclaim the abort, writable and cork closures.  Fails
    /// if a terminal action already succeeded.
    pub fn end(&mut self, data: &[u8], close_connection: bool) -> (r: Result<(), ResponseError>)
        requires
            old(self).wf(),
            old(self).write_offset + data@.len() <= u64::MAX,
        ensures
            final(self).wf(),
            r is Ok <==> old(self).can_finalize(),
            !old(self).can_finalize() ==> *final(self) == *old(self),
            old(self).can_finalize() ==> {
                &&& final(self).state is Finished
                &&& final(self).body@ == old(self).body@ + data@
                &&& final(self).close_connection == close_connection
                &&& final(self).on_abort == reclaimed(old(self).on_abort)
                &&& final(self).on_data == reclaimed(old(self).on_data)
                &&& final(self).on_writable == reclaimed(old(self).on_writable)
                &&& final(self).on_cork == reclaimed(old(self).on_cork)
                &&& final(self).write_offset == old(self).write_offset + data@.len()
                &&& *final(self) == (HttpResponseStruct {
                    state: final(self).state,
                    body: final(self).body,
                    close_connection: final(self).close_connection,
                    on_abort: final(self).on_abort,
                    on_data: final(self).on_data,
                    on_writable: final(self).on_writable,
                    on_cork: final(self).on_cork,
                    write_offset: final(self).write_offset,
                    ..*old(self)
                })
            },
    {
        if self.state == ResponseState::Open || self.state == ResponseState::Streaming {
            append_bytes(&mut self.body, data);
            self.write_offset = self.write_offset + data.len() as u64;
            self.state = ResponseState::Finished;
            self.close_connection = close_connection;
            self.reclaim_all_slots();
            Ok(())
        } else {
            Err(ResponseError::AlreadyResponded)
        }
    }

    /// Terminal write with no body, for status-only responses.
    pub fn end_without_body(&mut self, close_connection: bool) -> (r: Result<(), ResponseError>)
        requires
            old(self).wf(),
        ensures
            final(self).wf(),
            r is Ok <==> old(self).can_finalize(),
            !old(self).can_finalize() ==> *final(self) == *old(self),
            old(self).can_finalize() ==> {
                &&& final(self).state is Finished
                &&& final(self).body@ == old(self).body@
                &&& final(self).close_connection == close_connection
                &&& final(self).on_abort == reclaimed(old(self).on_abort)
                &&& final(self).on_data == reclaimed(old(self).on_data)
                &&& final(self).on_writable == reclaimed(old(self).on_writable)
                &&& final(self).on_cork == reclaimed(old(self).on_cork)
                &&& *final(self) == (HttpResponseStruct {
                    state: final(self).state,
                    close_connection: final(self).close_connection,
                    on_abort: final(self).on_abort,
                    on_data: final(self).on_data,
                    on_writable: final(self).on_writable,
                    on_cork: final(self).on_cork,
                    ..*old(self)
                })
            },
    {
        if self.state == ResponseState::Open || self.state == ResponseState::Streaming {
            self.state = ResponseState::Finished;
            self.close_connection = close_connection;
            self.reclaim_all_slots();
            Ok(())
        } else {
            Err(ResponseError::AlreadyResponded)
        }
    }

    /// Attempt to finish the response when the total size is known.  If the
    /// peer can flush, everything is written and `ok` is reported.  If the
    /// bytes still fit under the backpressure threshold they are queued and
    /// the response is finalized with `ok == false` (`has_responded` is
    /// reported regardless of `ok`).  Otherwise nothing is taken and the
    /// caller should call again after a drain notification.
    pub fn try_end(&mut self, data: &[u8], total_size: u64, close_connection: bool) -> (r: Result<
        TryEndResult,
        ResponseError,
    >)
        requires
            old(self).wf(),
            old(self).buffered + data@.len() <= u64::MAX,
            old(self).write_offset + data@.len() <= u64::MAX,
        ensures
            final(self).wf(),
            r is Ok <==> old(self).can_finalize(),
            !old(self).can_finalize() ==> *final(self) == *old(self),
            old(self).can_finalize() ==> {
                let res = r->Ok_0;
                &&& res.ok == old(self).peer_ready
                &&& res.has_responded == (old(self).peer_ready || old(self).buffered + data@.len()
                    <= old(self).max_backpressure)
                &&& res.has_responded ==> {
                    &&& final(self).state is Finished
                    &&& final(self).body@ == old(self).body@ + data@
                    &&& final(self).close_connection == close_connection
                    &&& final(self).declared_total == Some(total_size)
                    &&& final(self).write_offset == old(self).write_offset + data@.len()
                    &&& (old(self).peer_ready ==> final(self).buffered == 0)
                    &&& (!old(self).peer_ready ==> final(self).buffered == old(self).buffered
                        + data@.len())
                    &&& final(self).on_abort == reclaimed(old(self).on_abort)
                    &&& final(self).on_data == reclaimed(old(self).on_data)
                    &&& final(self).on_writable == reclaimed(old(self).on_writable)
                    &&& final(self).on_cork == reclaimed(old(self).on_cork)
                    &&& *final(self) == (HttpResponseStruct {
                        state: final(self).state,
                        body: final(self).body,
                        close_connection: final(self).close_connection,
                        declared_total: final(self).declared_total,
                        write_offset: final(self).write_offset,
                        buffered: final(self).buffered,
                        on_abort: final(self).on_abort,
                        on_data: final(self).on_data,
                        on_writable: final(self).on_writable,
                        on_cork: final(self).on_cork,
                        ..*old(self)
                    })
                }
                &&& !res.has_responded ==> *final(self) == *old(self)
            },
    {
        if self.state == ResponseState::Open || self.state == ResponseState::Streaming {
            if self.peer_ready || self.buffered + data.len() as u64 <= self.max_backpressure {
                let flushed = self.peer_ready;
                append_bytes(&mut self.body, data);
                self.write_offset = self.write_offset + data.len() as u64;
                if !self.peer_ready {
                    self.buffered = self.buffered + data.len() as u64;
                }
                self.state = ResponseState::Finished;
                self.close_connection = close_connection;
                self.declared_total = Some(total_size);
                self.reclaim_all_slots();
                Ok(TryEndResult { ok: flushed, has_responded: true })
            } else {
                Ok(TryEndResult { ok: false, has_responded: false })
            }
        } else {
            Err(ResponseError::AlreadyResponded)
        }
    }

    /// Attach the abort-notification closure, registered under `handler`.
    /// It may be registered once, and only while the exchange is live.
    pub fn on_aborted(&mut self, handler: u64) -> (r: Result<(), ResponseError>)
        requires
            old(self).wf(),
        ensures
            final(self).wf(),
            r is Ok <==> old(self).writable() && old(self).on_abort is Vacant,
            r is Ok ==> *final(self) == (HttpResponseStruct {
                on_abort: CallbackSlot::Registered(handler),
                ..*old(self)
            }),
            r is Err ==> *final(self) == *old(self),
    {
        if !(self.state == ResponseState::Open || self.state == ResponseState::Streaming) {
            Err(ResponseError::AlreadyResponded)
        } else if !(self.on_abort == CallbackSlot::Vacant) {
            Err(ResponseError::HandlerAlreadyRegistered)
        } else {
            self.on_abort = CallbackSlot::Registered(handler);
            Ok(())
        }
    }

    /// Attach the streaming body-receive closure, registered under
    /// `handler`; it is invoked once per received chunk.
    pub fn on_data(&mut self, handler: u64) -> (r: Result<(), ResponseError>)
        requires
            old(self).wf(),
        ensures
            final(self).wf(),
            r is Ok <==> old(self).writable() && old(self).on_data is Vacant,
            r is Ok ==> *final(self) == (HttpResponseStruct {
                on_data: CallbackSlot::Registered(handler),
                ..*old(self)
            }),
            r is Err ==> *final(self) == *old(self),
    {
        if !(self.state == ResponseState::Open || self.state == ResponseState::Streaming) {
            Err(ResponseError::AlreadyResponded)
        } else if !(self.on_data == CallbackSlot::Vacant) {
            Err(ResponseError::HandlerAlreadyRegistered)
        } else {
            self.on_data = CallbackSlot::Registered(handler);
            Ok(())
        }
    }

    /// Attach the closure invoked when backpressure clears, registered
    /// under `handler`.
    pub fn on_writable(&mut self, handler: u64) -> (r: Result<(), ResponseError>)
        requires
            old(self).wf(),
        ensures
            final(self).wf(),
            r is Ok <==> old(self).writable() && old(self).on_writable is Vacant,
            r is Ok ==> *final(self) == (HttpResponseStruct {
                on_writable: CallbackSlot::Registered(handler),
                ..*old(self)
            }),
            r is Err ==> *final(self) == *old(self),
    {
        if !(self.state == ResponseState::Open || self.state == ResponseState::Streaming) {
            Err(ResponseError::AlreadyResponded)
        } else if !(self.on_writable == CallbackSlot::Vacant) {
            Err(ResponseError::HandlerAlreadyRegistered)
        } else {
            self.on_writable = CallbackSlot::Registered(handler);
            Ok(())
        }
    }

    /// Attach a cork closure, registered under `handler`, to be invoked
    /// synchronously with its writes batched into one flush.  The returned
    /// token is the closure to invoke now; a response holds at most one
    /// outstanding cork closure.
    pub fn cork(&mut self, handler: u64) -> (r: Result<u64, ResponseError>)
        requires
            old(self).wf(),
        ensures
            final(self).wf(),
            r is Ok <==> old(self).writable() && old(self).on_cork is Vacant,
            r is Ok ==> r->Ok_0 == handler && *final(self) == (HttpResponseStruct {
                on_cork: CallbackSlot::Registered(handler),
                ..*old(self)
            }),
            r is Err ==> *final(self) == *old(self),
    {
        if !(self.state == ResponseState::Open || self.state == ResponseState::Streaming) {
            Err(ResponseError::AlreadyResponded)
        } else if !(self.on_cork == CallbackSlot::Vacant) {
            Err(ResponseError::HandlerAlreadyRegistered)
        } else {
            self.on_cork = CallbackSlot::Registered(handler);
            Ok(handler)
        }
    }

    /// Peer-disconnect event from the engine.  If the exchange was still
    /// live it moves to `Aborted`, the abort closure (if any) is the one to
    /// invoke — exactly once — and every attached closure is reclaimed.
    /// On an already finished exchange the event is inert.
    pub fn abort(&mut self) -> (fired: Option<u64>)
        requires
            old(self).wf(),
        ensures
            final(self).wf(),
            !old(self).can_finalize() ==> fired is None && *final(self) == *old(self),
            old(self).can_finalize() ==> {
                &&& final(self).state is Aborted
                &&& (match old(self).on_abort {
                    CallbackSlot::Registered(h) => fired == Some(h),
                    _ => fired is None,
                })
                &&& final(self).on_abort == reclaimed(old(self).on_abort)
                &&& final(self).on_data == reclaimed(old(self).on_data)
                &&& final(self).on_writable == reclaimed(old(self).on_writable)
                &&& final(self).on_cork == reclaimed(old(self).on_cork)
                &&& *final(self) == (HttpResponseStruct {
                    state: final(self).state,
                    on_abort: final(self).on_abort,
                    on_data: final(self).on_data,
                    on_writable: final(self).on_writable,
                    on_cork: final(self).on_cork,
                    ..*old(self)
                })
            },
    {
        if self.state == ResponseState::Open || self.state == ResponseState::Streaming {
            let fired = match self.on_abort {
                CallbackSlot::Registered(h) => Some(h),
                _ => None,
            };
            self.state = ResponseState::Aborted;
            self.reclaim_all_slots();
            fired
        } else {
            None
        }
    }

    /// Drain notification from the engine: backpressure has cleared.  The
    /// writable closure, if one is registered on a live exchange, is the
    /// one to invoke; it stays registered for further notifications.
    pub fn drain(&mut self) -> (fired: Option<u64>)
        requires
            old(self).wf(),
        ensures
            final(self).wf(),
            final(self).peer_ready,
            final(self).buffered == 0,
            *final(self) == (HttpResponseStruct {
                peer_ready: true,
                buffered: 0,
                ..*old(self)
            }),
            (match old(self).on_writable {
                CallbackSlot::Registered(h) => fired == (if old(self).writable() {
                    Some(h)
                } else {
                    None
                }),
                _ => fired is None,
            }),
    {
        self.peer_ready = true;
        self.buffered = 0;
        if self.state == ResponseState::Open || self.state == ResponseState::Streaming {
            match self.on_writable {
                CallbackSlot::Registered(h) => Some(h),
                _ => None,
            }
        } else {
            None
        }
    }

    /// A chunk of the request body arrived.  The data closure, if
    /// registered, is the one to invoke with the chunk; on the final chunk
    /// its ownership is reclaimed immediately after that invocation.
    pub fn data_chunk(&mut self, is_last: bool) -> (fired: Option<u64>)
        requires
            old(self).wf(),
        ensures
            final(self).wf(),
            (match old(self).on_data {
                CallbackSlot::Registered(h) => fired == Some(h),
                _ => fired is None,
            }),
            is_last ==> final(self).on_data == reclaimed(old(self).on_data),
            !is_last ==> final(self).on_data == old(self).on_data,
            *final(self) == (HttpResponseStruct { on_data: final(self).on_data, ..*old(self) }),
    {
        let fired = match self.on_data {
            CallbackSlot::Registered(h) => Some(h),
            _ => None,
        };
        if is_last {
            self.on_data = reclaim_slot(self.on_data);
        }
        fired
    }

    /// Stop delivering request-body data for this response.
    pub fn pause(&mut self)
        ensures
            *final(self) == (HttpResponseStruct { paused: true, ..*old(self) }),
    {
        self.paused = true;
    }

    /// Resume delivery of request-body data.
    pub fn resume(&mut self)
        ensures
            *final(self) == (HttpResponseStruct { paused: false, ..*old(self) }),
    {
        self.paused = false;
    }

    /// Send an interim `100 Continue`, recorded while the exchange is live.
    pub fn write_continue(&mut self)
        ensures
            final(self).continue_sent == (old(self).continue_sent || old(self).writable()),
            *final(self) == (HttpResponseStruct {
                continue_sent: final(self).continue_sent,
                ..*old(self)
            }),
    {
        if self.state == ResponseState::Open || self.state == ResponseState::Streaming {
            self.continue_sent = true;
        }
    }

    /// Number of body bytes handed to the engine so far.
    pub fn get_write_offset(&self) -> (r: u64)
        ensures
            r == self.write_offset,
    {
        self.write_offset
    }

    /// Overwrite the engine's write offset, for callers that re-send a
    /// region after a failed `try_end`.
    pub fn override_write_offset(&mut self, offset: u64)
        ensures
            *final(self) == (HttpResponseStruct { write_offset: offset, ..*old(self) }),
    {
        self.write_offset = offset;
    }

    /// Whether a terminal write has completed this response.
    pub fn has_responded(&self) -> (r: bool)
        ensures
            r == (self.state is Finished),
    {
        self.state == ResponseState::Finished
    }

    /// Protocol upgrade handshake.  The caller passes the
    /// `sec-websocket-key` request header verbatim, with the optional
    /// protocol and extensions headers.  Valid only in `Open`: once body
    /// bytes were written or a terminal action succeeded the upgrade is
    /// rejected instead of reaching the engine in an undefined state.  On
    /// success the response speaks WebSocket from now on and every
    /// HTTP-side closure is reclaimed.
    pub fn upgrade(
        &mut self,
        ws_key: &[u8],
        ws_protocol: Option<&[u8]>,
        ws_extensions: Option<&[u8]>,
        context: crate::websocket_behavior::UpgradeContext,
        user_data: Option<u64>,
    ) -> (r: Result<(), ResponseError>)
        requires
            old(self).wf(),
        ensures
            final(self).wf(),
            r is Ok <==> old(self).state is Open,
            r is Err ==> *final(self) == *old(self),
            r is Ok ==> {
                &&& final(self).state is Upgraded
                &&& final(self).upgrade_record matches Some(rec) && {
                    &&& rec.ws_key@ == ws_key@
                    &&& (match ws_protocol {
                        Some(p) => rec.ws_protocol matches Some(v) && v@ == p@,
                        None => rec.ws_protocol is None,
                    })
                    &&& (match ws_extensions {
                        Some(e) => rec.ws_extensions matches Some(v) && v@ == e@,
                        None => rec.ws_extensions is None,
                    })
                    &&& rec.context == context.context
                    &&& rec.user_data == user_data
                }
                &&& final(self).on_abort == reclaimed(old(self).on_abort)
                &&& final(self).on_data == reclaimed(old(self).on_data)
                &&& final(self).on_writable == reclaimed(old(self).on_writable)
                &&& final(self).on_cork == reclaimed(old(self).on_cork)
                &&& *final(self) == (HttpResponseStruct {
                    state: final(self).state,
                    upgrade_record: final(self).upgrade_record,
                    on_abort: final(self).on_abort,
                    on_data: final(self).on_data,
                    on_writable: final(self).on_writable,
                    on_cork: final(self).on_cork,
                    ..*old(self)
                })
            },
    {
        if self.state == ResponseState::Open {
            let protocol = match ws_protocol {
                Some(p) => Some(copy_bytes(p)),
                None => None,
            };
            let extensions = match ws_extensions {
                Some(e) => Some(copy_bytes(e)),
                None => None,
            };
            self.upgrade_record = Some(
                UpgradeRecord {
                    ws_key: copy_bytes(ws_key),
                    ws_protocol: protocol,
                    ws_extensions: extensions,
                    context: context.context,
                    user_data,
                },
            );
            self.state = ResponseState::Upgraded;
            self.reclaim_all_slots();
            Ok(())
        } else {
            Err(ResponseError::AlreadyResponded)
        }
    }

    /// Default upgrade path: read the `sec-websocket-key`,
    /// `sec-websocket-protocol` and `sec-websocket-extensions` request
    /// headers and perform the handshake immediately, with no extra user
    /// data.  The key header is mandatory; a request lacking it is a
    /// caller fault and is excluded by precondition.
    pub fn default_upgrade(
        &mut self,
        req: &crate::http_request::HttpRequest,
        context: crate::websocket_behavior::UpgradeContext,
    ) -> (r: Result<(), ResponseError>)
        requires
            old(self).wf(),
            crate::http_request::header_lookup(req.headers@, sec_websocket_key_name()) is Some,
        ensures
            final(self).wf(),
            r is Ok <==> old(self).state is Open,
            r is Err ==> *final(self) == *old(self),
            r is Ok ==> {
                &&& final(self).state is Upgraded
                &&& final(self).upgrade_record matches Some(rec) && {
                    &&& Some(rec.ws_key@) == crate::http_request::header_lookup(
                        req.headers@,
                        sec_websocket_key_name(),
                    )
                    &&& (match crate::http_request::header_lookup(
                        req.headers@,
                        sec_websocket_protocol_name(),
                    ) {
                        Some(p) => rec.ws_protocol matches Some(v) && v@ == p,
                        None => rec.ws_protocol is None,
                    })
                    &&& (match crate::http_request::header_lookup(
                        req.headers@,
                        sec_websocket_extensions_name(),
                    ) {
                        Some(e) => rec.ws_extensions matches Some(v) && v@ == e,
                        None => rec.ws_extensions is None,
                    })
                    &&& rec.context == context.context
                    &&& rec.user_data is None
                }
            },
    {
        let key_name = sec_websocket_key_bytes();
        let ws_key = match req.get_header(key_name.as_slice()) {
            Some(v) => v,
            None => {
                return Err(ResponseError::AlreadyResponded);
            },
        };
        let protocol_name = sec_websocket_protocol_bytes();
        let ws_protocol = req.get_header(protocol_name.as_slice());
        let extensions_name = sec_websocket_extensions_bytes();
        let ws_extensions = req.get_header(extensions_name.as_slice());
        let protocol_slice: Option<&[u8]> = match ws_protocol {
            Some(v) => Some(v.as_slice()),
            None => None,
        };
        let extensions_slice: Option<&[u8]> = match ws_extensions {
            Some(v) => Some(v.as_slice()),
            None => None,
        };
        self.upgrade(ws_key.as_slice(), protocol_slice, extensions_slice, context, None)
    }

    /// Reclaim every attached closure that is still registered.  Private
    /// helper for the terminal transitions; each slot moves
    /// `Registered -> Reclaimed` at most once.
    fn reclaim_all_slots(&mut self)
        ensures
            final(self).on_abort == reclaimed(old(self).on_abort),
            final(self).on_data == reclaimed(old(self).on_data),
            final(self).on_writable == reclaimed(old(self).on_writable),
            final(self).on_cork == reclaimed(old(self).on_cork),
            *final(self) == (HttpResponseStruct {
                on_abort: final(self).on_abort,
                on_data: final(self).on_data,
                on_writable: final(self).on_writable,
                on_cork: final(self).on_cork,
                ..*old(self)
            }),
    {
        self.on_abort = reclaim_slot(self.on_abort);
        self.on_data = reclaim_slot(self.on_data);
        self.on_writable = reclaim_slot(self.on_writable);
        self.on_cork = reclaim_slot(self.on_cork);
    }
}

/// The name of the mandatory upgrade request header, `sec-websocket-key`.
pub open spec fn sec_websocket_key_name() -> Seq<u8> {
    seq![115u8, 101, 99, 45, 119, 101, 98, 115, 111, 99, 107, 101, 116, 45, 107, 101, 121]
}

/// The name of the optional `sec-websocket-protocol` request header.
pub open spec fn sec_websocket_protocol_name() -> Seq<u8> {
    seq![
        115u8,
        101,
        99,
        45,
        119,
        101,
        98,
        115,
        111,
        99,
        107,
        101,
        116,
        45,
        112,
        114,
        111,
        116,
        111,
        99,
        111,
        108,
    ]
}

/// The name of the optional `sec-websocket-extensions` request header.
pub open spec fn sec_websocket_extensions_name() -> Seq<u8> {
    seq![
        115u8,
        101,
        99,
        45,
        119,
        101,
        98,
        115,
        111,
        99,
        107,
        101,
        116,
        45,
        101,
        120,
        116,
        101,
        110,
        115,
        105,
        111,
        110,
        115,
    ]
}

/// `sec-websocket-key` as bytes.
pub fn sec_websocket_key_bytes() -> (r: Vec<u8>)
    ensures
        r@ == sec_websocket_key_name(),
{
    let mut v: Vec<u8> = Vec::new();
    v.push(115);
    v.push(101);
    v.push(99);
    v.push(45);
    v.push(119);
    v.push(101);
    v.push(98);
    v.push(115);
    v.push(111);
    v.push(99);
    v.push(107);
    v.push(101);
    v.push(116);
    v.push(45);
    v.push(107);
    v.push(101);
    v.push(121);
    proof {
        assert(v@ =~= sec_websocket_key_name());
    }
    v
}

/// `sec-websocket-protocol` as bytes.
pub fn sec_websocket_protocol_bytes() -> (r: Vec<u8>)
    ensures
        r@ == sec_websocket_protocol_name(),
{
    let mut v: Vec<u8> = Vec::new();
    v.push(115);
    v.push(101);
    v.push(99);
    v.push(45);
    v.push(119);
    v.push(101);
    v.push(98);
    v.push(115);
    v.push(111);
    v.push(99);
    v.push(107);
    v.push(101);
    v.push(116);
    v.push(45);
    v.push(112);
    v.push(114);
    v.push(111);
    v.push(116);
    v.push(111);
    v.push(99);
    v.push(111);
    v.push(108);
    proof {
        assert(v@ =~= sec_websocket_protocol_name());
    }
    v
}

/// `sec-websocket-extensions` as bytes.
pub fn sec_websocket_extensions_bytes() -> (r: Vec<u8>)
    ensures
        r@ == sec_websocket_extensions_name(),
{
    let mut v: Vec<u8> = Vec::new();
    v.push(115);
    v.push(101);
    v.push(99);
    v.push(45);
    v.push(119);
    v.push(101);
    v.push(98);
    v.push(115);
    v.push(111);
    v.push(99);
    v.push(107);
    v.push(101);
    v.push(116);
    v.push(45);
    v.push(101);
    v.push(120);
    v.push(116);
    v.push(101);
    v.push(110);
    v.push(115);
    v.push(105);
    v.push(111);
    v.push(110);
    v.push(115);
    proof {
        assert(v@ =~= sec_websocket_extensions_name());
    }
    v
}

/// At most one terminal action succeeds per response stream.  Every
/// terminal operation (`end`, `end_without_body`, an accepted `try_end`,
/// `upgrade`, and the peer-abort event) succeeds only from a live state
/// (`Open` or `Streaming`, per `can_finalize`) and leaves the stream in a
/// terminal state — and a terminal state is never live, so after one
/// success every further terminal action is rejected.
pub proof fn lemma_at_most_one_terminal_action(r: HttpResponseStruct)
    ensures
        is_terminal_state(r.state) ==> !r.can_finalize(),
        r.can_finalize() ==> !is_terminal_state(r.state),
{
}

/// Repeated body writes past the configured threshold stop being
/// accepted: while the peer is not draining, any write that would push the
/// queued amount beyond `max_backpressure` is refused, and after a drain
/// notification (which empties the queue and readies the peer) a retry is
/// accepted again.
pub proof fn lemma_write_backpressure(r: HttpResponseStruct, len: nat)
    ensures
        !r.peer_ready && r.buffered + len > r.max_backpressure ==> !r.write_accepted(len),
        r.peer_ready ==> r.write_accepted(len),
{
}

/// A closure's ownership is reclaimed at most once: reclamation moves only
/// a registered slot to `Reclaimed` and is inert on every other slot, so
/// no sequence of reclamations frees a closure twice.
pub proof fn lemma_reclaim_at_most_once(slot: CallbackSlot)
    ensures
        reclaimed(reclaimed(slot)) == reclaimed(slot),
        reclaimed(slot) is Reclaimed <==> slot is Registered || slot is Reclaimed,
{
}

/// Exec mirror of the one-step reclamation discipline.
fn reclaim_slot(slot: CallbackSlot) -> (r: CallbackSlot)
    ensures
        r == reclaimed(slot),
{
    match slot {
        CallbackSlot::Registered(_) => CallbackSlot::Reclaimed,
        other => other,
    }
}

} // verus!
