//! WebSocket connection model: frames, send statuses, opcodes, subscriptions
//! and the backpressure discipline of the per-connection send queue.

use vstd::prelude::*;

use crate::utils::bytes_eq;
use crate::utils::copy_bytes;

verus! {

/// Outcome of handing one message to the engine's send queue.
///
/// `Success` means the frame was flushed, `Backpressure` means it was queued
/// and the caller should throttle, `Dropped` means the queue was full and the
/// message was discarded.
#[derive(Clone, Copy, Debug, PartialEq, Eq, Structural)]
pub enum SendStatus {
    Backpressure,
    Success,
    Dropped,
}

/// The wire value of a send status as the engine reports it.
pub open spec fn send_status_value(s: SendStatus) -> u32 {
    match s {
        SendStatus::Backpressure => 0,
        SendStatus::Success => 1,
        SendStatus::Dropped => 2,
    }
}

impl SendStatus {
    /// Numeric form used across the engine boundary.
    pub fn value(self) -> (r: u32)
        ensures
            r == send_status_value(self),
    {
        match self {
            SendStatus::Backpressure => 0,
            SendStatus::Success => 1,
            SendStatus::Dropped => 2,
        }
    }

    /// Decode the engine's numeric send status; values outside the three
    /// defined ones are rejected.
    pub fn from_value(value: u32) -> (r: Option<SendStatus>)
        ensures
            r matches Some(s) ==> send_status_value(s) == value,
            r is Some <==> value <= 2,
    {
        match value {
            0 => Some(SendStatus::Backpressure),
            1 => Some(SendStatus::Success),
            2 => Some(SendStatus::Dropped),
            _ => None,
        }
    }
}

/// WebSocket frame opcode, matching the wire protocol's opcode space.
#[derive(Clone, Copy, Debug, PartialEq, Eq, Structural)]
pub enum Opcode {
    Continuation,
    Text,
    Binary,
    Close,
    Ping,
    Pong,
}

/// The wire value of an opcode.
pub open spec fn opcode_value(op: Opcode) -> u32 {
    match op {
        Opcode::Continuation => 0,
        Opcode::Text => 1,
        Opcode::Binary => 2,
        Opcode::Close => 8,
        Opcode::Ping => 9,
        Opcode::Pong => 10,
    }
}

/// Whether a wire value denotes a defined opcode.
pub open spec fn is_opcode_value(value: u32) -> bool {
    value == 0 || value == 1 || value == 2 || value == 8 || value == 9 || value == 10
}

impl Opcode {
    /// Numeric form used across the engine boundary.
    pub fn value(self) -> (r: u32)
        ensures
            r == opcode_value(self),
    {
        match self {
            Opcode::Continuation => 0,
            Opcode::Text => 1,
            Opcode::Binary => 2,
            Opcode::Close => 8,
            Opcode::Ping => 9,
            Opcode::Pong => 10,
        }
    }

    /// Decode a wire opcode; undefined values are rejected.
    pub fn from_value(value: u32) -> (r: Option<Opcode>)
        ensures
            r == Opcode::from_value_spec(value),
            r matches Some(op) ==> opcode_value(op) == value,
            r is Some <==> is_opcode_value(value),
    {
        match value {
            0 => Some(Opcode::Continuation),
            1 => Some(Opcode::Text),
            2 => Some(Opcode::Binary),
            8 => Some(Opcode::Close),
            9 => Some(Opcode::Ping),
            10 => Some(Opcode::Pong),
            _ => None,
        }
    }
}

/// Round trip: encoding an opcode and decoding the result yields the opcode
/// back, and decoding then encoding restores a defined wire value.
pub proof fn lemma_opcode_value_round_trip(op: Opcode, value: u32)
    ensures
        Opcode::from_value_spec(opcode_value(op)) == Some(op),
        is_opcode_value(value) ==> opcode_value(Opcode::from_value_spec(value)->0) == value,
{
}

/// Spec-level mirror of `Opcode::from_value`.
impl Opcode {
    pub open spec fn from_value_spec(value: u32) -> Option<Opcode> {
        if value == 0 {
            Some(Opcode::Continuation)
        } else if value == 1 {
            Some(Opcode::Text)
        } else if value == 2 {
            Some(Opcode::Binary)
        } else if value == 8 {
            Some(Opcode::Close)
        } else if value == 9 {
            Some(Opcode::Ping)
        } else if value == 10 {
            Some(Opcode::Pong)
        } else {
            None
        }
    }
}

/// One WebSocket wire frame as handed to (or received from) the engine.
#[derive(Clone, Debug)]
pub struct Frame {
    pub payload: Vec<u8>,
    pub opcode: Opcode,
    pub compress: bool,
    pub fin: bool,
}

/// A frame carries exactly the given payload and flags.
pub open spec fn frame_is(f: Frame, payload: Seq<u8>, opcode: Opcode, compress: bool, fin: bool) -> bool {
    &&& f.payload@ == payload
    &&& f.opcode == opcode
    &&& f.compress == compress
    &&& f.fin == fin
}

/// Model of one live WebSocket connection.
///
/// The engine-side quantities appear as plain values: `outbox` is the
/// sequence of frames accepted for the wire, `inbox` the messages delivered
/// to this connection's `message` callback, `buffered_amount` the bytes
/// queued behind backpressure, and `peer_ready` whether the socket can
/// flush immediately (cleared while the peer is slow, set by a drain).
pub struct WebSocketStruct {
    pub closed: bool,
    pub close_code: Option<i32>,
    pub close_message: Option<Vec<u8>>,
    pub topics: Vec<Vec<u8>>,
    pub buffered_amount: u64,
    pub max_backpressure: u64,
    pub peer_ready: bool,
    pub outbox: Vec<Frame>,
    pub inbox: Vec<Frame>,
    pub user_data: Option<u64>,
}

impl WebSocketStruct {
    /// No topic appears twice in the subscription list.
    pub open spec fn topics_unique(self) -> bool {
        forall|i: int, j: int|
            0 <= i < j < self.topics@.len() ==> self.topics@[i]@ != self.topics@[j]@
    }

    /// Well-formedness: unique subscriptions, and a ready peer means an
    /// empty queue.
    pub open spec fn wf(self) -> bool {
        &&& self.topics_unique()
        &&& (self.peer_ready ==> self.buffered_amount == 0)
    }

    /// Whether this connection is currently subscribed to `t`.
    pub open spec fn subscribed(self, t: Seq<u8>) -> bool {
        exists|i: int| 0 <= i < self.topics@.len() && self.topics@[i]@ == t
    }

    /// Whether the engine takes a message of `len` bytes at all (flushed
    /// or queued) rather than dropping it.
    pub open spec fn send_accepted(self, len: nat) -> bool {
        self.peer_ready || self.buffered_amount + len <= self.max_backpressure
    }

    /// The tri-state outcome of offering a message of `len` bytes: flushed
    /// when the peer keeps up, queued while the backpressure threshold
    /// admits it, dropped past the threshold.
    pub open spec fn send_status_of(self, len: nat) -> SendStatus {
        if self.peer_ready {
            SendStatus::Success
        } else if self.buffered_amount + len <= self.max_backpressure {
            SendStatus::Backpressure
        } else {
            SendStatus::Dropped
        }
    }
}

/// The state change of a send: an accepted frame is appended to the wire
/// queue byte-identical, a refused one changes nothing.
pub open spec fn post_send(
    pre: WebSocketStruct,
    post: WebSocketStruct,
    payload: Seq<u8>,
    opcode: Opcode,
    compress: bool,
    fin: bool,
) -> bool {
    if pre.send_accepted(payload.len()) {
        &&& post.outbox@.len() == pre.outbox@.len() + 1
        &&& post.outbox@.take(pre.outbox@.len() as int) == pre.outbox@
        &&& frame_is(post.outbox@.last(), payload, opcode, compress, fin)
        &&& (pre.peer_ready ==> post.buffered_amount == 0)
        &&& (!pre.peer_ready ==> post.buffered_amount == pre.buffered_amount + payload.len())
        &&& post == WebSocketStruct {
            outbox: post.outbox,
            buffered_amount: post.buffered_amount,
            ..pre
        }
    } else {
        post == pre
    }
}

/// The state change of delivering one message to this connection's
/// `message` callback: the frame is appended to the inbox byte-identical.
pub open spec fn post_delivery(
    pre: WebSocketStruct,
    post: WebSocketStruct,
    payload: Seq<u8>,
    opcode: Opcode,
    compress: bool,
) -> bool {
    &&& post.inbox@.len() == pre.inbox@.len() + 1
    &&& post.inbox@.take(pre.inbox@.len() as int) == pre.inbox@
    &&& frame_is(post.inbox@.last(), payload, opcode, compress, true)
    &&& post == WebSocketStruct { inbox: post.inbox, ..pre }
}

impl WebSocketStruct {
    /// Fresh connection handle created at upgrade time, carrying the
    /// user-data token set by the upgrade and the configured backpressure
    /// threshold.
    pub fn new(user_data: Option<u64>, max_backpressure: u64) -> (r: WebSocketStruct)
        ensures
            r.wf(),
            !r.closed,
            r.close_code is None,
            r.close_message is None,
            r.topics@.len() == 0,
            r.buffered_amount == 0,
            r.max_backpressure == max_backpressure,
            r.peer_ready,
            r.outbox@.len() == 0,
            r.inbox@.len() == 0,
            r.user_data == user_data,
    {
        WebSocketStruct {
            closed: false,
            close_code: None,
            close_message: None,
            topics: Vec::new(),
            buffered_amount: 0,
            max_backpressure: max_backpressure,
            peer_ready: true,
            outbox: Vec::new(),
            inbox: Vec::new(),
            user_data,
        }
    }

    /// Offer one frame to the engine's send queue.
    fn send_frame(&mut self, payload: &[u8], opcode: Opcode, compress: bool, fin: bool) -> (r:
        SendStatus)
        requires
            old(self).wf(),
            !old(self).closed,
            old(self).buffered_amount + payload@.len() <= u64::MAX,
        ensures
            final(self).wf(),
            r == old(self).send_status_of(payload@.len()),
            post_send(*old(self), *final(self), payload@, opcode, compress, fin),
    {
        if self.peer_ready {
            self.outbox.push(Frame { payload: copy_bytes(payload), opcode, compress, fin });
            proof {
                assert(final(self).outbox@.take(old(self).outbox@.len() as int) =~= old(
                    self,
                ).outbox@);
            }
            SendStatus::Success
        } else if self.buffered_amount + payload.len() as u64 <= self.max_backpressure {
            self.outbox.push(Frame { payload: copy_bytes(payload), opcode, compress, fin });
            self.buffered_amount = self.buffered_amount + payload.len() as u64;
            proof {
                assert(final(self).outbox@.take(old(self).outbox@.len() as int) =~= old(
                    self,
                ).outbox@);
            }
            SendStatus::Backpressure
        } else {
            SendStatus::Dropped
        }
    }

    /// Send one complete message as a single frame.
    pub fn send(&mut self, message: &[u8], opcode: Opcode) -> (r: SendStatus)
        requires
            old(self).wf(),
            !old(self).closed,
            old(self).buffered_amount + message@.len() <= u64::MAX,
        ensures
            final(self).wf(),
            r == old(self).send_status_of(message@.len()),
            post_send(*old(self), *final(self), message@, opcode, false, true),
    {
        self.send_frame(message, opcode, false, true)
    }

    /// Send with full control over compression and the fin flag.
    pub fn send_with_options(
        &mut self,
        message: &[u8],
        opcode: Opcode,
        compress: bool,
        fin: bool,
    ) -> (r: SendStatus)
        requires
            old(self).wf(),
            !old(self).closed,
            old(self).buffered_amount + message@.len() <= u64::MAX,
        ensures
            final(self).wf(),
            r == old(self).send_status_of(message@.len()),
            post_send(*old(self), *final(self), message@, opcode, compress, fin),
    {
        self.send_frame(message, opcode, compress, fin)
    }

    /// First frame of a fragmented message with an explicit opcode; the
    /// caller is responsible for correct first/middle/last sequencing,
    /// which is not re-validated here.
    pub fn send_first_fragment_with_opcode(
        &mut self,
        message: &[u8],
        compress: bool,
        opcode: Opcode,
    ) -> (r: SendStatus)
        requires
            old(self).wf(),
            !old(self).closed,
            old(self).buffered_amount + message@.len() <= u64::MAX,
        ensures
            final(self).wf(),
            r == old(self).send_status_of(message@.len()),
            post_send(*old(self), *final(self), message@, opcode, compress, false),
    {
        self.send_frame(message, opcode, compress, false)
    }

    /// First frame of a fragmented message; the engine's default opcode
    /// for an unqualified first fragment is `Binary`.
    pub fn send_first_fragment(&mut self, message: &[u8], compress: bool) -> (r: SendStatus)
        requires
            old(self).wf(),
            !old(self).closed,
            old(self).buffered_amount + message@.len() <= u64::MAX,
        ensures
            final(self).wf(),
            r == old(self).send_status_of(message@.len()),
            post_send(*old(self), *final(self), message@, Opcode::Binary, compress, false),
    {
        self.send_frame(message, Opcode::Binary, compress, false)
    }

    /// Middle frame of a fragmented message.
    pub fn send_fragment(&mut self, message: &[u8], compress: bool) -> (r: SendStatus)
        requires
            old(self).wf(),
            !old(self).closed,
            old(self).buffered_amount + message@.len() <= u64::MAX,
        ensures
            final(self).wf(),
            r == old(self).send_status_of(message@.len()),
            post_send(*old(self), *final(self), message@, Opcode::Continuation, compress, false),
    {
        self.send_frame(message, Opcode::Continuation, compress, false)
    }

    /// Last frame of a fragmented message.
    pub fn send_last_fragment(&mut self, message: &[u8], compress: bool) -> (r: SendStatus)
        requires
            old(self).wf(),
            !old(self).closed,
            old(self).buffered_amount + message@.len() <= u64::MAX,
        ensures
            final(self).wf(),
            r == old(self).send_status_of(message@.len()),
            post_send(*old(self), *final(self), message@, Opcode::Continuation, compress, true),
    {
        self.send_frame(message, Opcode::Continuation, compress, true)
    }

    /// Immediate close without a close frame.
    pub fn close(&mut self)
        ensures
            *final(self) == (WebSocketStruct { closed: true, ..*old(self) }),
    {
        self.closed = true;
    }

    /// Close handshake with a status code and optional reason; further
    /// sends on this connection are a caller error.
    pub fn end(&mut self, code: i32, message: Option<&[u8]>)
        ensures
            final(self).closed,
            final(self).close_code == Some(code),
            (match message {
                Some(m) => final(self).close_message matches Some(v) && v@ == m@,
                None => final(self).close_message is None,
            }),
            *final(self) == (WebSocketStruct {
                closed: true,
                close_code: final(self).close_code,
                close_message: final(self).close_message,
                ..*old(self)
            }),
    {
        self.closed = true;
        self.close_code = Some(code);
        self.close_message = match message {
            Some(m) => Some(copy_bytes(m)),
            None => None,
        };
    }

    /// Run a closure with its writes batched into one flush.  The closure's
    /// box is handed to the engine for the duration of this one synchronous
    /// call and reclaimed on return, so no slot outlives the call; the
    /// returned token is the closure to invoke now.
    pub fn cork(&mut self, handler: u64) -> (fired: u64)
        requires
            !old(self).closed,
        ensures
            fired == handler,
            *final(self) == *old(self),
    {
        handler
    }

    /// Drain event from the engine: queued bytes were flushed.
    pub fn drain(&mut self)
        ensures
            *final(self) == (WebSocketStruct {
                peer_ready: true,
                buffered_amount: 0,
                ..*old(self)
            }),
    {
        self.peer_ready = true;
        self.buffered_amount = 0;
    }

    /// The engine delivers one message to this connection's `message`
    /// callback, byte-identical to what was published or sent to it.
    pub fn deliver_message(&mut self, message: &[u8], opcode: Opcode, compress: bool)
        requires
            old(self).wf(),
            !old(self).closed,
        ensures
            final(self).wf(),
            post_delivery(*old(self), *final(self), message@, opcode, compress),
    {
        self.inbox.push(Frame { payload: copy_bytes(message), opcode, compress, fin: true });
        proof {
            assert(final(self).inbox@.take(old(self).inbox@.len() as int) =~= old(self).inbox@);
        }
    }

    /// Index of `topic` in the subscription list, if present.
    fn find_topic(&self, topic: &[u8]) -> (r: Option<usize>)
        ensures
            (match r {
                Some(i) => i < self.topics@.len() && self.topics@[i as int]@ == topic@,
                None => !self.subscribed(topic@),
            }),
    {
        let mut i: usize = 0;
        while i < self.topics.len()
            invariant
                i <= self.topics@.len(),
                forall|j: int| 0 <= j < i ==> self.topics@[j]@ != topic@,
            decreases self.topics@.len() - i,
        {
            if bytes_eq(self.topics[i].as_slice(), topic) {
                return Some(i);
            }
            i = i + 1;
        }
        None
    }

    /// Membership test against the engine's pub/sub table.
    pub fn is_subscribed(&self, topic: &[u8]) -> (r: bool)
        ensures
            r == self.subscribed(topic@),
    {
        match self.find_topic(topic) {
            Some(_) => true,
            None => false,
        }
    }

    /// Subscribe this connection to `topic`.  Membership changes take
    /// effect immediately; subscribing always succeeds, and subscribing
    /// twice leaves the membership unchanged.
    pub fn subscribe(&mut self, topic: &[u8]) -> (r: bool)
        requires
            old(self).wf(),
            !old(self).closed,
        ensures
            final(self).wf(),
            r == true,
            final(self).subscribed(topic@),
            forall|u: Seq<u8>| u != topic@ ==> final(self).subscribed(u) == old(self).subscribed(u),
            old(self).subscribed(topic@) ==> *final(self) == *old(self),
            !old(self).subscribed(topic@) ==> {
                &&& final(self).topics@.len() == old(self).topics@.len() + 1
                &&& final(self).topics@.take(old(self).topics@.len() as int) == old(self).topics@
                &&& final(self).topics@.last()@ == topic@
                &&& *final(self) == (WebSocketStruct { topics: final(self).topics, ..*old(self) })
            },
    {
        match self.find_topic(topic) {
            Some(_) => true,
            None => {
                self.topics.push(copy_bytes(topic));
                proof {
                    assert(final(self).topics@.take(old(self).topics@.len() as int) =~= old(
                        self,
                    ).topics@);
                    assert(final(self).subscribed(topic@)) by {
                        assert(final(self).topics@[old(self).topics@.len() as int]@ == topic@);
                    }
                    assert forall|u: Seq<u8>| u != topic@ implies final(self).subscribed(u) == old(
                        self,
                    ).subscribed(u) by {
                        if final(self).subscribed(u) {
                            let i = choose|i: int|
                                0 <= i < final(self).topics@.len() && final(self).topics@[i]@ == u;
                            if i < old(self).topics@.len() {
                                assert(old(self).topics@[i]@ == u);
                            }
                        }
                        if old(self).subscribed(u) {
                            let i = choose|i: int|
                                0 <= i < old(self).topics@.len() && old(self).topics@[i]@ == u;
                            assert(final(self).topics@[i]@ == u);
                        }
                    }
                }
                true
            },
        }
    }

    /// Unsubscribe this connection from `topic`.  Returns whether the
    /// connection had been subscribed; on a connection not subscribed the
    /// call returns `false` and changes nothing, so a second unsubscribe
    /// in a row is a no-op, not a fault.
    pub fn unsubscribe(&mut self, topic: &[u8]) -> (r: bool)
        requires
            old(self).wf(),
        ensures
            final(self).wf(),
            r == old(self).subscribed(topic@),
            !final(self).subscribed(topic@),
            forall|u: Seq<u8>| u != topic@ ==> final(self).subscribed(u) == old(self).subscribed(u),
            !old(self).subscribed(topic@) ==> *final(self) == *old(self),
            old(self).subscribed(topic@) ==> {
                &&& final(self).topics@.len() == old(self).topics@.len() - 1
                &&& *final(self) == (WebSocketStruct { topics: final(self).topics, ..*old(self) })
            },
    {
        match self.find_topic(topic) {
            None => false,
            Some(i) => {
                self.topics.remove(i);
                proof {
                    let pre = old(self).topics@;
                    let post = final(self).topics@;
                    assert(post =~= pre.subrange(0, i as int) + pre.subrange(
                        i + 1,
                        pre.len() as int,
                    ));
                    assert forall|j: int| 0 <= j < post.len() implies post[j]@ != topic@ by {
                        if j < i {
                            assert(post[j] == pre[j]);
                        } else {
                            assert(post[j] == pre[j + 1]);
                        }
                    }
                    assert forall|u: Seq<u8>| u != topic@ implies final(self).subscribed(u) == old(
                        self,
                    ).subscribed(u) by {
                        if final(self).subscribed(u) {
                            let j = choose|j: int| 0 <= j < post.len() && post[j]@ == u;
                            if j < i {
                                assert(pre[j]@ == u);
                            } else {
                                assert(pre[j + 1]@ == u);
                            }
                        }
                        if old(self).subscribed(u) {
                            let j = choose|j: int| 0 <= j < pre.len() && pre[j]@ == u;
                            if j < i {
                                assert(post[j]@ == u);
                            } else if j > i {
                                assert(post[j - 1]@ == u);
                            }
                        }
                    }
                    assert(final(self).topics_unique()) by {
                        assert forall|a: int, b: int|
                            0 <= a < b < post.len() implies post[a]@ != post[b]@ by {
                            let pa: int = if a < i {
                                a
                            } else {
                                a + 1
                            };
                            let pb: int = if b < i {
                                b
                            } else {
                                b + 1
                            };
                            assert(post[a] == pre[pa]);
                            assert(post[b] == pre[pb]);
                        }
                    }
                }
                true
            },
        }
    }

    /// The current subscription list.
    pub fn iterate_topics(&self) -> (r: &Vec<Vec<u8>>)
        ensures
            r@ == self.topics@,
    {
        &self.topics
    }

    /// Bytes currently queued behind backpressure on this connection.
    pub fn get_buffered_amount(&self) -> (r: u64)
        ensures
            r == self.buffered_amount,
    {
        self.buffered_amount
    }

    /// The user-data token attached at upgrade time; its interpretation is
    /// wholly the caller's contract.
    pub fn get_user_data(&self) -> (r: Option<u64>)
        ensures
            r == self.user_data,
    {
        self.user_data
    }
}

/// Backpressure refuses producers that outrun the peer: while the peer is
/// not draining no send is reported flushed, and once the queued bytes
/// would exceed the configured threshold the message is dropped.
pub proof fn lemma_backpressure_refuses(ws: WebSocketStruct, len: nat)
    requires
        !ws.peer_ready,
    ensures
        ws.send_status_of(len) != SendStatus::Success,
        ws.buffered_amount + len > ws.max_backpressure ==> ws.send_status_of(len)
            == SendStatus::Dropped,
{
}

/// After a drain notification the queue is empty and the peer is ready, so
/// a retried send is flushed.
pub proof fn lemma_send_after_drain(ws: WebSocketStruct, len: nat)
    requires
        ws.peer_ready,
    ensures
        ws.send_status_of(len) == SendStatus::Success,
{
}

/// Echo round trip: a message a handler received and echoes with
/// `send_with_options(msg, opcode, compress = false, fin = true)` is placed
/// on the wire as one uncompressed final frame whose payload is
/// byte-identical to the received message, so the far end reads back
/// exactly the bytes it sent.
pub proof fn lemma_echo_round_trip(
    pre: WebSocketStruct,
    post: WebSocketStruct,
    message: Seq<u8>,
    opcode: Opcode,
)
    requires
        pre.send_accepted(message.len()),
        post_send(pre, post, message, opcode, false, true),
    ensures
        post.outbox@.last().payload@ == message,
        post.outbox@.last().opcode == opcode,
        !post.outbox@.last().compress,
        post.outbox@.last().fin,
{
}

/// One step of a publish fan-out: a live subscriber of the topic had the
/// message delivered byte-identical; every other connection is untouched.
pub open spec fn publish_step(
    pre: WebSocketStruct,
    post: WebSocketStruct,
    topic: Seq<u8>,
    payload: Seq<u8>,
    opcode: Opcode,
    compress: bool,
) -> bool {
    if pre.subscribed(topic) && !pre.closed {
        post_delivery(pre, post, payload, opcode, compress)
    } else {
        post == pre
    }
}

/// Publishing on a topic delivers the payload byte-identical to every
/// live connection subscribed to it — the publisher included, if it
/// subscribed itself — and leaves every other connection exactly
/// unchanged.
pub proof fn lemma_publish_delivers_to_subscribers(
    pre: WebSocketStruct,
    post: WebSocketStruct,
    topic: Seq<u8>,
    payload: Seq<u8>,
    opcode: Opcode,
    compress: bool,
)
    requires
        publish_step(pre, post, topic, payload, opcode, compress),
    ensures
        pre.subscribed(topic) && !pre.closed ==> post.inbox@.len() == pre.inbox@.len() + 1
            && post.inbox@.last().payload@ == payload,
        !(pre.subscribed(topic) && !pre.closed) ==> post == pre,
{
}

/// The engine's connection table, the scope of a publish fan-out.
pub struct Broker {
    pub connections: Vec<WebSocketStruct>,
}

impl Broker {
    /// Every connection in the table is well formed.
    pub open spec fn wf(self) -> bool {
        forall|i: int| 0 <= i < self.connections@.len() ==> self.connections@[i].wf()
    }

    /// An empty connection table.
    pub fn new() -> (r: Broker)
        ensures
            r.wf(),
            r.connections@.len() == 0,
    {
        Broker { connections: Vec::new() }
    }

    /// Add a connection to the table.
    pub fn add(&mut self, conn: WebSocketStruct)
        requires
            old(self).wf(),
            conn.wf(),
        ensures
            final(self).wf(),
            final(self).connections@ == old(self).connections@.push(conn),
    {
        self.connections.push(conn);
    }

    /// Publish `message` on `topic`: every live connection subscribed to
    /// the topic — the publisher included, if it subscribed itself — has
    /// its `message` callback delivered with the identical payload; every
    /// other connection is untouched.  A topic without subscribers makes
    /// the publish a no-op, not an error.
    pub fn publish(&mut self, topic: &[u8], message: &[u8], opcode: Opcode, compress: bool) -> (r:
        bool)
        requires
            old(self).wf(),
        ensures
            final(self).wf(),
            r == true,
            final(self).connections@.len() == old(self).connections@.len(),
            forall|i: int|
                0 <= i < old(self).connections@.len() ==> #[trigger] publish_step(
                    old(self).connections@[i],
                    final(self).connections@[i],
                    topic@,
                    message@,
                    opcode,
                    compress,
                ),
    {
        let ghost orig = self.connections@;
        let mut done: Vec<WebSocketStruct> = Vec::new();
        while self.connections.len() > 0
            invariant
                done@.len() + self.connections@.len() == orig.len(),
                self.connections@ == orig.skip(done@.len() as int),
                forall|i: int| 0 <= i < orig.len() ==> orig[i].wf(),
                forall|j: int| 0 <= j < done@.len() ==> #[trigger] done@[j].wf(),
                forall|j: int|
                    0 <= j < done@.len() ==> #[trigger] publish_step(
                        orig[j],
                        done@[j],
                        topic@,
                        message@,
                        opcode,
                        compress,
                    ),
            decreases self.connections@.len(),
        {
            let ghost k = done@.len() as int;
            let mut c = self.connections.remove(0);
            proof {
                assert(c == orig[k]);
                assert(self.connections@ =~= orig.skip(k + 1));
            }
            if !c.closed && c.is_subscribed(topic) {
                c.deliver_message(message, opcode, compress);
            }
            done.push(c);
        }
        self.connections = done;
        true
    }
}

} // verus!
