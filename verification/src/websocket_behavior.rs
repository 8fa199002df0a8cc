//! Declarative WebSocket behavior configuration: per-message-deflate
//! compression options, engine limits, and the set of lifecycle callbacks a
//! route supplies.  The configuration is converted once, at registration
//! time, into the wire form handed to the engine; the numeric limits are a
//! pass-through and are carried unmodified.

use vstd::prelude::*;

verus! {

/// Per-message-deflate window selection.
///
/// The engine encodes a compression choice as a 16-bit field: compressor
/// selections live in the low byte, decompressor selections in the high
/// byte, so one of each can be combined losslessly with a bitwise or.
#[derive(Clone, Copy, Debug, PartialEq, Eq, Structural)]
pub enum CompressOptions {
    Disabled,
    SharedCompressor,
    SharedDecompressor,
    DedicatedDecompressor32kb,
    DedicatedDecompressor16kb,
    DedicatedDecompressor8kb,
    DedicatedDecompressor4kb,
    DedicatedDecompressor2kb,
    DedicatedDecompressor1kb,
    DedicatedDecompressor512b,
    /// Same window as `DedicatedDecompressor32kb`.
    DedicatedDecompressor,
    DedicatedCompressor3kb,
    DedicatedCompressor4kb,
    DedicatedCompressor8kb,
    DedicatedCompressor16kb,
    DedicatedCompressor32kb,
    DedicatedCompressor64kb,
    DedicatedCompressor128kb,
    DedicatedCompressor256kb,
    /// Same window as `DedicatedCompressor256kb`.
    DedicatedCompressor,
}

/// The engine's wire value for each compression option.
pub open spec fn compress_value(c: CompressOptions) -> u32 {
    match c {
        CompressOptions::Disabled => 0,
        CompressOptions::SharedCompressor => 1,
        CompressOptions::SharedDecompressor => 256,
        CompressOptions::DedicatedDecompressor32kb => 3840,
        CompressOptions::DedicatedDecompressor16kb => 3584,
        CompressOptions::DedicatedDecompressor8kb => 3328,
        CompressOptions::DedicatedDecompressor4kb => 3072,
        CompressOptions::DedicatedDecompressor2kb => 2816,
        CompressOptions::DedicatedDecompressor1kb => 2560,
        CompressOptions::DedicatedDecompressor512b => 2304,
        CompressOptions::DedicatedDecompressor => 3840,
        CompressOptions::DedicatedCompressor3kb => 145,
        CompressOptions::DedicatedCompressor4kb => 146,
        CompressOptions::DedicatedCompressor8kb => 163,
        CompressOptions::DedicatedCompressor16kb => 180,
        CompressOptions::DedicatedCompressor32kb => 197,
        CompressOptions::DedicatedCompressor64kb => 214,
        CompressOptions::DedicatedCompressor128kb => 231,
        CompressOptions::DedicatedCompressor256kb => 248,
        CompressOptions::DedicatedCompressor => 248,
    }
}

/// Options that select a compressor (or nothing); their values fit in the
/// low byte of the wire field.
pub open spec fn is_compressor_choice(c: CompressOptions) -> bool {
    match c {
        CompressOptions::Disabled => true,
        CompressOptions::SharedCompressor => true,
        CompressOptions::DedicatedCompressor3kb => true,
        CompressOptions::DedicatedCompressor4kb => true,
        CompressOptions::DedicatedCompressor8kb => true,
        CompressOptions::DedicatedCompressor16kb => true,
        CompressOptions::DedicatedCompressor32kb => true,
        CompressOptions::DedicatedCompressor64kb => true,
        CompressOptions::DedicatedCompressor128kb => true,
        CompressOptions::DedicatedCompressor256kb => true,
        CompressOptions::DedicatedCompressor => true,
        _ => false,
    }
}

/// Options that select a decompressor (or nothing); their values are
/// multiples of 256, so they occupy the high byte of the wire field.
pub open spec fn is_decompressor_choice(c: CompressOptions) -> bool {
    match c {
        CompressOptions::Disabled => true,
        CompressOptions::SharedDecompressor => true,
        CompressOptions::DedicatedDecompressor32kb => true,
        CompressOptions::DedicatedDecompressor16kb => true,
        CompressOptions::DedicatedDecompressor8kb => true,
        CompressOptions::DedicatedDecompressor4kb => true,
        CompressOptions::DedicatedDecompressor2kb => true,
        CompressOptions::DedicatedDecompressor1kb => true,
        CompressOptions::DedicatedDecompressor512b => true,
        CompressOptions::DedicatedDecompressor => true,
        _ => false,
    }
}

impl CompressOptions {
    /// Numeric wire form of this option.
    pub fn value(self) -> (r: u32)
        ensures
            r == compress_value(self),
    {
        match self {
            CompressOptions::Disabled => 0,
            CompressOptions::SharedCompressor => 1,
            CompressOptions::SharedDecompressor => 256,
            CompressOptions::DedicatedDecompressor32kb => 3840,
            CompressOptions::DedicatedDecompressor16kb => 3584,
            CompressOptions::DedicatedDecompressor8kb => 3328,
            CompressOptions::DedicatedDecompressor4kb => 3072,
            CompressOptions::DedicatedDecompressor2kb => 2816,
            CompressOptions::DedicatedDecompressor1kb => 2560,
            CompressOptions::DedicatedDecompressor512b => 2304,
            CompressOptions::DedicatedDecompressor => 3840,
            CompressOptions::DedicatedCompressor3kb => 145,
            CompressOptions::DedicatedCompressor4kb => 146,
            CompressOptions::DedicatedCompressor8kb => 163,
            CompressOptions::DedicatedCompressor16kb => 180,
            CompressOptions::DedicatedCompressor32kb => 197,
            CompressOptions::DedicatedCompressor64kb => 214,
            CompressOptions::DedicatedCompressor128kb => 231,
            CompressOptions::DedicatedCompressor256kb => 248,
            CompressOptions::DedicatedCompressor => 248,
        }
    }
}

/// Combine an independently chosen compressor and decompressor selection
/// into one wire field.  Because the two roles occupy disjoint bytes, the
/// bitwise or is the same as the sum, and both halves can be recovered.
pub fn combine_compression(compressor: CompressOptions, decompressor: CompressOptions) -> (r: u32)
    requires
        is_compressor_choice(compressor),
        is_decompressor_choice(decompressor),
    ensures
        r == compress_value(compressor) + compress_value(decompressor),
{
    let cv: u32 = compressor.value();
    let dv: u32 = decompressor.value();
    proof {
        assert(cv < 256);
        assert(dv % 256 == 0 && dv <= 3840);
        assert(cv | dv == cv + dv) by (bit_vector)
            requires
                cv < 256,
                dv % 256 == 0,
                dv <= 3840,
        ;
    }
    cv | dv
}

/// Wire form of a behavior: the numeric limits carried through unmodified,
/// plus one presence flag per native callback slot.
#[derive(Clone, Copy, Debug, PartialEq, Eq, Structural)]
pub struct WireSocketBehavior {
    pub compression: u32,
    pub max_payload_length: u32,
    pub idle_timeout: u16,
    pub max_backpressure: u32,
    pub close_on_backpressure_limit: bool,
    pub reset_idle_timeout_on_send: bool,
    pub send_pings_automatically: bool,
    pub max_lifetime: u16,
    pub has_upgrade: bool,
    pub has_open: bool,
    pub has_message: bool,
    pub has_ping: bool,
    pub has_pong: bool,
    pub has_close: bool,
    pub has_drain: bool,
    pub has_subscription: bool,
}

/// The user-supplied callback bundle, each callback named by the token under
/// which the embedder registered its closure.  The bundle lives for as long
/// as the pattern is routable.
#[derive(Clone, Copy, Debug, PartialEq, Eq, Structural)]
pub struct UserCallbacks {
    pub upgrade: Option<u64>,
    pub open: Option<u64>,
    pub message: Option<u64>,
    pub ping: Option<u64>,
    pub pong: Option<u64>,
    pub close: Option<u64>,
    pub drain: Option<u64>,
    pub subscription: Option<u64>,
}

/// Declarative configuration attached to a WebSocket route at registration
/// time: engine limits plus up to eight lifecycle callbacks.
#[derive(Clone, Copy, Debug, PartialEq, Eq, Structural)]
pub struct WebSocketBehavior {
    pub compression: u32,
    pub max_payload_length: u32,
    pub idle_timeout: u16,
    pub max_backpressure: u32,
    pub close_on_backpressure_limit: bool,
    pub reset_idle_timeout_on_send: bool,
    pub send_pings_automatically: bool,
    pub max_lifetime: u16,
    pub upgrade: Option<u64>,
    pub open: Option<u64>,
    pub message: Option<u64>,
    pub ping: Option<u64>,
    pub pong: Option<u64>,
    pub close: Option<u64>,
    pub drain: Option<u64>,
    pub subscription: Option<u64>,
}

impl WebSocketBehavior {
    /// Split a behavior into its wire form and the callback bundle.  Every
    /// limit is carried through unmodified, and a native callback slot is
    /// installed exactly where a user callback was supplied.
    pub fn into_wire(self) -> (r: (WireSocketBehavior, UserCallbacks))
        ensures
            r.0.compression == self.compression,
            r.0.max_payload_length == self.max_payload_length,
            r.0.idle_timeout == self.idle_timeout,
            r.0.max_backpressure == self.max_backpressure,
            r.0.close_on_backpressure_limit == self.close_on_backpressure_limit,
            r.0.reset_idle_timeout_on_send == self.reset_idle_timeout_on_send,
            r.0.send_pings_automatically == self.send_pings_automatically,
            r.0.max_lifetime == self.max_lifetime,
            r.0.has_upgrade == self.upgrade is Some,
            r.0.has_open == self.open is Some,
            r.0.has_message == self.message is Some,
            r.0.has_ping == self.ping is Some,
            r.0.has_pong == self.pong is Some,
            r.0.has_close == self.close is Some,
            r.0.has_drain == self.drain is Some,
            r.0.has_subscription == self.subscription is Some,
            r.1.upgrade == self.upgrade,
            r.1.open == self.open,
            r.1.message == self.message,
            r.1.ping == self.ping,
            r.1.pong == self.pong,
            r.1.close == self.close,
            r.1.drain == self.drain,
            r.1.subscription == self.subscription,
    {
        let wire = WireSocketBehavior {
            compression: self.compression,
            max_payload_length: self.max_payload_length,
            idle_timeout: self.idle_timeout,
            max_backpressure: self.max_backpressure,
            close_on_backpressure_limit: self.close_on_backpressure_limit,
            reset_idle_timeout_on_send: self.reset_idle_timeout_on_send,
            send_pings_automatically: self.send_pings_automatically,
            max_lifetime: self.max_lifetime,
            has_upgrade: self.upgrade.is_some(),
            has_open: self.open.is_some(),
            has_message: self.message.is_some(),
            has_ping: self.ping.is_some(),
            has_pong: self.pong.is_some(),
            has_close: self.close.is_some(),
            has_drain: self.drain.is_some(),
            has_subscription: self.subscription.is_some(),
        };
        let callbacks = UserCallbacks {
            upgrade: self.upgrade,
            open: self.open,
            message: self.message,
            ping: self.ping,
            pong: self.pong,
            close: self.close,
            drain: self.drain,
            subscription: self.subscription,
        };
        (wire, callbacks)
    }
}

/// Opaque token for the native socket context handed to a custom `upgrade`
/// callback; it is passed back verbatim when the upgrade is performed.
#[derive(Clone, Copy, Debug, PartialEq, Eq, Structural)]
pub struct UpgradeContext {
    pub context: u64,
}

} // verus!
