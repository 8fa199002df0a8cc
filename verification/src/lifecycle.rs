//! Ordering of the per-connection WebSocket lifecycle callbacks.  For every
//! connection the engine delivers `open` exactly once, then any number of
//! `message` / `ping` / `pong` / `drain` / `subscription` events in any
//! order, then `close` exactly once — and nothing before `open` or after
//! `close`.  The admission rules are an explicit three-phase machine; the
//! trampoline driving a connection consults it before invoking a user
//! callback, so an out-of-order delivery is rejected instead of reaching
//! user code.

use vstd::prelude::*;

verus! {

/// Phase of one connection's callback stream.
#[derive(Clone, Copy, Debug, PartialEq, Eq, Structural)]
pub enum WsPhase {
    /// The upgrade completed; `open` has not fired yet.
    AwaitingOpen,
    /// `open` has fired; peer- and engine-driven events may flow.
    Active,
    /// `close` has fired; no further callback is delivered.
    Closed,
}

/// The events that may interleave freely between `open` and `close`.
#[derive(Clone, Copy, Debug, PartialEq, Eq, Structural)]
pub enum WsActivity {
    Message,
    Ping,
    Pong,
    Drain,
    Subscription,
}

/// Rejection of an out-of-order callback delivery.
#[derive(Clone, Copy, Debug, PartialEq, Eq, Structural)]
pub enum LifecycleError {
    /// The event arrived before `open` fired.
    NotOpened,
    /// A second `open` arrived.
    AlreadyOpened,
    /// An event arrived after `close` fired.
    AlreadyClosed,
}

/// Callback-ordering state of one WebSocket connection.
pub struct WsLifecycle {
    pub phase: WsPhase,
}

impl WsLifecycle {
    /// `open` is admitted exactly in the initial phase.
    pub open spec fn can_open(self) -> bool {
        self.phase is AwaitingOpen
    }

    /// Interleaved events are admitted exactly while the connection is
    /// active.
    pub open spec fn can_deliver_activity(self) -> bool {
        self.phase is Active
    }

    /// `close` is admitted exactly while the connection is active.
    pub open spec fn can_close(self) -> bool {
        self.phase is Active
    }

    /// Lifecycle state of a connection whose upgrade just completed.
    pub fn new() -> (r: WsLifecycle)
        ensures
            r.phase is AwaitingOpen,
    {
        WsLifecycle { phase: WsPhase::AwaitingOpen }
    }

    /// Admit the `open` callback.  Accepted exactly once: only in the
    /// initial phase, which no other transition re-establishes.
    pub fn deliver_open(&mut self) -> (r: Result<(), LifecycleError>)
        ensures
            r is Ok <==> old(self).can_open(),
            r is Ok ==> final(self).phase is Active,
            r is Err ==> *final(self) == *old(self),
            r == (match old(self).phase {
                WsPhase::AwaitingOpen => Ok::<(), LifecycleError>(()),
                WsPhase::Active => Err(LifecycleError::AlreadyOpened),
                WsPhase::Closed => Err(LifecycleError::AlreadyClosed),
            }),
    {
        match self.phase {
            WsPhase::AwaitingOpen => {
                self.phase = WsPhase::Active;
                Ok(())
            },
            WsPhase::Active => Err(LifecycleError::AlreadyOpened),
            WsPhase::Closed => Err(LifecycleError::AlreadyClosed),
        }
    }

    /// Admit one interleaved event (`message`, `ping`, `pong`, `drain` or
    /// `subscription`).  Accepted only between `open` and `close`; the
    /// phase does not change.
    pub fn deliver_activity(&mut self, event: WsActivity) -> (r: Result<WsActivity, LifecycleError>)
        ensures
            *final(self) == *old(self),
            r is Ok <==> old(self).can_deliver_activity(),
            r is Ok ==> r->Ok_0 == event,
            r == (match old(self).phase {
                WsPhase::AwaitingOpen => Err::<WsActivity, LifecycleError>(
                    LifecycleError::NotOpened,
                ),
                WsPhase::Active => Ok(event),
                WsPhase::Closed => Err(LifecycleError::AlreadyClosed),
            }),
    {
        match self.phase {
            WsPhase::AwaitingOpen => Err(LifecycleError::NotOpened),
            WsPhase::Active => Ok(event),
            WsPhase::Closed => Err(LifecycleError::AlreadyClosed),
        }
    }

    /// Admit the `close` callback.  Accepted exactly once, only after
    /// `open`; afterwards every delivery is rejected.
    pub fn deliver_close(&mut self) -> (r: Result<(), LifecycleError>)
        ensures
            r is Ok <==> old(self).can_close(),
            r is Ok ==> final(self).phase is Closed,
            r is Err ==> *final(self) == *old(self),
            r == (match old(self).phase {
                WsPhase::AwaitingOpen => Err::<(), LifecycleError>(LifecycleError::NotOpened),
                WsPhase::Active => Ok(()),
                WsPhase::Closed => Err(LifecycleError::AlreadyClosed),
            }),
    {
        match self.phase {
            WsPhase::AwaitingOpen => Err(LifecycleError::NotOpened),
            WsPhase::Active => {
                self.phase = WsPhase::Closed;
                Ok(())
            },
            WsPhase::Closed => Err(LifecycleError::AlreadyClosed),
        }
    }
}

/// The callback-ordering law for one connection: before `open` fires no
/// other callback is admitted; once `open` has fired it is never admitted
/// again (so it fires exactly once); and after `close` fires nothing is
/// admitted at all (so `close` is last and fires at most once — and since
/// `Closed` is reached only by an admitted `close`, exactly once on any
/// closed connection).
pub proof fn lemma_lifecycle_ordering(lc: WsLifecycle)
    ensures
        lc.phase is AwaitingOpen ==> !lc.can_deliver_activity() && !lc.can_close(),
        lc.phase is Active ==> !lc.can_open(),
        lc.phase is Closed ==> !lc.can_open() && !lc.can_deliver_activity() && !lc.can_close(),
{
}

} // verus!
