//! The per-call context threaded through every layer invocation.
//!
//! A context carries a caller-chosen shared state value plus a closed set
//! of named optional metadata slots (the byte-tracker handle and the
//! retained client-hello snapshot).  A value stored in a slot can only be
//! retrieved from that same slot, and absence is a checked outcome, not an
//! error.  The context flows by value through the layer chain.

use vstd::prelude::*;

use crate::tls::ClientHello;
use crate::tracker::BytesRWTrackerHandle;

verus! {

/// Per-call carrier of shared state plus named optional metadata.
#[derive(Debug)]
pub struct Context<State> {
    /// The caller-chosen shared state for the whole call chain.
    pub state: State,
    /// The byte-tracker handle published by a byte-tracking layer, if any.
    pub tracker: Option<BytesRWTrackerHandle>,
    /// The client-hello snapshot retained at handshake time, if requested.
    pub hello: Option<ClientHello>,
}

impl<State> Context<State> {
    /// Create a context around the given state, with no metadata attached.
    pub fn new(state: State) -> (ctx: Context<State>)
        ensures
            ctx.state == state,
            ctx.tracker is None,
            ctx.hello is None,
    {
        Context { state, tracker: None, hello: None }
    }

    /// The shared state carried by this context.
    pub fn state(&self) -> (s: &State)
        ensures
            s == &self.state,
    {
        &self.state
    }

    /// Attach a byte-tracker handle; any previously attached handle is
    /// replaced.
    pub fn insert_tracker(&mut self, handle: BytesRWTrackerHandle)
        ensures
            *final(self) == (Context { tracker: Some(handle), ..*old(self) }),
    {
        self.tracker = Some(handle);
    }

    /// The attached byte-tracker handle, if one was published.
    pub fn get_tracker(&self) -> (h: Option<&BytesRWTrackerHandle>)
        ensures
            match h {
                Some(h) => self.tracker == Some(*h),
                None => self.tracker is None,
            },
    {
        self.tracker.as_ref()
    }

    /// Retain a client-hello snapshot for downstream consumption.
    pub fn insert_hello(&mut self, hello: ClientHello)
        ensures
            *final(self) == (Context { hello: Some(hello), ..*old(self) }),
    {
        self.hello = Some(hello);
    }

    /// The retained client-hello snapshot, if any.
    pub fn get_hello(&self) -> (h: Option<&ClientHello>)
        ensures
            match h {
                Some(h) => self.hello == Some(*h),
                None => self.hello is None,
            },
    {
        self.hello.as_ref()
    }
}

} // verus!
