//! Onion composition of layers around a terminal service.
//!
//! A layer is a factory that wraps one service into another service.  The
//! builder accumulates layers in call order `L1, L2, ..., Ln` and then a
//! terminal service `T`; the composed service is `L1(L2(...Ln(T)))`, so
//! `L1` runs first on the request path and last on the response path.
//! Composition is purely structural: a type mismatch between adjacent
//! layers is rejected when the composed service is built, not at call
//! time.

use vstd::prelude::*;

verus! {

/// A factory that wraps one service into another, adding one
/// cross-cutting behaviour without modifying the wrapped service.
pub trait Layer<S> {
    /// The type of the produced service.
    type Service;

    /// The service this layer produces around `inner`.
    spec fn wrapped(&self, inner: S) -> Self::Service;

    /// Wrap `inner`.
    fn layer(&self, inner: S) -> (svc: Self::Service)
        ensures
            svc == self.wrapped(inner),
    ;
}

/// The layer that adds nothing: it returns the wrapped service itself.
#[derive(Clone, Copy, Debug)]
pub struct Identity;

impl<S> Layer<S> for Identity {
    type Service = S;

    open spec fn wrapped(&self, inner: S) -> S {
        inner
    }

    fn layer(&self, inner: S) -> (svc: S) {
        inner
    }
}

/// Two layers stacked: the outer one wraps whatever the inner one
/// produces.
#[derive(Clone, Copy, Debug)]
pub struct Stack<Out, In> {
    /// The layer applied last, standing outermost in the composition.
    pub outer: Out,
    /// The layer applied first, standing closest to the terminal service.
    pub inner: In,
}

impl<S, Out, In> Layer<S> for Stack<Out, In> where In: Layer<S>, Out: Layer<In::Service> {
    type Service = Out::Service;

    open spec fn wrapped(&self, inner: S) -> Out::Service {
        self.outer.wrapped(self.inner.wrapped(inner))
    }

    fn layer(&self, inner: S) -> (svc: Out::Service) {
        self.outer.layer(self.inner.layer(inner))
    }
}

/// Assembles an ordered list of layers around a terminal service.  Layers
/// added earlier stand further out in the composed service.
#[derive(Clone, Copy, Debug)]
pub struct ServiceBuilder<L> {
    /// The accumulated composition of all layers added so far.
    pub stack: L,
}

impl ServiceBuilder<Identity> {
    /// A builder with no layers: it composes to the terminal service
    /// itself.
    pub fn new() -> (b: ServiceBuilder<Identity>)
        ensures
            b == (ServiceBuilder { stack: Identity }),
    {
        ServiceBuilder { stack: Identity }
    }
}

impl<L> ServiceBuilder<L> {
    /// Add the next layer; it stands inside every layer added before it.
    pub fn layer<L2>(self, l: L2) -> (b: ServiceBuilder<Stack<L, L2>>)
        ensures
            b == (ServiceBuilder { stack: Stack { outer: self.stack, inner: l } }),
    {
        ServiceBuilder { stack: Stack { outer: self.stack, inner: l } }
    }

    /// Close the composition with the terminal service and build the
    /// composed service.
    pub fn service<S>(self, terminal: S) -> (svc: L::Service) where L: Layer<S>
        ensures
            svc == self.stack.wrapped(terminal),
    {
        self.stack.layer(terminal)
    }
}

} // verus!
