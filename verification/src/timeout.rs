//! A layer that races a deadline against the wrapped service.
//!
//! Each call starts two competing outcomes: the wrapped service's
//! completion and a timer firing after a fixed duration.  If the wrapped
//! call resolves first its result passes through unchanged; if the timer
//! fires first the call resolves at the deadline with a configured error.
//! The error content comes from one of two strategies: a static payload
//! rendered per occurrence, or a factory invoked at expiry time.
//!
//! A timed-out wrapped call is not cancelled: it is left to finish
//! unobserved, so its effects still occur.

use vstd::prelude::*;

use crate::builder::Layer;
use crate::context::Context;
use crate::error::Error;
use crate::service::{Mark, Outcome, Service};

verus! {

/// A payload that can be rendered as the pipeline's error.
pub trait IntoError: Sized {
    /// The message of the rendered error.
    spec fn error_view(&self) -> Seq<char>;

    /// Render the payload as an error.
    fn into_error(&self) -> (e: Error)
        ensures
            e@ == self.error_view(),
    ;

    /// An exact copy of the payload.
    fn duplicate(&self) -> (d: Self)
        ensures
            d == *self,
    ;
}

/// A factory that builds an error on demand, consulted only at the moment
/// the deadline expires.
pub trait ErrorFactory: Sized {
    /// The message of every error the factory builds.
    spec fn error_view(&self) -> Seq<char>;

    /// Build a fresh error.
    fn make(&self) -> (e: Error)
        ensures
            e@ == self.error_view(),
    ;

    /// An exact copy of the factory.
    fn duplicate(&self) -> (d: Self)
        ensures
            d == *self,
    ;
}

/// The strategy a timeout uses to construct its expiry error.
pub trait MakeLayerError: Sized {
    /// The message of the error the strategy produces.
    spec fn error_view(&self) -> Seq<char>;

    /// Produce the expiry error.
    fn make_layer_error(&self) -> (e: Error)
        ensures
            e@ == self.error_view(),
    ;

    /// An exact copy of the strategy.
    fn duplicate(&self) -> (d: Self)
        ensures
            d == *self,
    ;
}

/// A static error payload, rendered anew for each expiry.
#[derive(Clone, Copy, Debug)]
pub struct LayerErrorStatic<E> {
    /// The stored payload.
    pub error: E,
}

impl<E> LayerErrorStatic<E> {
    /// Store `error` as the expiry payload.
    pub fn new(error: E) -> (s: LayerErrorStatic<E>)
        ensures
            s == (LayerErrorStatic { error }),
    {
        LayerErrorStatic { error }
    }
}

impl<E: IntoError> MakeLayerError for LayerErrorStatic<E> {
    open spec fn error_view(&self) -> Seq<char> {
        self.error.error_view()
    }

    fn make_layer_error(&self) -> (e: Error) {
        self.error.into_error()
    }

    fn duplicate(&self) -> (d: Self) {
        LayerErrorStatic { error: self.error.duplicate() }
    }
}

/// An error factory invoked at expiry time to build the error fresh.
#[derive(Clone, Copy, Debug)]
pub struct LayerErrorFn<F> {
    /// The stored factory.
    pub error_fn: F,
}

impl<F> LayerErrorFn<F> {
    /// Store `error_fn` as the expiry factory.
    pub fn new(error_fn: F) -> (s: LayerErrorFn<F>)
        ensures
            s == (LayerErrorFn { error_fn }),
    {
        LayerErrorFn { error_fn }
    }
}

impl<F: ErrorFactory> MakeLayerError for LayerErrorFn<F> {
    open spec fn error_view(&self) -> Seq<char> {
        self.error_fn.error_view()
    }

    fn make_layer_error(&self) -> (e: Error) {
        self.error_fn.make()
    }

    fn duplicate(&self) -> (d: Self) {
        LayerErrorFn { error_fn: self.error_fn.duplicate() }
    }
}

/// The default timeout error payload: the deadline elapsed before the
/// wrapped call resolved.
#[derive(Clone, Copy, Debug)]
pub struct Elapsed {
    /// The configured deadline, in milliseconds.
    pub timeout_ms: u64,
}

impl Elapsed {
    /// An elapsed-deadline payload for the given deadline.
    pub fn new(timeout_ms: u64) -> (e: Elapsed)
        ensures
            e == (Elapsed { timeout_ms }),
    {
        Elapsed { timeout_ms }
    }
}

impl IntoError for Elapsed {
    open spec fn error_view(&self) -> Seq<char> {
        "request timed out"@
    }

    fn into_error(&self) -> (e: Error) {
        Error::new("request timed out".to_string())
    }

    fn duplicate(&self) -> (d: Self) {
        Elapsed { timeout_ms: self.timeout_ms }
    }
}

/// A static error payload carrying a caller-chosen message.
#[derive(Clone, Debug)]
pub struct MessageError {
    /// The message of the rendered error.
    pub msg: String,
}

impl MessageError {
    /// A payload rendering errors with the given message.
    pub fn new(msg: String) -> (e: MessageError)
        ensures
            e.msg@ == msg@,
    {
        MessageError { msg }
    }
}

impl IntoError for MessageError {
    open spec fn error_view(&self) -> Seq<char> {
        self.msg@
    }

    fn into_error(&self) -> (e: Error) {
        Error::new(self.msg.clone())
    }

    fn duplicate(&self) -> (d: Self) {
        MessageError { msg: self.msg.clone() }
    }
}

/// An error factory building errors with a caller-chosen message.
#[derive(Clone, Debug)]
pub struct MessageFactory {
    /// The message of every built error.
    pub msg: String,
}

impl MessageFactory {
    /// A factory building errors with the given message.
    pub fn new(msg: String) -> (f: MessageFactory)
        ensures
            f.msg@ == msg@,
    {
        MessageFactory { msg }
    }
}

impl ErrorFactory for MessageFactory {
    open spec fn error_view(&self) -> Seq<char> {
        self.msg@
    }

    fn make(&self) -> (e: Error) {
        Error::new(self.msg.clone())
    }

    fn duplicate(&self) -> (d: Self) {
        MessageFactory { msg: self.msg.clone() }
    }
}

/// The service produced by a timeout layer: the wrapped service raced
/// against a fixed deadline.
#[derive(Clone, Debug)]
pub struct Timeout<S, F> {
    /// The wrapped service.
    pub inner: S,
    /// The deadline, in milliseconds, fixed per layer instance.
    pub timeout_ms: u64,
    /// The strategy used to construct the expiry error.
    pub into_error: F,
}

impl<S, F> Timeout<S, F> {
    /// Wrap `inner` with the given deadline and error strategy.
    pub fn with(inner: S, timeout_ms: u64, into_error: F) -> (s: Timeout<S, F>)
        ensures
            s == (Timeout { inner, timeout_ms, into_error }),
    {
        Timeout { inner, timeout_ms, into_error }
    }
}

impl<State, Request, S, F> Service<State, Request> for Timeout<S, F> where
    S: Service<State, Request>,
    F: MakeLayerError,
 {
    type Response = S::Response;

    open spec fn wf(&self) -> bool {
        self.inner.wf()
    }

    open spec fn m_result(&self, ctx: Context<State>, req: Request) -> Result<
        S::Response,
        Seq<char>,
    > {
        if self.inner.m_elapsed(ctx, req) <= self.timeout_ms {
            self.inner.m_result(ctx, req)
        } else {
            Err(self.into_error.error_view())
        }
    }

    open spec fn m_elapsed(&self, ctx: Context<State>, req: Request) -> u64 {
        if self.inner.m_elapsed(ctx, req) <= self.timeout_ms {
            self.inner.m_elapsed(ctx, req)
        } else {
            self.timeout_ms
        }
    }

    open spec fn m_marks(&self, ctx: Context<State>, req: Request) -> Seq<Mark> {
        self.inner.m_marks(ctx, req)
    }

    fn serve(&self, ctx: Context<State>, req: Request) -> (out: Outcome<S::Response>) {
        let inner_out = self.inner.serve(ctx, req);
        if inner_out.elapsed_ms <= self.timeout_ms {
            inner_out
        } else {
            Outcome {
                result: Err(self.into_error.make_layer_error()),
                elapsed_ms: self.timeout_ms,
                marks: inner_out.marks,
            }
        }
    }
}

/// Applies a timeout to requests via the supplied inner service.
#[derive(Clone, Copy, Debug)]
pub struct TimeoutLayer<F> {
    /// The deadline, in milliseconds, handed to every produced service.
    pub timeout_ms: u64,
    /// The error strategy handed to every produced service.
    pub into_error: F,
}

impl TimeoutLayer<LayerErrorStatic<Elapsed>> {
    /// Create a timeout layer from a deadline in milliseconds, failing
    /// expired calls with the default elapsed-deadline error.
    pub fn new(timeout_ms: u64) -> (l: TimeoutLayer<LayerErrorStatic<Elapsed>>)
        ensures
            l == (TimeoutLayer {
                timeout_ms,
                into_error: LayerErrorStatic { error: Elapsed { timeout_ms } },
            }),
    {
        TimeoutLayer { timeout_ms, into_error: LayerErrorStatic::new(Elapsed::new(timeout_ms)) }
    }
}

impl<E> TimeoutLayer<LayerErrorStatic<E>> {
    /// Creates a new [`TimeoutLayer`] with a custom error value.
    pub fn with_error(timeout_ms: u64, error: E) -> (l: TimeoutLayer<LayerErrorStatic<E>>)
        ensures
            l == (TimeoutLayer { timeout_ms, into_error: LayerErrorStatic { error } }),
    {
        TimeoutLayer { timeout_ms, into_error: LayerErrorStatic::new(error) }
    }
}

impl<F> TimeoutLayer<LayerErrorFn<F>> {
    /// Creates a new [`TimeoutLayer`] with a custom error factory.
    pub fn with_error_fn(timeout_ms: u64, error_fn: F) -> (l: TimeoutLayer<LayerErrorFn<F>>)
        ensures
            l == (TimeoutLayer { timeout_ms, into_error: LayerErrorFn { error_fn } }),
    {
        TimeoutLayer { timeout_ms, into_error: LayerErrorFn::new(error_fn) }
    }
}

impl<S, F: MakeLayerError> Layer<S> for TimeoutLayer<F> {
    type Service = Timeout<S, F>;

    open spec fn wrapped(&self, inner: S) -> Timeout<S, F> {
        Timeout { inner, timeout_ms: self.timeout_ms, into_error: self.into_error }
    }

    fn layer(&self, inner: S) -> (svc: Timeout<S, F>) {
        Timeout { inner, timeout_ms: self.timeout_ms, into_error: self.into_error.duplicate() }
    }
}

/// The timeout law: a wrapped call resolving within the deadline passes
/// through unchanged, result and resolution time alike; a wrapped call
/// resolving after the deadline is replaced by the configured error at
/// exactly the deadline, and never later.
pub proof fn lemma_timeout<State, Request, S, F>(
    t: Timeout<S, F>,
    ctx: Context<State>,
    req: Request,
) where S: Service<State, Request>, F: MakeLayerError
    ensures
        t.inner.m_elapsed(ctx, req) <= t.timeout_ms ==> t.m_result(ctx, req) == t.inner.m_result(
            ctx,
            req,
        ) && t.m_elapsed(ctx, req) == t.inner.m_elapsed(ctx, req),
        t.inner.m_elapsed(ctx, req) > t.timeout_ms ==> t.m_result(ctx, req) == Err::<
            S::Response,
            Seq<char>,
        >(t.into_error.error_view()) && t.m_elapsed(ctx, req) == t.timeout_ms,
        t.m_elapsed(ctx, req) <= t.timeout_ms,
{
}

} // verus!
