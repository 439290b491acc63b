//! A layer that transforms only the success value of the wrapped service.
//!
//! The caller supplies a total mapping over responses; on success the
//! mapping is applied to the success value, on failure the original
//! failure is returned untouched and the mapping is never consulted.

use vstd::prelude::*;

use crate::builder::Layer;
use crate::context::Context;
use crate::service::{Mark, Outcome, Service, result_view};

verus! {

/// A total, pure mapping over response values, supplied by the caller of
/// the map-response layer.  The mapping must not be fallible; any
/// conversion risk belongs in the wrapped service.
pub trait ResponseMapper<In> {
    /// The type the mapping produces.
    type Out;

    /// The value the mapping produces for a given input.
    spec fn map_spec(&self, v: In) -> Self::Out;

    /// Apply the mapping.
    fn map(&self, v: In) -> (r: Self::Out)
        ensures
            r == self.map_spec(v),
    ;
}

/// Service returned by the map-response layer: the wrapped service with
/// its success values transformed.
#[derive(Clone, Debug)]
pub struct MapResponse<S, F> {
    /// The wrapped service.
    pub inner: S,
    /// The mapping applied to success values.
    pub f: F,
}

impl<S, F> MapResponse<S, F> {
    /// Creates a new `MapResponse` service around `inner`.
    pub fn new(inner: S, f: F) -> (s: MapResponse<S, F>)
        ensures
            s == (MapResponse { inner, f }),
    {
        MapResponse { f, inner }
    }
}

impl<State, Request, S, F> Service<State, Request> for MapResponse<S, F> where
    S: Service<State, Request>,
    F: ResponseMapper<S::Response>,
 {
    type Response = F::Out;

    open spec fn wf(&self) -> bool {
        self.inner.wf()
    }

    open spec fn m_result(&self, ctx: Context<State>, req: Request) -> Result<F::Out, Seq<char>> {
        match self.inner.m_result(ctx, req) {
            Ok(v) => Ok(self.f.map_spec(v)),
            Err(m) => Err(m),
        }
    }

    open spec fn m_elapsed(&self, ctx: Context<State>, req: Request) -> u64 {
        self.inner.m_elapsed(ctx, req)
    }

    open spec fn m_marks(&self, ctx: Context<State>, req: Request) -> Seq<Mark> {
        self.inner.m_marks(ctx, req)
    }

    fn serve(&self, ctx: Context<State>, req: Request) -> (out: Outcome<F::Out>) {
        let inner_out = self.inner.serve(ctx, req);
        match inner_out.result {
            Ok(v) => Outcome {
                result: Ok(self.f.map(v)),
                elapsed_ms: inner_out.elapsed_ms,
                marks: inner_out.marks,
            },
            Err(e) => Outcome {
                result: Err(e),
                elapsed_ms: inner_out.elapsed_ms,
                marks: inner_out.marks,
            },
        }
    }
}

/// A layer that produces a [`MapResponse`] service.
#[derive(Clone, Debug)]
pub struct MapResponseLayer<F> {
    /// The mapping handed to every produced service.
    pub f: F,
}

impl<F> MapResponseLayer<F> {
    /// Creates a new [`MapResponseLayer`] around the given mapping.
    pub fn new(f: F) -> (l: MapResponseLayer<F>)
        ensures
            l == (MapResponseLayer { f }),
    {
        MapResponseLayer { f }
    }
}

impl<S, F: Copy> Layer<S> for MapResponseLayer<F> {
    type Service = MapResponse<S, F>;

    open spec fn wrapped(&self, inner: S) -> MapResponse<S, F> {
        MapResponse { inner, f: self.f }
    }

    fn layer(&self, inner: S) -> (svc: MapResponse<S, F>) {
        MapResponse { f: self.f, inner }
    }
}

/// The map-response law: if the wrapped service succeeds with `v`, the
/// composed service succeeds with the mapping applied to `v`; if the
/// wrapped service fails with `e`, the composed service fails with `e`
/// unchanged, and the mapping is never consulted.
pub proof fn lemma_map_response<State, Request, S, F>(
    m: MapResponse<S, F>,
    ctx: Context<State>,
    req: Request,
) where S: Service<State, Request>, F: ResponseMapper<S::Response>
    ensures
        forall|v: S::Response|
            m.inner.m_result(ctx, req) == Ok::<S::Response, Seq<char>>(v) ==> m.m_result(ctx, req)
                == Ok::<F::Out, Seq<char>>(m.f.map_spec(v)),
        forall|e: Seq<char>|
            m.inner.m_result(ctx, req) == Err::<S::Response, Seq<char>>(e) ==> m.m_result(ctx, req)
                == Err::<F::Out, Seq<char>>(e),
        m.m_elapsed(ctx, req) == m.inner.m_elapsed(ctx, req),
        m.m_marks(ctx, req) == m.inner.m_marks(ctx, req),
{
}

/// A simple total mapping used as a worked example: halves a numeric
/// response.
#[derive(Clone, Copy, Debug)]
pub struct Halve;

impl ResponseMapper<u64> for Halve {
    type Out = u64;

    open spec fn map_spec(&self, v: u64) -> u64 {
        v / 2
    }

    fn map(&self, v: u64) -> (r: u64) {
        v / 2
    }
}

} // verus!
