//! The service contract: the unit of work of the pipeline.
//!
//! A service consumes a context and a request and resolves to a result.
//! Resolution is modelled discretely: the outcome records the time (in
//! milliseconds) at which the call would resolve and the ordered sequence
//! of observable effects it performed, so racing and layering behaviour
//! can be captured in contracts.  Every service carries a specification of
//! its own behaviour, and `serve` is proved to follow it.

use vstd::prelude::*;

use crate::context::Context;
use crate::error::Error;

verus! {

/// One observable effect of a service call, used to state in which order
/// layers run their pre- and post-processing.
#[derive(Clone, Copy, Debug, PartialEq, Eq, Structural)]
pub enum Mark {
    /// A layer with the given tag started its pre-processing.
    Enter(u64),
    /// A layer with the given tag finished its post-processing.
    Exit(u64),
}

/// The resolution of one service call.
#[derive(Debug)]
pub struct Outcome<Response> {
    /// The value or error the call resolved with.
    pub result: Result<Response, Error>,
    /// The time, in milliseconds from the start of the call, at which the
    /// call resolved.
    pub elapsed_ms: u64,
    /// The observable effects of the call, in the order they occurred.
    pub marks: Vec<Mark>,
}

/// A result with its error abstracted to the error's message, so that
/// contracts can speak of errors independently of their representation.
pub open spec fn result_view<Response>(r: Result<Response, Error>) -> Result<Response, Seq<char>> {
    match r {
        Ok(v) => Ok(v),
        Err(e) => Err(e@),
    }
}

/// The unit of work: a transform from a context and a request to a
/// result, resolving after a modelled delay.
///
/// Each implementation describes its own behaviour through the three
/// model functions, and `serve` must follow them exactly.
pub trait Service<State, Request> {
    /// The success type this service resolves with.
    type Response;

    /// When this service value is well formed enough to be called.
    spec fn wf(&self) -> bool;

    /// The result the call resolves with, errors viewed as messages.
    spec fn m_result(&self, ctx: Context<State>, req: Request) -> Result<
        Self::Response,
        Seq<char>,
    >;

    /// The time, in milliseconds, at which the call resolves.
    spec fn m_elapsed(&self, ctx: Context<State>, req: Request) -> u64;

    /// The observable effects of the call, in order.
    spec fn m_marks(&self, ctx: Context<State>, req: Request) -> Seq<Mark>;

    /// Run the service on one request.
    fn serve(&self, ctx: Context<State>, req: Request) -> (out: Outcome<Self::Response>)
        requires
            self.wf(),
        ensures
            result_view(out.result) == self.m_result(ctx, req),
            out.elapsed_ms == self.m_elapsed(ctx, req),
            out.marks@ == self.m_marks(ctx, req),
    ;
}

/// A terminal service that resolves with its own request after a fixed
/// modelled delay.
#[derive(Clone, Copy, Debug)]
pub struct EchoService {
    /// The time, in milliseconds, this service takes to resolve.
    pub delay_ms: u64,
}

impl EchoService {
    /// An echo service resolving after the given delay.
    pub fn new(delay_ms: u64) -> (s: EchoService)
        ensures
            s == (EchoService { delay_ms }),
    {
        EchoService { delay_ms }
    }
}

impl<State, Request> Service<State, Request> for EchoService {
    type Response = Request;

    open spec fn wf(&self) -> bool {
        true
    }

    open spec fn m_result(&self, ctx: Context<State>, req: Request) -> Result<Request, Seq<char>> {
        Ok(req)
    }

    open spec fn m_elapsed(&self, ctx: Context<State>, req: Request) -> u64 {
        self.delay_ms
    }

    open spec fn m_marks(&self, ctx: Context<State>, req: Request) -> Seq<Mark> {
        Seq::empty()
    }

    fn serve(&self, ctx: Context<State>, req: Request) -> (out: Outcome<Request>) {
        let out = Outcome { result: Ok(req), elapsed_ms: self.delay_ms, marks: Vec::new() };
        proof {
            assert(out.marks@ =~= Seq::<Mark>::empty());
        }
        out
    }
}

/// A terminal service that always fails with a fixed message after a
/// fixed modelled delay.
#[derive(Clone, Debug)]
pub struct FailService {
    /// The time, in milliseconds, this service takes to resolve.
    pub delay_ms: u64,
    /// The message of the error the service fails with.
    pub msg: String,
}

impl FailService {
    /// A service failing with the given message after the given delay.
    pub fn new(delay_ms: u64, msg: String) -> (s: FailService)
        ensures
            s.delay_ms == delay_ms,
            s.msg@ == msg@,
    {
        FailService { delay_ms, msg }
    }
}

impl<State, Request> Service<State, Request> for FailService {
    type Response = Request;

    open spec fn wf(&self) -> bool {
        true
    }

    open spec fn m_result(&self, ctx: Context<State>, req: Request) -> Result<Request, Seq<char>> {
        Err(self.msg@)
    }

    open spec fn m_elapsed(&self, ctx: Context<State>, req: Request) -> u64 {
        self.delay_ms
    }

    open spec fn m_marks(&self, ctx: Context<State>, req: Request) -> Seq<Mark> {
        Seq::empty()
    }

    fn serve(&self, ctx: Context<State>, req: Request) -> (out: Outcome<Request>) {
        let out = Outcome {
            result: Err(Error::new(self.msg.clone())),
            elapsed_ms: self.delay_ms,
            marks: Vec::new(),
        };
        proof {
            assert(out.marks@ =~= Seq::<Mark>::empty());
        }
        out
    }
}

} // verus!
