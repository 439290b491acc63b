//! Instrumented layers that make the onion order observable.
//!
//! A marker layer records one effect when its pre-processing runs and one
//! when its post-processing runs.  A chain of marker layers around a
//! terminal service therefore shows, in its recorded effects, that outer
//! layers run first on the request path and last on the response path.

use vstd::prelude::*;

use crate::builder::Layer;
use crate::context::Context;
use crate::service::{Mark, Outcome, Service};

verus! {

/// The entry effects of a chain of tags, outermost first.
pub open spec fn enters(tags: Seq<u64>) -> Seq<Mark>
    decreases tags.len(),
{
    if tags.len() == 0 {
        Seq::empty()
    } else {
        seq![Mark::Enter(tags[0])] + enters(tags.skip(1))
    }
}

/// The exit effects of a chain of tags, outermost last.
pub open spec fn exits(tags: Seq<u64>) -> Seq<Mark>
    decreases tags.len(),
{
    if tags.len() == 0 {
        Seq::empty()
    } else {
        exits(tags.skip(1)) + seq![Mark::Exit(tags[0])]
    }
}

/// The entry effects are exactly the tags in their own order.
pub proof fn lemma_enters_index(tags: Seq<u64>)
    ensures
        enters(tags).len() == tags.len(),
        forall|k: int| 0 <= k < tags.len() ==> enters(tags)[k] == Mark::Enter(tags[k]),
    decreases tags.len(),
{
    if tags.len() > 0 {
        lemma_enters_index(tags.skip(1));
        assert forall|k: int| 0 <= k < tags.len() implies enters(tags)[k] == Mark::Enter(
            tags[k],
        ) by {
            if k > 0 {
                assert(enters(tags)[k] == enters(tags.skip(1))[k - 1]);
                assert(tags.skip(1)[k - 1] == tags[k]);
            }
        }
    }
}

/// The exit effects are exactly the tags in reverse order.
pub proof fn lemma_exits_index(tags: Seq<u64>)
    ensures
        exits(tags).len() == tags.len(),
        forall|k: int| 0 <= k < tags.len() ==> exits(tags)[k] == Mark::Exit(
            tags[tags.len() - 1 - k],
        ),
    decreases tags.len(),
{
    if tags.len() > 0 {
        lemma_exits_index(tags.skip(1));
        assert forall|k: int| 0 <= k < tags.len() implies exits(tags)[k] == Mark::Exit(
            tags[tags.len() - 1 - k],
        ) by {
            if k < tags.len() - 1 {
                assert(exits(tags)[k] == exits(tags.skip(1))[k]);
                assert(tags.skip(1)[tags.skip(1).len() - 1 - k] == tags[tags.len() - 1 - k]);
            }
        }
    }
}

/// A service that brackets the wrapped service's effects with its own
/// entry and exit marks.
#[derive(Clone, Copy, Debug)]
pub struct MarkerService<S> {
    /// The tag recorded on entry and exit.
    pub tag: u64,
    /// The wrapped service.
    pub inner: S,
}

impl<State, Request, S> Service<State, Request> for MarkerService<S> where
    S: Service<State, Request>,
 {
    type Response = S::Response;

    open spec fn wf(&self) -> bool {
        self.inner.wf()
    }

    open spec fn m_result(&self, ctx: Context<State>, req: Request) -> Result<
        S::Response,
        Seq<char>,
    > {
        self.inner.m_result(ctx, req)
    }

    open spec fn m_elapsed(&self, ctx: Context<State>, req: Request) -> u64 {
        self.inner.m_elapsed(ctx, req)
    }

    open spec fn m_marks(&self, ctx: Context<State>, req: Request) -> Seq<Mark> {
        seq![Mark::Enter(self.tag)] + self.inner.m_marks(ctx, req) + seq![Mark::Exit(self.tag)]
    }

    fn serve(&self, ctx: Context<State>, req: Request) -> (out: Outcome<S::Response>) {
        let ghost m_inner = self.inner.m_marks(ctx, req);
        let mut marks: Vec<Mark> = Vec::new();
        marks.push(Mark::Enter(self.tag));
        let Outcome { result, elapsed_ms, marks: mut inner_marks } = self.inner.serve(ctx, req);
        marks.append(&mut inner_marks);
        marks.push(Mark::Exit(self.tag));
        proof {
            assert(marks@ =~= seq![Mark::Enter(self.tag)] + m_inner + seq![Mark::Exit(self.tag)]);
        }
        Outcome { result, elapsed_ms, marks }
    }
}

/// One marker layer brackets the wrapped service, whatever it is: its
/// entry mark comes first, then the wrapped service's effects unchanged,
/// then its exit mark; result and resolution time pass through.
pub proof fn lemma_marker_brackets<State, Request, S>(
    m: MarkerService<S>,
    ctx: Context<State>,
    req: Request,
) where S: Service<State, Request>
    ensures
        m.m_marks(ctx, req) == seq![Mark::Enter(m.tag)] + m.inner.m_marks(ctx, req) + seq![
            Mark::Exit(m.tag),
        ],
        m.m_result(ctx, req) == m.inner.m_result(ctx, req),
        m.m_elapsed(ctx, req) == m.inner.m_elapsed(ctx, req),
{
}

/// A layer that wraps any service in a [`MarkerService`] with its tag.
#[derive(Clone, Copy, Debug)]
pub struct MarkerLayer {
    /// The tag the produced services record.
    pub tag: u64,
}

impl MarkerLayer {
    /// A marker layer recording the given tag.
    pub fn new(tag: u64) -> (l: MarkerLayer)
        ensures
            l == (MarkerLayer { tag }),
    {
        MarkerLayer { tag }
    }
}

impl<S> Layer<S> for MarkerLayer {
    type Service = MarkerService<S>;

    open spec fn wrapped(&self, inner: S) -> MarkerService<S> {
        MarkerService { tag: self.tag, inner }
    }

    fn layer(&self, inner: S) -> (svc: MarkerService<S>) {
        MarkerService { tag: self.tag, inner }
    }
}

/// A chain of marker layers of any length around a terminal service:
/// tag `tags[0]` stands outermost, `tags[n-1]` innermost, exactly as a
/// builder composes layers given in that order.
#[derive(Clone, Debug)]
pub struct ChainService<T> {
    /// The tags of the chained marker layers, outermost first.
    pub tags: Vec<u64>,
    /// The terminal service at the centre of the chain.
    pub terminal: T,
}

impl<T> ChainService<T> {
    /// Chain marker layers with the given tags around `terminal`.
    pub fn new(tags: Vec<u64>, terminal: T) -> (c: ChainService<T>)
        ensures
            c == (ChainService { tags, terminal }),
    {
        ChainService { tags, terminal }
    }

    /// Run the part of the chain from layer `i` inward.
    fn serve_from<State, Request>(&self, i: usize, ctx: Context<State>, req: Request) -> (out:
        Outcome<T::Response>) where T: Service<State, Request>
        requires
            self.terminal.wf(),
            i <= self.tags.len(),
        ensures
            crate::service::result_view(out.result) == self.terminal.m_result(ctx, req),
            out.elapsed_ms == self.terminal.m_elapsed(ctx, req),
            out.marks@ == enters(self.tags@.skip(i as int)) + self.terminal.m_marks(ctx, req)
                + exits(self.tags@.skip(i as int)),
        decreases self.tags.len() - i,
    {
        let ghost m_terminal = self.terminal.m_marks(ctx, req);
        if i == self.tags.len() {
            let out = self.terminal.serve(ctx, req);
            proof {
                assert(self.tags@.skip(i as int) =~= Seq::<u64>::empty());
                assert(out.marks@ =~= enters(self.tags@.skip(i as int)) + m_terminal + exits(
                    self.tags@.skip(i as int),
                ));
            }
            out
        } else {
            let tag = self.tags[i];
            let mut marks: Vec<Mark> = Vec::new();
            marks.push(Mark::Enter(tag));
            let Outcome { result, elapsed_ms, marks: mut inner_marks } = self.serve_from(
                i + 1,
                ctx,
                req,
            );
            marks.append(&mut inner_marks);
            marks.push(Mark::Exit(tag));
            proof {
                let rest = self.tags@.skip(i as int);
                assert(rest.skip(1) =~= self.tags@.skip(i + 1 as int));
                assert(rest[0] == self.tags@[i as int]);
                assert(marks@ =~= enters(rest) + m_terminal + exits(rest));
            }
            Outcome { result, elapsed_ms, marks }
        }
    }
}

impl<State, Request, T> Service<State, Request> for ChainService<T> where
    T: Service<State, Request>,
 {
    type Response = T::Response;

    open spec fn wf(&self) -> bool {
        self.terminal.wf()
    }

    open spec fn m_result(&self, ctx: Context<State>, req: Request) -> Result<
        T::Response,
        Seq<char>,
    > {
        self.terminal.m_result(ctx, req)
    }

    open spec fn m_elapsed(&self, ctx: Context<State>, req: Request) -> u64 {
        self.terminal.m_elapsed(ctx, req)
    }

    open spec fn m_marks(&self, ctx: Context<State>, req: Request) -> Seq<Mark> {
        enters(self.tags@) + self.terminal.m_marks(ctx, req) + exits(self.tags@)
    }

    fn serve(&self, ctx: Context<State>, req: Request) -> (out: Outcome<T::Response>) {
        let out = self.serve_from(0, ctx, req);
        proof {
            assert(self.tags@.skip(0) =~= self.tags@);
        }
        out
    }
}

/// The onion-composition law: for a chain of layers `L1 .. Ln` around a
/// terminal service and any request, the pre-processing effects occur in
/// the order `L1 -> Ln`, then the terminal's own effects, then the
/// post-processing effects in the reverse order `Ln -> L1`.
pub proof fn lemma_onion_order<State, Request, T>(
    chain: ChainService<T>,
    ctx: Context<State>,
    req: Request,
) where T: Service<State, Request>
    ensures
        chain.m_marks(ctx, req) == enters(chain.tags@) + chain.terminal.m_marks(ctx, req) + exits(
            chain.tags@,
        ),
        enters(chain.tags@).len() == chain.tags@.len(),
        exits(chain.tags@).len() == chain.tags@.len(),
        forall|k: int|
            0 <= k < chain.tags@.len() ==> #[trigger] enters(chain.tags@)[k] == Mark::Enter(
                chain.tags@[k],
            ),
        forall|k: int|
            0 <= k < chain.tags@.len() ==> #[trigger] exits(chain.tags@)[k] == Mark::Exit(
                chain.tags@[chain.tags@.len() - 1 - k],
            ),
{
    lemma_enters_index(chain.tags@);
    lemma_exits_index(chain.tags@);
}

} // verus!
