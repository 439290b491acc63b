//! Client-hello-driven server-configuration selection.
//!
//! The handshake parses the client hello before committing to a server
//! configuration; the parsed snapshot is handed to a pluggable selection
//! callback, and the handshake then finishes with either the returned
//! override or a statically configured default.  The callback may ask
//! for the snapshot to be retained for the connection's context.  A
//! malformed hello or a failing callback aborts only its own connection:
//! the decision for each connection depends on that connection's
//! handshake alone.

use vstd::prelude::*;

use crate::error::Error;

verus! {

/// The abstract content of a client hello: the server name and the
/// offered application protocols.
pub ghost struct HelloView {
    /// The server name, if one was presented.
    pub server_name: Option<Seq<char>>,
    /// The offered application protocols, in preference order.
    pub alpn: Seq<Seq<char>>,
}

/// An immutable snapshot of the parsed client hello, produced once per
/// handshake and never mutated after creation.
#[derive(Debug)]
pub struct ClientHello {
    /// The server name (SNI) presented by the client, if any.
    pub server_name: Option<String>,
    /// The application protocols offered by the client, in preference order.
    pub alpn: Vec<String>,
}

impl View for ClientHello {
    type V = HelloView;

    open spec fn view(&self) -> HelloView {
        HelloView {
            server_name: match self.server_name {
                Some(s) => Some(s@),
                None => None,
            },
            alpn: self.alpn.deep_view(),
        }
    }
}

impl Clone for ClientHello {
    /// Cloning preserves the snapshot's content.
    fn clone(&self) -> (c: Self)
        ensures
            c@ == self@,
    {
        let c = ClientHello {
            server_name: match &self.server_name {
                Some(s) => Some(s.clone()),
                None => None,
            },
            alpn: self.alpn.clone(),
        };
        proof {
            assert(c.alpn.deep_view() =~= self.alpn.deep_view());
        }
        c
    }
}

/// The pluggable selection callback: given the parsed hello it either
/// returns an override configuration, declines (so the default is used),
/// or fails (so the handshake is aborted); it also says whether the
/// snapshot should be retained for the connection's context.
pub trait ConfigSelector {
    /// The callback's decision for a given hello.
    spec fn choice(&self, hello: HelloView) -> Result<Option<u64>, Seq<char>>;

    /// Whether the callback asks the snapshot to be retained.
    spec fn wants_retain(&self, hello: HelloView) -> bool;

    /// Invoke the callback on one parsed hello.
    fn select(&self, hello: &ClientHello) -> (r: Result<(Option<u64>, bool), Error>)
        ensures
            match r {
                Ok(c) => self.choice(hello@) == Ok::<Option<u64>, Seq<char>>(c.0) && c.1
                    == self.wants_retain(hello@),
                Err(e) => self.choice(hello@) == Err::<Option<u64>, Seq<char>>(e@),
            },
    ;
}

/// The absent callback: it never overrides and never retains, so the
/// default configuration is always used.
#[derive(Clone, Copy, Debug)]
pub struct NoSelector;

impl ConfigSelector for NoSelector {
    open spec fn choice(&self, hello: HelloView) -> Result<Option<u64>, Seq<char>> {
        Ok(None)
    }

    open spec fn wants_retain(&self, hello: HelloView) -> bool {
        false
    }

    fn select(&self, hello: &ClientHello) -> (r: Result<(Option<u64>, bool), Error>) {
        Ok((None, false))
    }
}

/// The first configuration associated with `name` in `rules`, if any.
pub open spec fn lookup(rules: Seq<(String, u64)>, name: Seq<char>) -> Option<u64>
    decreases rules.len(),
{
    if rules.len() == 0 {
        None
    } else {
        match lookup(rules.drop_last(), name) {
            Some(c) => Some(c),
            None => if rules.last().0@ == name {
                Some(rules.last().1)
            } else {
                None
            },
        }
    }
}

/// A selection callback that maps server names to configurations: the
/// first rule whose name equals the presented server name wins, and a
/// hello without a server name is never overridden.
#[derive(Debug)]
pub struct SniSelector {
    /// The name-to-configuration rules, earlier rules taking precedence.
    pub rules: Vec<(String, u64)>,
    /// Whether matched hellos should be retained for the context.
    pub retain: bool,
}

impl SniSelector {
    /// A selector with no rules yet.
    pub fn new(retain: bool) -> (s: SniSelector)
        ensures
            s.rules@ == Seq::<(String, u64)>::empty(),
            s.retain == retain,
    {
        let s = SniSelector { rules: Vec::new(), retain };
        proof {
            assert(s.rules@ =~= Seq::<(String, u64)>::empty());
        }
        s
    }

    /// Append a rule mapping `name` to `config`; earlier rules keep
    /// precedence.
    pub fn add_rule(&mut self, name: String, config: u64)
        ensures
            final(self).rules@ == old(self).rules@.push((name, config)),
            final(self).retain == old(self).retain,
    {
        self.rules.push((name, config));
    }
}

impl ConfigSelector for SniSelector {
    open spec fn choice(&self, hello: HelloView) -> Result<Option<u64>, Seq<char>> {
        match hello.server_name {
            Some(n) => Ok(lookup(self.rules@, n)),
            None => Ok(None),
        }
    }

    open spec fn wants_retain(&self, hello: HelloView) -> bool {
        self.retain
    }

    fn select(&self, hello: &ClientHello) -> (r: Result<(Option<u64>, bool), Error>) {
        match &hello.server_name {
            None => Ok((None, self.retain)),
            Some(n) => {
                let mut found: Option<u64> = None;
                let mut i: usize = 0;
                while i < self.rules.len()
                    invariant
                        i <= self.rules@.len(),
                        found == lookup(self.rules@.take(i as int), n@),
                    decreases self.rules@.len() - i,
                {
                    proof {
                        assert(self.rules@.take(i + 1 as int).drop_last() =~= self.rules@.take(
                            i as int,
                        ));
                        assert(self.rules@.take(i + 1 as int).last() == self.rules@[i as int]);
                    }
                    if found.is_none() {
                        let entry = &self.rules[i];
                        if entry.0 == *n {
                            found = Some(entry.1);
                        }
                    }
                    i += 1;
                }
                proof {
                    assert(self.rules@.take(self.rules@.len() as int) =~= self.rules@);
                }
                Ok((found, self.retain))
            },
        }
    }
}

/// The outcome of a successful handshake: the configuration it finished
/// with and the snapshot retained for the context, if requested.
#[derive(Debug)]
pub struct Accepted {
    /// The configuration the handshake finished with.
    pub config: u64,
    /// The hello snapshot to retain into the connection's context, if the
    /// callback asked for it.
    pub retained_hello: Option<ClientHello>,
}

/// The result of parsing one connection's client hello, errors viewed as
/// messages.
pub open spec fn hello_result_view(r: Result<ClientHello, Error>) -> Result<
    HelloView,
    Seq<char>,
> {
    match r {
        Ok(h) => Ok(h@),
        Err(e) => Err(e@),
    }
}

/// The per-connection selection step: it receives each connection's
/// parse outcome and finishes the handshake with the callback's override
/// or the configured default.
#[derive(Clone, Copy, Debug)]
pub struct TlsAcceptor<Sel> {
    /// The pluggable selection callback.
    pub selector: Sel,
    /// The configuration used when the callback declines.
    pub default_config: u64,
}

impl<Sel: ConfigSelector> TlsAcceptor<Sel> {
    /// An acceptor with the given callback and default configuration.
    pub fn new(selector: Sel, default_config: u64) -> (a: TlsAcceptor<Sel>)
        ensures
            a == (TlsAcceptor { selector, default_config }),
    {
        TlsAcceptor { selector, default_config }
    }

    /// The configuration one connection's handshake finishes with, or the
    /// message it is aborted with: a parse failure or callback failure
    /// aborts the connection; an override wins over the default.
    pub open spec fn decision(&self, hello: Result<HelloView, Seq<char>>) -> Result<
        u64,
        Seq<char>,
    > {
        match hello {
            Err(m) => Err(m),
            Ok(h) => match self.selector.choice(h) {
                Err(m) => Err(m),
                Ok(Some(c)) => Ok(c),
                Ok(None) => Ok(self.default_config),
            },
        }
    }

    /// Whether one connection's snapshot is retained for its context.
    pub open spec fn retains(&self, hello: Result<HelloView, Seq<char>>) -> bool {
        match hello {
            Ok(h) => self.selector.choice(h) is Ok && self.selector.wants_retain(h),
            Err(_) => false,
        }
    }

    /// Finish one connection's handshake from its parse outcome.
    pub fn accept(&self, hello_result: Result<ClientHello, Error>) -> (r: Result<Accepted, Error>)
        ensures
            match r {
                Ok(a) => {
                    &&& self.decision(hello_result_view(hello_result)) == Ok::<u64, Seq<char>>(
                        a.config,
                    )
                    &&& match a.retained_hello {
                        Some(h) => self.retains(hello_result_view(hello_result)) && (hello_result
                            matches Ok(h0) && h@ == h0@),
                        None => !self.retains(hello_result_view(hello_result)),
                    }
                },
                Err(e) => self.decision(hello_result_view(hello_result)) == Err::<u64, Seq<char>>(
                    e@,
                ),
            },
    {
        match hello_result {
            Err(e) => Err(e),
            Ok(hello) => match self.selector.select(&hello) {
                Err(e) => Err(e),
                Ok((choice, retain)) => {
                    let config = match choice {
                        Some(c) => c,
                        None => self.default_config,
                    };
                    let retained_hello = if retain {
                        Some(hello)
                    } else {
                        None
                    };
                    Ok(Accepted { config, retained_hello })
                },
            },
        }
    }

    /// Serve a whole sequence of connections: each connection's outcome
    /// is exactly the decision for its own handshake, so an aborted
    /// connection never affects a later well-formed one.
    pub fn accept_all(&self, hellos: Vec<Result<ClientHello, Error>>) -> (rs: Vec<
        Result<Accepted, Error>,
    >)
        ensures
            rs@.len() == hellos@.len(),
            forall|k: int|
                0 <= k < hellos@.len() ==> match #[trigger] rs@[k] {
                    Ok(a) => self.decision(hello_result_view(hellos@[k])) == Ok::<u64, Seq<char>>(
                        a.config,
                    ),
                    Err(e) => self.decision(hello_result_view(hellos@[k])) == Err::<
                        u64,
                        Seq<char>,
                    >(e@),
                },
    {
        let ghost orig = hellos@;
        let mut hellos = hellos;
        let mut rs: Vec<Result<Accepted, Error>> = Vec::new();
        while hellos.len() > 0
            invariant
                rs@.len() + hellos@.len() == orig.len(),
                hellos@ == orig.skip(rs@.len() as int),
                forall|k: int|
                    0 <= k < rs@.len() ==> match #[trigger] rs@[k] {
                        Ok(a) => self.decision(hello_result_view(orig[k])) == Ok::<u64, Seq<char>>(
                            a.config,
                        ),
                        Err(e) => self.decision(hello_result_view(orig[k])) == Err::<
                            u64,
                            Seq<char>,
                        >(e@),
                    },
            decreases hellos@.len(),
        {
            let ghost done = rs@.len() as int;
            let h = hellos.remove(0);
            proof {
                assert(h == orig[done]);
                assert(hellos@ =~= orig.skip(done + 1));
            }
            let out = self.accept(h);
            rs.push(out);
        }
        rs
    }
}

/// Absence of a callback and a callback that declines are treated
/// identically: with the absent callback, every parsed connection
/// finishes with the default configuration and nothing is retained.
pub proof fn lemma_no_selector_defaults(a: TlsAcceptor<NoSelector>, hello: HelloView)
    ensures
        a.decision(Ok(hello)) == Ok::<u64, Seq<char>>(a.default_config),
        !a.retains(Ok(hello)),
{
}

} // verus!
