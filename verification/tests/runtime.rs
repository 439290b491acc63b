use rama::context::Context;
use rama::error::Error;
use rama::listener::{serve_graceful, AcceptEvent};
use rama::shutdown::{Guard, Shutdown};
use rama::tls::{ClientHello, NoSelector, SniSelector, TlsAcceptor};
use rama::tracker::{ByteStream, BytesTrackerLayer, TrackedStream};

#[test]
fn guard_signals_cooperatively() {
    let mut g = Guard::new();
    assert!(!g.is_cancelled());
    g.cancel();
    assert!(g.is_cancelled());
}

#[test]
fn tracked_stream_counts_exactly() {
    let incoming = vec![7u8; 500];
    let mut stream = TrackedStream::new(ByteStream::new(incoming));
    let outgoing = vec![1u8; 1000];
    let n = stream.write(&outgoing);
    assert_eq!(n, 1000);
    let data = stream.read(500);
    assert_eq!(data.len(), 500);
    let h = stream.handle();
    assert_eq!(h.written, 1000);
    assert_eq!(h.read, 500);
}

#[test]
fn tracked_stream_is_transparent() {
    let incoming = vec![1u8, 2, 3, 4, 5];
    let mut plain = ByteStream::new(incoming.clone());
    let mut wrapped = TrackedStream::new(ByteStream::new(incoming));
    assert_eq!(plain.read(3), wrapped.read(3));
    assert_eq!(plain.read(10), wrapped.read(10));
    let payload = vec![9u8, 8, 7];
    plain.write(&payload);
    wrapped.write(&payload);
    assert_eq!(plain.outgoing, wrapped.inner.outgoing);
}

#[test]
fn tracked_stream_counts_never_decrease() {
    let mut stream = TrackedStream::new(ByteStream::new(vec![0u8; 100]));
    let mut last_read = 0u64;
    let mut last_written = 0u64;
    for _ in 0..10 {
        stream.read(15);
        stream.write(&vec![2u8; 30]);
        let h = stream.handle();
        assert!(h.read >= last_read);
        assert!(h.written >= last_written);
        last_read = h.read;
        last_written = h.written;
    }
    // reads past end of stream keep counting what was actually transferred
    assert_eq!(last_read, 100);
    assert_eq!(last_written, 300);
}

#[test]
fn tracker_layer_publishes_handle() {
    let mut ctx: Context<u8> = Context::new(0);
    let layer = BytesTrackerLayer::new();
    let stream = layer.wrap(ByteStream::new(vec![5u8; 8]), &mut ctx);
    let h = ctx.get_tracker().unwrap();
    assert_eq!((h.read, h.written), (0, 0));
    assert_eq!(stream.handle().read, 0);
}

#[test]
fn shutdown_reports_unfinished_at_deadline() {
    let mut s = Shutdown::new();
    let (a, _) = s.spawn(Some(10));
    let (b, _) = s.spawn(Some(50));
    let (c, _) = s.spawn(None);
    let err = s.shutdown_with_limit(100).unwrap_err();
    assert_eq!(err.limit_ms, 100);
    assert_eq!(err.unfinished, vec![c]);
    assert!(a != b && b != c && a != c);
    // the finished tasks were released; the unfinished one stays accounted for
    assert_eq!(s.tasks.len(), 1);
    assert_eq!(s.tasks[0].id, c);
}

#[test]
fn shutdown_resolves_when_last_task_finishes() {
    let mut s = Shutdown::new();
    s.spawn(Some(10));
    s.spawn(Some(50));
    s.spawn(Some(80));
    let at = s.shutdown_with_limit(100).unwrap();
    assert_eq!(at, 80);
    assert!(s.tasks.is_empty());
}

#[test]
fn shutdown_with_no_tasks_is_immediate() {
    let mut s = Shutdown::default();
    assert_eq!(s.shutdown_with_limit(100).unwrap(), 0);
}

#[test]
fn accept_loop_dispatches_until_stop() {
    let events = vec![
        AcceptEvent::Incoming { at_ms: 10, work_ms: Some(5) },
        AcceptEvent::Transient { at_ms: 20 },
        AcceptEvent::Incoming { at_ms: 30, work_ms: Some(7) },
        AcceptEvent::Incoming { at_ms: 60, work_ms: Some(9) },
    ];
    let mut coordinator = Shutdown::new();
    let n = serve_graceful(&events, 50, &mut coordinator);
    // the transient failure is skipped, the late arrival is not accepted
    assert_eq!(n, 2);
    assert_eq!(coordinator.tasks.len(), 2);
    assert_eq!(coordinator.tasks[0].winddown_ms, Some(5));
    assert_eq!(coordinator.tasks[1].winddown_ms, Some(7));
    // dispatched connections finish under the coordinator's deadline
    assert_eq!(coordinator.shutdown_with_limit(100).unwrap(), 7);
}

fn hello(name: &str) -> ClientHello {
    ClientHello { server_name: Some(name.to_string()), alpn: Vec::new() }
}

#[test]
fn tls_selects_override_for_known_name() {
    let mut sel = SniSelector::new(false);
    sel.add_rule("a.example".to_string(), 1);
    let acceptor = TlsAcceptor::new(sel, 0);
    let accepted = acceptor.accept(Ok(hello("a.example"))).unwrap();
    assert_eq!(accepted.config, 1);
    assert!(accepted.retained_hello.is_none());
}

#[test]
fn tls_falls_back_to_default_for_unknown_name() {
    let mut sel = SniSelector::new(false);
    sel.add_rule("a.example".to_string(), 1);
    let acceptor = TlsAcceptor::new(sel, 0);
    let accepted = acceptor.accept(Ok(hello("unknown"))).unwrap();
    assert_eq!(accepted.config, 0);
}

#[test]
fn tls_first_matching_rule_wins() {
    let mut sel = SniSelector::new(false);
    sel.add_rule("a.example".to_string(), 1);
    sel.add_rule("a.example".to_string(), 2);
    let acceptor = TlsAcceptor::new(sel, 0);
    assert_eq!(acceptor.accept(Ok(hello("a.example"))).unwrap().config, 1);
}

#[test]
fn tls_retains_hello_when_asked() {
    let mut sel = SniSelector::new(true);
    sel.add_rule("a.example".to_string(), 1);
    let acceptor = TlsAcceptor::new(sel, 0);
    let accepted = acceptor.accept(Ok(hello("a.example"))).unwrap();
    let kept = accepted.retained_hello.unwrap();
    assert_eq!(kept.server_name.as_deref(), Some("a.example"));
    // a retained snapshot can be attached to the connection's context
    let mut ctx: Context<u8> = Context::new(0);
    ctx.insert_hello(kept);
    assert!(ctx.get_hello().is_some());
}

#[test]
fn tls_no_selector_uses_default() {
    let acceptor = TlsAcceptor::new(NoSelector, 3);
    assert_eq!(acceptor.accept(Ok(hello("a.example"))).unwrap().config, 3);
}

#[test]
fn tls_bad_hello_aborts_only_its_connection() {
    let mut sel = SniSelector::new(false);
    sel.add_rule("a.example".to_string(), 1);
    let acceptor = TlsAcceptor::new(sel, 0);
    let outcomes = acceptor.accept_all(vec![
        Err(Error::new("unparsable client hello".to_string())),
        Ok(hello("a.example")),
    ]);
    assert_eq!(outcomes.len(), 2);
    assert_eq!(
        outcomes[0].as_ref().unwrap_err().message(),
        "unparsable client hello"
    );
    // the next well-formed connection on the same listener still succeeds
    assert_eq!(outcomes[1].as_ref().unwrap().config, 1);
}

#[test]
fn tls_hello_without_sni_uses_default() {
    let mut sel = SniSelector::new(false);
    sel.add_rule("a.example".to_string(), 1);
    let acceptor = TlsAcceptor::new(sel, 0);
    let no_sni = ClientHello { server_name: None, alpn: vec!["h2".to_string()] };
    assert_eq!(acceptor.accept(Ok(no_sni)).unwrap().config, 0);
}

#[test]
fn client_hello_clone_preserves_content() {
    let h = ClientHello {
        server_name: Some("a.example".to_string()),
        alpn: vec!["h2".to_string(), "http/1.1".to_string()],
    };
    let c = h.clone();
    assert_eq!(c.server_name, h.server_name);
    assert_eq!(c.alpn, h.alpn);
}
