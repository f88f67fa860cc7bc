//! One whole run at the decision level: bind, resolve a test host to
//! a local address, accept a client, and relay a short exchange.

use stratum_proxy::addr::IpRep;
use stratum_proxy::addr::ResolvedAddr;
use stratum_proxy::config::Stratum;
use stratum_proxy::report::CopyOutcome;
use stratum_proxy::resolver::ResolveStep;
use stratum_proxy::resolver::UpstreamResolver;
use stratum_proxy::session::SessionAction;
use stratum_proxy::session::SessionEvent;
use stratum_proxy::session::SessionState;
use stratum_proxy::supervisor::AcceptOutcome;
use stratum_proxy::supervisor::AcceptPolicy;
use stratum_proxy::supervisor::SupervisorAction;
use stratum_proxy::supervisor::bind_target;
use stratum_proxy::supervisor::on_accept;

#[test]
fn whole_run_against_a_local_upstream() {
    // The listener's bind target.
    assert_eq!(bind_target("127.0.0.1", 9000), "127.0.0.1:9000");

    // The upstream host is a name, so it is looked up exactly once;
    // here the lookup lands on a local TLS echo server.
    let host = "example-stratum.test";
    let stratum = Stratum::new(host.to_string());
    let mut resolver = UpstreamResolver::new(host.to_string());
    let upstream = match resolver.begin() {
        ResolveStep::Ready(_) => panic!("a name must be looked up"),
        ResolveStep::NeedLookup { domain } => {
            assert_eq!(domain, "example-stratum.test:443");
            let local = ResolvedAddr { ip: IpRep::V4 { a: 127, b: 0, c: 0, d: 1 }, port: 443 };
            let log = resolver.complete_lookup(Some(local)).unwrap();
            assert_eq!(
                log.render(),
                "Successfully resolved example-stratum.test:443 to 127.0.0.1:443"
            );
            resolver.address()
        }
    };
    assert_eq!(resolver.lookups, 1);

    // A client connects to the bound port; the loop spawns its session.
    let client = ResolvedAddr { ip: IpRep::V4 { a: 127, b: 0, c: 0, d: 1 }, port: 52311 };
    let mut session = match on_accept(
        AcceptOutcome::Connection { client },
        AcceptPolicy::default(),
        upstream,
        &stratum,
        false,
    ) {
        SupervisorAction::Spawn { session, greeting } => {
            assert_eq!(greeting.render(), "New connection from 127.0.0.1:52311");
            session
        }
        _ => panic!("an accepted connection must spawn a session"),
    };

    // The session dials the resolved address, verifies TLS against
    // the host name, and relays five bytes out and an answer back.
    assert_eq!(session.dial_target(), upstream);
    match session.step(SessionEvent::DialSucceeded) {
        SessionAction::StartHandshake { server_name } => assert_eq!(server_name, host),
        _ => panic!("expected a handshake to start"),
    }
    match session.step(SessionEvent::HandshakeSucceeded) {
        SessionAction::StartCopies => {}
        _ => panic!("expected the copies to start"),
    }
    let done = session.step(SessionEvent::CopiesFinished {
        upstream_to_client: CopyOutcome::Copied(12),
        client_to_upstream: CopyOutcome::Copied(5),
    });
    match done {
        SessionAction::Finish { logs } => assert!(logs.is_empty()),
        _ => panic!("expected the session to finish"),
    }
    assert_eq!(session.state, SessionState::Closed);

    // A later session reuses the same address without another lookup.
    match resolver.begin() {
        ResolveStep::Ready(a) => assert_eq!(a, upstream),
        ResolveStep::NeedLookup { .. } => panic!("resolution must not happen twice"),
    }
    assert_eq!(resolver.lookups, 1);
}
