use stratum_proxy::addr::IpRep;
use stratum_proxy::addr::ResolvedAddr;
use stratum_proxy::config::Stratum;
use stratum_proxy::report::CopyOutcome;
use stratum_proxy::report::Direction;
use stratum_proxy::report::LogEvent;
use stratum_proxy::report::copy_report;
use stratum_proxy::session::SessionState;
use stratum_proxy::supervisor::AcceptOutcome;
use stratum_proxy::supervisor::AcceptPolicy;
use stratum_proxy::supervisor::SupervisorAction;
use stratum_proxy::supervisor::bind_target;
use stratum_proxy::supervisor::on_accept;

fn upstream_addr() -> ResolvedAddr {
    ResolvedAddr { ip: IpRep::V4 { a: 198, b: 51, c: 100, d: 7 }, port: 443 }
}

fn client() -> ResolvedAddr {
    ResolvedAddr { ip: IpRep::V4 { a: 192, b: 0, c: 2, d: 33 }, port: 40000 }
}

#[test]
fn stratum_port_is_fixed() {
    let s = Stratum::new(String::from("example-stratum.test"));
    assert_eq!(s.host, "example-stratum.test");
    assert_eq!(s.port, 443);
}

#[test]
fn bind_target_joins_ip_and_port() {
    assert_eq!(bind_target("127.0.0.1", 9000), "127.0.0.1:9000");
    assert_eq!(bind_target("0.0.0.0", 3333), "0.0.0.0:3333");
}

#[test]
fn accepted_connection_spawns_fresh_session() {
    let target = Stratum::new(String::from("example-stratum.test"));
    let a = on_accept(
        AcceptOutcome::Connection { client: client() },
        AcceptPolicy::default(),
        upstream_addr(),
        &target,
        true,
    );
    match a {
        SupervisorAction::Spawn { session, greeting } => {
            assert_eq!(session.upstream, upstream_addr());
            assert_eq!(session.server_name, "example-stratum.test");
            assert_eq!(session.client, client());
            assert!(session.debug);
            assert_eq!(session.state, SessionState::Connecting);
            assert_eq!(greeting.render(), "New connection from 192.0.2.33:40000");
        }
        _ => panic!("an accepted connection must spawn a session"),
    }
}

#[test]
fn accept_failure_is_fatal_by_default() {
    assert_eq!(AcceptPolicy::default(), AcceptPolicy::Fatal);
    let target = Stratum::new(String::from("example-stratum.test"));
    let a = on_accept(
        AcceptOutcome::Failure { cause: String::from("too many open files") },
        AcceptPolicy::Fatal,
        upstream_addr(),
        &target,
        false,
    );
    match a {
        SupervisorAction::Stop { cause } => assert_eq!(cause, "too many open files"),
        _ => panic!("the default policy must stop the process"),
    }
}

#[test]
fn accept_failure_can_be_survived_by_policy() {
    let target = Stratum::new(String::from("example-stratum.test"));
    let a = on_accept(
        AcceptOutcome::Failure { cause: String::from("too many open files") },
        AcceptPolicy::LogAndContinue,
        upstream_addr(),
        &target,
        false,
    );
    match a {
        SupervisorAction::KeepListening { log } => {
            assert_eq!(log.render(), "Error accepting connection: too many open files");
        }
        _ => panic!("the policy must keep the listener going"),
    }
}

#[test]
fn copy_report_is_silent_on_success_without_debug() {
    let r = copy_report(
        Direction::UpstreamToClient,
        &CopyOutcome::Copied(1000),
        false,
        client(),
    );
    assert!(r.is_none());
}

#[test]
fn copy_report_counts_bytes_with_debug() {
    let r = copy_report(
        Direction::ClientToUpstream,
        &CopyOutcome::Copied(1000),
        true,
        client(),
    );
    let line = r.expect("debug mode owes a byte-count line").render();
    assert_eq!(
        line,
        "Transferred 1000 bytes from remote client 192.0.2.33:40000 to upstream server"
    );
}

#[test]
fn copy_report_always_logs_failures() {
    let r = copy_report(
        Direction::UpstreamToClient,
        &CopyOutcome::Failed(String::from("timed out")),
        false,
        client(),
    );
    let line = r.expect("a failure is always logged").render();
    assert_eq!(
        line,
        "Error writing bytes from upstream server to remote client 192.0.2.33:40000: timed out"
    );
}

#[test]
fn listening_line_names_the_bound_address() {
    let e = LogEvent::Listening {
        local: ResolvedAddr { ip: IpRep::V4 { a: 127, b: 0, c: 0, d: 1 }, port: 9000 },
    };
    assert_eq!(e.render(), "Listening on 127.0.0.1:9000");
}
