//! The accept loop's decisions: what the listener binds, and what to
//! do with each accept outcome.  Every accepted client gets an
//! independent relay session that never blocks the loop; an accept
//! failure is fatal by default, with log-and-continue available as a
//! policy.

use vstd::prelude::*;
use vstd::string::StringExecFns;

use crate::addr::ResolvedAddr;
use crate::config::Stratum;
use crate::report::LogEvent;
use crate::report::LogEventView;
use crate::session::RelaySession;
use crate::session::RelaySessionView;
use crate::session::SessionState;
use crate::text::dec_digits;
use crate::text::u64_to_dec;

verus! {

/// What an accept-call failure does to the listener.  The default is
/// `Fatal`: the failure ends the whole process.
#[derive(Clone, Copy, PartialEq, Eq, Structural, Debug)]
pub enum AcceptPolicy {
    Fatal,
    LogAndContinue,
}

impl Default for AcceptPolicy {
    /// The documented default: an accept failure is fatal.
    fn default() -> (r: AcceptPolicy)
        ensures
            r == AcceptPolicy::Fatal,
    {
        AcceptPolicy::Fatal
    }
}

/// What one turn of the accept loop produced.
#[derive(Clone, Debug)]
pub enum AcceptOutcome {
    /// A client connection arrived from `client`.
    Connection { client: ResolvedAddr },
    /// The accept call itself failed.
    Failure { cause: String },
}

/// What the accept loop must do next.
#[derive(Clone, Debug)]
pub enum SupervisorAction {
    /// Emit `greeting`, launch `session` as an independent unit of
    /// work, and go straight back to accepting.
    Spawn { session: RelaySession, greeting: LogEvent },
    /// Stop the whole process with `cause`.
    Stop { cause: String },
    /// Emit the log line and keep accepting.
    KeepListening { log: LogEvent },
}

/// The text the listener binds: the bind address joined with the
/// local port.
pub fn bind_target(bind_ip: &str, local_port: u16) -> (r: String)
    ensures
        r@ == bind_ip@ + ":"@ + dec_digits(local_port as nat),
{
    proof {
        reveal_strlit(":");
    }
    let mut r = String::from_str(bind_ip);
    r.append(":");
    let p = u64_to_dec(local_port as u64);
    r.append(p.as_str());
    r
}

/// Decides one turn of the accept loop.  A connection spawns a fresh
/// session for that client — dialing the resolved upstream address,
/// verifying TLS against the configured host name, carrying the
/// debug flag — and greets it in the log; the loop itself never
/// waits on the session.  An accept failure stops the process under
/// the `Fatal` policy and is logged-and-survived under
/// `LogAndContinue`.
pub fn on_accept(
    outcome: AcceptOutcome,
    policy: AcceptPolicy,
    upstream: ResolvedAddr,
    target: &Stratum,
    debug: bool,
) -> (a: SupervisorAction)
    ensures
        match outcome {
            AcceptOutcome::Connection { client } => a matches SupervisorAction::Spawn {
                session,
                greeting,
            } && session@ == (RelaySessionView {
                upstream,
                server_name: target@.host,
                client,
                debug,
                state: SessionState::Connecting,
            }) && greeting@ == (LogEventView::NewConnection { client }),
            AcceptOutcome::Failure { cause } => match policy {
                AcceptPolicy::Fatal => a matches SupervisorAction::Stop { cause: c } && c@
                    == cause@,
                AcceptPolicy::LogAndContinue => a matches SupervisorAction::KeepListening { log }
                    && log@ == (LogEventView::AcceptFailed { cause: cause@ }),
            },
        },
{
    match outcome {
        AcceptOutcome::Connection { client } => {
            let session = RelaySession::new(upstream, target.host.clone(), client, debug);
            let greeting = LogEvent::NewConnection { client };
            SupervisorAction::Spawn { session, greeting }
        },
        AcceptOutcome::Failure { cause } => {
            match policy {
                AcceptPolicy::Fatal => SupervisorAction::Stop { cause },
                AcceptPolicy::LogAndContinue => SupervisorAction::KeepListening {
                    log: LogEvent::AcceptFailed { cause },
                },
            }
        },
    }
}

} // verus!
