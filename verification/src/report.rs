//! Diagnostic events the relay emits, their rendered text, and the
//! rule that decides which events one session's copy outcomes owe.

use vstd::prelude::*;
use vstd::string::StringExecFns;

use crate::addr::ResolvedAddr;
use crate::addr::sock_text;
use crate::text::dec_digits;

verus! {

/// One direction of the bidirectional relay.
#[derive(Clone, Copy, PartialEq, Eq, Structural, Debug)]
pub enum Direction {
    UpstreamToClient,
    ClientToUpstream,
}

/// What one direction's copy came to: the number of bytes moved, or
/// a failure with its cause.
#[derive(Clone, Debug)]
pub enum CopyOutcome {
    Copied(u64),
    Failed(String),
}

/// The mathematical value of a [`CopyOutcome`].
pub enum CopyOutcomeView {
    Copied(u64),
    Failed(Seq<char>),
}

impl View for CopyOutcome {
    type V = CopyOutcomeView;

    open spec fn view(&self) -> CopyOutcomeView {
        match self {
            CopyOutcome::Copied(n) => CopyOutcomeView::Copied(*n),
            CopyOutcome::Failed(cause) => CopyOutcomeView::Failed(cause@),
        }
    }
}

/// One diagnostic event.  Fatal startup failures are not here: they
/// end the process and are reported by whatever runs it.
#[derive(Clone, Debug)]
pub enum LogEvent {
    /// The listener is bound and accepting.
    Listening { local: ResolvedAddr },
    /// A name lookup produced the upstream address.
    Resolved { domain: String, addr: ResolvedAddr },
    /// A client connection was accepted.
    NewConnection { client: ResolvedAddr },
    /// Accepting a connection failed and the listener keeps going.
    AcceptFailed { cause: String },
    /// Dialing the upstream address failed for one session.
    DialFailed { client: ResolvedAddr, cause: String },
    /// The TLS handshake failed for one session.
    HandshakeFailed { client: ResolvedAddr, cause: String },
    /// One direction's copy finished; reported only in debug mode.
    TransferOk { dir: Direction, client: ResolvedAddr, count: u64 },
    /// One direction's copy failed; always reported.
    TransferFailed { dir: Direction, client: ResolvedAddr, cause: String },
}

/// The mathematical value of a [`LogEvent`].
pub enum LogEventView {
    Listening { local: ResolvedAddr },
    Resolved { domain: Seq<char>, addr: ResolvedAddr },
    NewConnection { client: ResolvedAddr },
    AcceptFailed { cause: Seq<char> },
    DialFailed { client: ResolvedAddr, cause: Seq<char> },
    HandshakeFailed { client: ResolvedAddr, cause: Seq<char> },
    TransferOk { dir: Direction, client: ResolvedAddr, count: u64 },
    TransferFailed { dir: Direction, client: ResolvedAddr, cause: Seq<char> },
}

impl View for LogEvent {
    type V = LogEventView;

    open spec fn view(&self) -> LogEventView {
        match self {
            LogEvent::Listening { local } => LogEventView::Listening { local: *local },
            LogEvent::Resolved { domain, addr } => LogEventView::Resolved {
                domain: domain@,
                addr: *addr,
            },
            LogEvent::NewConnection { client } => LogEventView::NewConnection { client: *client },
            LogEvent::AcceptFailed { cause } => LogEventView::AcceptFailed { cause: cause@ },
            LogEvent::DialFailed { client, cause } => LogEventView::DialFailed {
                client: *client,
                cause: cause@,
            },
            LogEvent::HandshakeFailed { client, cause } => LogEventView::HandshakeFailed {
                client: *client,
                cause: cause@,
            },
            LogEvent::TransferOk { dir, client, count } => LogEventView::TransferOk {
                dir: *dir,
                client: *client,
                count: *count,
            },
            LogEvent::TransferFailed { dir, client, cause } => LogEventView::TransferFailed {
                dir: *dir,
                client: *client,
                cause: cause@,
            },
        }
    }
}

/// The full text of one event's log line.
pub open spec fn log_text(e: LogEventView) -> Seq<char> {
    match e {
        LogEventView::Listening { local } => "Listening on "@ + sock_text(local),
        LogEventView::Resolved { domain, addr } => "Successfully resolved "@ + domain + " to "@
            + sock_text(addr),
        LogEventView::NewConnection { client } => "New connection from "@ + sock_text(client),
        LogEventView::AcceptFailed { cause } => "Error accepting connection: "@ + cause,
        LogEventView::DialFailed { client, cause } => "Error connecting to upstream server for remote client "@
            + sock_text(client) + ": "@ + cause,
        LogEventView::HandshakeFailed { client, cause } => "Error in TLS handshake with upstream server for remote client "@
            + sock_text(client) + ": "@ + cause,
        LogEventView::TransferOk { dir, client, count } => match dir {
            Direction::UpstreamToClient => "Transferred "@ + dec_digits(count as nat)
                + " bytes from upstream server to remote client "@ + sock_text(client),
            Direction::ClientToUpstream => "Transferred "@ + dec_digits(count as nat)
                + " bytes from remote client "@ + sock_text(client) + " to upstream server"@,
        },
        LogEventView::TransferFailed { dir, client, cause } => match dir {
            Direction::UpstreamToClient => "Error writing bytes from upstream server to remote client "@
                + sock_text(client) + ": "@ + cause,
            Direction::ClientToUpstream => "Error writing from remote client "@ + sock_text(client)
                + " to upstream server: "@ + cause,
        },
    }
}

impl LogEvent {
    /// Renders the event as [`log_text`] says.
    pub fn render(&self) -> (r: String)
        ensures
            r@ == log_text(self@),
    {
        match self {
            LogEvent::Listening { local } => {
                let mut r = String::from_str("Listening on ");
                let a = crate::addr::format_addr(local);
                r.append(a.as_str());
                proof {
                    assert(r@ =~= log_text(self@));
                }
                r
            },
            LogEvent::Resolved { domain, addr } => {
                let mut r = String::from_str("Successfully resolved ");
                r.append(domain.as_str());
                r.append(" to ");
                let a = crate::addr::format_addr(addr);
                r.append(a.as_str());
                proof {
                    assert(r@ =~= log_text(self@));
                }
                r
            },
            LogEvent::NewConnection { client } => {
                let mut r = String::from_str("New connection from ");
                let a = crate::addr::format_addr(client);
                r.append(a.as_str());
                proof {
                    assert(r@ =~= log_text(self@));
                }
                r
            },
            LogEvent::AcceptFailed { cause } => {
                let mut r = String::from_str("Error accepting connection: ");
                r.append(cause.as_str());
                proof {
                    assert(r@ =~= log_text(self@));
                }
                r
            },
            LogEvent::DialFailed { client, cause } => {
                let mut r = String::from_str("Error connecting to upstream server for remote client ");
                let a = crate::addr::format_addr(client);
                r.append(a.as_str());
                r.append(": ");
                r.append(cause.as_str());
                proof {
                    assert(r@ =~= log_text(self@));
                }
                r
            },
            LogEvent::HandshakeFailed { client, cause } => {
                let mut r = String::from_str(
                    "Error in TLS handshake with upstream server for remote client ",
                );
                let a = crate::addr::format_addr(client);
                r.append(a.as_str());
                r.append(": ");
                r.append(cause.as_str());
                proof {
                    assert(r@ =~= log_text(self@));
                }
                r
            },
            LogEvent::TransferOk { dir, client, count } => {
                let mut r = String::from_str("Transferred ");
                let n = crate::text::u64_to_dec(*count);
                r.append(n.as_str());
                let a = crate::addr::format_addr(client);
                match dir {
                    Direction::UpstreamToClient => {
                        r.append(" bytes from upstream server to remote client ");
                        r.append(a.as_str());
                    },
                    Direction::ClientToUpstream => {
                        r.append(" bytes from remote client ");
                        r.append(a.as_str());
                        r.append(" to upstream server");
                    },
                }
                proof {
                    assert(r@ =~= log_text(self@));
                }
                r
            },
            LogEvent::TransferFailed { dir, client, cause } => {
                let a = crate::addr::format_addr(client);
                let mut r = match dir {
                    Direction::UpstreamToClient => {
                        let mut r = String::from_str(
                            "Error writing bytes from upstream server to remote client ",
                        );
                        r.append(a.as_str());
                        r.append(": ");
                        r
                    },
                    Direction::ClientToUpstream => {
                        let mut r = String::from_str("Error writing from remote client ");
                        r.append(a.as_str());
                        r.append(" to upstream server: ");
                        r
                    },
                };
                r.append(cause.as_str());
                proof {
                    assert(r@ =~= log_text(self@));
                }
                r
            },
        }
    }
}

/// The log line one direction's outcome owes: a byte count only in
/// debug mode on success, and always an error line with the
/// direction, the client address and the cause on failure.
pub open spec fn copy_report_view(
    dir: Direction,
    outcome: CopyOutcomeView,
    debug: bool,
    client: ResolvedAddr,
) -> Option<LogEventView> {
    match outcome {
        CopyOutcomeView::Copied(n) => if debug {
            Some(LogEventView::TransferOk { dir, client, count: n })
        } else {
            None
        },
        CopyOutcomeView::Failed(cause) => Some(
            LogEventView::TransferFailed { dir, client, cause },
        ),
    }
}

/// Decides what to log for one direction's outcome, as
/// [`copy_report_view`] says.
pub fn copy_report(dir: Direction, outcome: &CopyOutcome, debug: bool, client: ResolvedAddr) -> (r:
    Option<LogEvent>)
    ensures
        r is Some <==> copy_report_view(dir, outcome@, debug, client) is Some,
        r matches Some(e) ==> Some(e@) == copy_report_view(dir, outcome@, debug, client),
{
    match outcome {
        CopyOutcome::Copied(n) => {
            if debug {
                Some(LogEvent::TransferOk { dir, client, count: *n })
            } else {
                None
            }
        },
        CopyOutcome::Failed(cause) => {
            Some(LogEvent::TransferFailed { dir, client, cause: cause.clone() })
        },
    }
}

} // verus!

