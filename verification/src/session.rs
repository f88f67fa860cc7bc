//! The relay session state machine: one accepted client connection
//! is dialed through to the upstream over TLS, bytes are copied both
//! ways concurrently, and each direction's outcome is reported on
//! its own.  The machine only decides; the caller performs each
//! returned action and hands the result back as the next event.

use vstd::prelude::*;
use vstd::string::StringExecFns;

use crate::addr::ResolvedAddr;
use crate::report::CopyOutcome;
use crate::report::Direction;
use crate::report::LogEvent;
use crate::report::LogEventView;
use crate::report::copy_report;
use crate::report::copy_report_view;

verus! {

/// Where one session stands.  `Connecting` strictly precedes
/// `Handshaking`, which strictly precedes `Relaying`; `Closed` is
/// terminal and is also reached directly on any failure.
#[derive(Clone, Copy, PartialEq, Eq, Structural, Debug)]
pub enum SessionState {
    Connecting,
    Handshaking,
    Relaying,
    Closed,
}

/// What the world reported back after the last action.
#[derive(Clone, Debug)]
pub enum SessionEvent {
    /// The plain dial to the upstream address completed.
    DialSucceeded,
    /// The dial failed; the session is over.
    DialFailed(String),
    /// The TLS handshake completed.
    HandshakeSucceeded,
    /// The TLS handshake failed; the session is over.
    HandshakeFailed(String),
    /// Both copy directions ran to their own completion.
    CopiesFinished { upstream_to_client: CopyOutcome, client_to_upstream: CopyOutcome },
}

/// What the caller must do next.
#[derive(Clone, Debug)]
pub enum SessionAction {
    /// Wrap the dialed connection in a TLS client handshake,
    /// verifying the certificate against `server_name` — the
    /// configured host name, never the resolved address.
    StartHandshake { server_name: String },
    /// Split both connections and run the two copies concurrently,
    /// each awaited to its own completion.
    StartCopies,
    /// Emit the given log lines, then close both connections and end
    /// the session.
    Finish { logs: Vec<LogEvent> },
}

/// One client's relay session.  The shared values — the resolved
/// upstream address, the host name for TLS verification, the debug
/// flag — are captured at construction and never change.
#[derive(Clone, Debug)]
pub struct RelaySession {
    pub upstream: ResolvedAddr,
    pub server_name: String,
    pub client: ResolvedAddr,
    pub debug: bool,
    pub state: SessionState,
}

/// The mathematical value of a [`RelaySession`].
pub struct RelaySessionView {
    pub upstream: ResolvedAddr,
    pub server_name: Seq<char>,
    pub client: ResolvedAddr,
    pub debug: bool,
    pub state: SessionState,
}

impl View for RelaySession {
    type V = RelaySessionView;

    open spec fn view(&self) -> RelaySessionView {
        RelaySessionView {
            upstream: self.upstream,
            server_name: self.server_name@,
            client: self.client,
            debug: self.debug,
            state: self.state,
        }
    }
}

/// Which events can arrive in which state.
pub open spec fn event_permitted(state: SessionState, event: SessionEvent) -> bool {
    match event {
        SessionEvent::DialSucceeded => state == SessionState::Connecting,
        SessionEvent::DialFailed(_) => state == SessionState::Connecting,
        SessionEvent::HandshakeSucceeded => state == SessionState::Handshaking,
        SessionEvent::HandshakeFailed(_) => state == SessionState::Handshaking,
        SessionEvent::CopiesFinished { .. } => state == SessionState::Relaying,
    }
}

/// The log lines owed when both copies have finished: the
/// upstream-to-client outcome's line, if any, then the
/// client-to-upstream outcome's line, if any.  Each direction is
/// reported on its own; neither outcome can swallow the other's.
pub open spec fn finish_log_views(
    upstream_to_client: crate::report::CopyOutcomeView,
    client_to_upstream: crate::report::CopyOutcomeView,
    debug: bool,
    client: ResolvedAddr,
) -> Seq<LogEventView> {
    opt_log_seq(copy_report_view(Direction::UpstreamToClient, upstream_to_client, debug, client))
        + opt_log_seq(
        copy_report_view(Direction::ClientToUpstream, client_to_upstream, debug, client),
    )
}

/// An optional log line as a sequence of zero or one lines.
pub open spec fn opt_log_seq(o: Option<LogEventView>) -> Seq<LogEventView> {
    match o {
        Some(e) => seq![e],
        None => seq![],
    }
}

/// With the debug flag unset, a session whose two copies both
/// succeeded logs nothing at all; with it set, it logs exactly one
/// byte-count line per direction, upstream-to-client first.
pub proof fn lemma_success_byte_count_logging(
    up: u64,
    down: u64,
    debug: bool,
    client: ResolvedAddr,
)
    ensures
        !debug ==> finish_log_views(
            crate::report::CopyOutcomeView::Copied(up),
            crate::report::CopyOutcomeView::Copied(down),
            debug,
            client,
        ) =~= Seq::<LogEventView>::empty(),
        debug ==> finish_log_views(
            crate::report::CopyOutcomeView::Copied(up),
            crate::report::CopyOutcomeView::Copied(down),
            debug,
            client,
        ) =~= seq![
            (LogEventView::TransferOk { dir: Direction::UpstreamToClient, client, count: up }),
            (LogEventView::TransferOk { dir: Direction::ClientToUpstream, client, count: down }),
        ],
{
}

/// A copy failure is always logged, debug flag or not, with its
/// direction, the client address and the underlying cause — and the
/// other direction's own report stands beside it untouched, whatever
/// that direction came to.
pub proof fn lemma_failure_always_logged(
    cause: Seq<char>,
    other: crate::report::CopyOutcomeView,
    debug: bool,
    client: ResolvedAddr,
)
    ensures
        finish_log_views(crate::report::CopyOutcomeView::Failed(cause), other, debug, client)
            =~= seq![
            (LogEventView::TransferFailed { dir: Direction::UpstreamToClient, client, cause }),
        ] + opt_log_seq(copy_report_view(Direction::ClientToUpstream, other, debug, client)),
        finish_log_views(other, crate::report::CopyOutcomeView::Failed(cause), debug, client)
            =~= opt_log_seq(copy_report_view(Direction::UpstreamToClient, other, debug, client))
            + seq![
            (LogEventView::TransferFailed { dir: Direction::ClientToUpstream, client, cause }),
        ],
{
}

impl RelaySession {
    /// Starts a session for one accepted client: the dial has not
    /// happened yet.
    pub fn new(upstream: ResolvedAddr, server_name: String, client: ResolvedAddr, debug: bool) -> (r:
        RelaySession)
        ensures
            r@.upstream == upstream,
            r@.server_name == server_name@,
            r@.client == client,
            r@.debug == debug,
            r@.state == SessionState::Connecting,
    {
        RelaySession { upstream, server_name, client, debug, state: SessionState::Connecting }
    }

    /// The first action: dial the resolved upstream address over
    /// plain transport.
    pub fn dial_target(&self) -> (r: ResolvedAddr)
        requires
            self@.state == SessionState::Connecting,
        ensures
            r == self@.upstream,
    {
        self.upstream
    }

    /// Feeds one event in and returns the next action.  The
    /// transition table:
    ///
    /// * `Connecting`, dial succeeded → `Handshaking`; start the TLS
    ///   handshake against the configured host name.
    /// * `Connecting`, dial failed → `Closed`; log the failure with
    ///   the client address and the cause.
    /// * `Handshaking`, handshake succeeded → `Relaying`; start both
    ///   copies.
    /// * `Handshaking`, handshake failed → `Closed`; log as above.
    /// * `Relaying`, both copies finished → `Closed`; log each
    ///   direction's outcome independently, byte counts only in
    ///   debug mode, failures always.
    pub fn step(&mut self, event: SessionEvent) -> (a: SessionAction)
        requires
            event_permitted(old(self)@.state, event),
        ensures
            final(self)@.upstream == old(self)@.upstream,
            final(self)@.server_name == old(self)@.server_name,
            final(self)@.client == old(self)@.client,
            final(self)@.debug == old(self)@.debug,
            match event {
                SessionEvent::DialSucceeded => final(self)@.state == SessionState::Handshaking && (
                a matches SessionAction::StartHandshake { server_name } && server_name@ == old(
                    self
                )@.server_name),
                SessionEvent::DialFailed(cause) => final(self)@.state == SessionState::Closed && (
                a matches SessionAction::Finish { logs } && logs@.map_values(|e: LogEvent| e@)
                    =~= seq![
                    (LogEventView::DialFailed { client: old(self)@.client, cause: cause@ }),
                ]),
                SessionEvent::HandshakeSucceeded => final(self)@.state == SessionState::Relaying
                    && a matches SessionAction::StartCopies,
                SessionEvent::HandshakeFailed(cause) => final(self)@.state == SessionState::Closed
                    && (a matches SessionAction::Finish { logs } && logs@.map_values(
                    |e: LogEvent| e@,
                ) =~= seq![
                    (LogEventView::HandshakeFailed { client: old(self)@.client, cause: cause@ }),
                ]),
                SessionEvent::CopiesFinished { upstream_to_client, client_to_upstream } => final(
                    self
                )@.state == SessionState::Closed && (a matches SessionAction::Finish { logs }
                    && logs@.map_values(|e: LogEvent| e@) =~= finish_log_views(
                    upstream_to_client@,
                    client_to_upstream@,
                    old(self)@.debug,
                    old(self)@.client,
                )),
            },
    {
        match event {
            SessionEvent::DialSucceeded => {
                self.state = SessionState::Handshaking;
                SessionAction::StartHandshake { server_name: self.server_name.clone() }
            },
            SessionEvent::DialFailed(cause) => {
                self.state = SessionState::Closed;
                let mut logs: Vec<LogEvent> = Vec::new();
                logs.push(LogEvent::DialFailed { client: self.client, cause });
                proof {
                    assert(logs@.map_values(|e: LogEvent| e@) =~= seq![
                        (LogEventView::DialFailed { client: old(self)@.client, cause: cause@ }),
                    ]);
                }
                SessionAction::Finish { logs }
            },
            SessionEvent::HandshakeSucceeded => {
                self.state = SessionState::Relaying;
                SessionAction::StartCopies
            },
            SessionEvent::HandshakeFailed(cause) => {
                self.state = SessionState::Closed;
                let mut logs: Vec<LogEvent> = Vec::new();
                logs.push(LogEvent::HandshakeFailed { client: self.client, cause });
                proof {
                    assert(logs@.map_values(|e: LogEvent| e@) =~= seq![
                        (LogEventView::HandshakeFailed {
                            client: old(self)@.client,
                            cause: cause@,
                        }),
                    ]);
                }
                SessionAction::Finish { logs }
            },
            SessionEvent::CopiesFinished { upstream_to_client, client_to_upstream } => {
                self.state = SessionState::Closed;
                let mut logs: Vec<LogEvent> = Vec::new();
                match copy_report(
                    Direction::UpstreamToClient,
                    &upstream_to_client,
                    self.debug,
                    self.client,
                ) {
                    Some(e) => logs.push(e),
                    None => {},
                }
                match copy_report(
                    Direction::ClientToUpstream,
                    &client_to_upstream,
                    self.debug,
                    self.client,
                ) {
                    Some(e) => logs.push(e),
                    None => {},
                }
                proof {
                    assert(logs@.map_values(|e: LogEvent| e@) =~= finish_log_views(
                        upstream_to_client@,
                        client_to_upstream@,
                        old(self)@.debug,
                        old(self)@.client,
                    ));
                }
                SessionAction::Finish { logs }
            },
        }
    }
}

} // verus!
