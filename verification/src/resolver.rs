//! Upstream address resolution: performed once, before any client is
//! accepted, and cached for the life of the process.  A host that is
//! a literal IPv4 address in dotted-decimal form is used directly and
//! no name lookup happens at all; any other host — a name, an IPv6
//! literal — is handed out as a domain to look up.  The resolver
//! deliberately never re-resolves: if the upstream's address changes,
//! the process must be restarted.

use vstd::prelude::*;
use vstd::string::StringExecFns;

use crate::addr::ResolvedAddr;
use crate::addr::ipv4_of_text;
use crate::addr::parse_ipv4_literal;
use crate::report::LogEvent;
use crate::report::LogEventView;

verus! {

/// What resolution still needs: nothing, or one lookup of `domain`
/// by the system resolver.
#[derive(Clone, Debug)]
pub enum ResolveStep {
    /// The address is known; no lookup is owed.
    Ready(ResolvedAddr),
    /// `domain` (the host joined with the fixed port) must be looked
    /// up once.
    NeedLookup { domain: String },
}

/// Why resolution failed.
#[derive(Clone, Copy, PartialEq, Eq, Structural, Debug)]
pub enum ResolveError {
    /// The lookup returned no address at all.
    DnsNoAddresses,
}

/// Resolves the upstream host once and caches the answer.
pub struct UpstreamResolver {
    /// The configured upstream host.
    pub host: String,
    /// The address, once known.
    pub cached: Option<ResolvedAddr>,
    /// How many name lookups have been performed.
    pub lookups: u64,
}

impl UpstreamResolver {
    /// A resolver never performs more than one name lookup.
    pub open spec fn wf(self) -> bool {
        self.lookups <= 1
    }

    /// A fresh resolver: nothing cached, nothing looked up.
    pub fn new(host: String) -> (r: UpstreamResolver)
        ensures
            r.wf(),
            r.host@ == host@,
            r.cached is None,
            r.lookups == 0,
    {
        UpstreamResolver { host, cached: None, lookups: 0 }
    }

    /// Decides what resolution needs.  A cached address is returned
    /// as it is.  A literal IPv4 host becomes the address directly —
    /// no lookup, and no lookup is counted.  Anything else yields
    /// the domain `host:443` to look up.
    pub fn begin(&mut self) -> (step: ResolveStep)
        requires
            old(self).wf(),
        ensures
            final(self).wf(),
            final(self).host@ == old(self).host@,
            final(self).lookups == old(self).lookups,
            match old(self).cached {
                Some(a) => step matches ResolveStep::Ready(r) && r == a && final(self).cached
                    == old(self).cached,
                None => match ipv4_of_text(old(self).host@) {
                    Some(ip) => step matches ResolveStep::Ready(r) && r == (ResolvedAddr {
                        ip,
                        port: 443,
                    }) && final(self).cached == Some(ResolvedAddr { ip, port: 443 }),
                    None => step matches ResolveStep::NeedLookup { domain } && domain@ == old(
                        self
                    ).host@ + ":443"@ && final(self).cached is None,
                },
            },
    {
        match self.cached {
            Some(a) => ResolveStep::Ready(a),
            None => {
                match parse_ipv4_literal(self.host.as_str()) {
                    Some(ip) => {
                        let a = ResolvedAddr { ip, port: 443 };
                        self.cached = Some(a);
                        ResolveStep::Ready(a)
                    },
                    None => {
                        let mut domain = self.host.clone();
                        domain.append(":443");
                        ResolveStep::NeedLookup { domain }
                    },
                }
            },
        }
    }

    /// Takes what the one name lookup returned: its first address,
    /// or nothing.  The first address is cached and an informational
    /// line naming the domain and the address is owed; an empty
    /// answer is a fatal resolution error.  Either way the lookup is
    /// counted, and this can only ever be called on a resolver that
    /// has not looked up before.
    pub fn complete_lookup(&mut self, found: Option<ResolvedAddr>) -> (r: Result<
        LogEvent,
        ResolveError,
    >)
        requires
            old(self).wf(),
            old(self).lookups == 0,
            old(self).cached is None,
        ensures
            final(self).wf(),
            final(self).host@ == old(self).host@,
            final(self).lookups == 1,
            match found {
                Some(a) => final(self).cached == Some(a) && (r matches Ok(log) && log@
                    == (LogEventView::Resolved { domain: old(self).host@ + ":443"@, addr: a })),
                None => final(self).cached is None && (r matches Err(e) && e
                    == ResolveError::DnsNoAddresses),
            },
    {
        self.lookups = self.lookups + 1;
        match found {
            Some(a) => {
                self.cached = Some(a);
                let mut domain = self.host.clone();
                domain.append(":443");
                Ok(LogEvent::Resolved { domain, addr: a })
            },
            None => Err(ResolveError::DnsNoAddresses),
        }
    }

    /// The resolved address, for every later session.  Reading it
    /// performs no lookup: the resolver is untouched.
    pub fn address(&self) -> (r: ResolvedAddr)
        requires
            self.cached is Some,
        ensures
            Some(r) == self.cached,
    {
        self.cached.unwrap()
    }
}

/// Resolution happens at most once over the life of a resolver: the
/// lookup count of any well-formed resolver never exceeds one.
/// Construction starts it at zero, deciding what to do never moves
/// it, and taking a lookup's answer — possible only before any
/// lookup was counted — moves it to exactly one.
pub proof fn lemma_resolution_at_most_once(r: UpstreamResolver)
    requires
        r.wf(),
    ensures
        r.lookups <= 1,
{
}

} // verus!
