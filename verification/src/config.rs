//! The upstream target as configuration hands it to the relay.

use vstd::prelude::*;

verus! {

/// The upstream service: a host name (or literal address) and the
/// port to reach it on.  The port is fixed at 443; the host is the
/// identity the TLS handshake verifies.  Built once at startup and
/// read-only afterwards.
#[derive(Clone, Debug)]
pub struct Stratum {
    pub host: String,
    pub port: i32,
}

/// The mathematical value of a [`Stratum`].
pub struct StratumView {
    pub host: Seq<char>,
    pub port: int,
}

impl View for Stratum {
    type V = StratumView;

    open spec fn view(&self) -> StratumView {
        StratumView { host: self.host@, port: self.port as int }
    }
}

impl Stratum {
    /// Builds the target for `host` with the fixed upstream port.
    pub fn new(host: String) -> (r: Stratum)
        ensures
            r@.host == host@,
            r@.port == 443,
    {
        Stratum { host, port: 443 }
    }
}

} // verus!
