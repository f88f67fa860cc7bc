//! A verified core for a single-hop TCP-to-TLS relay.
//!
//! The crate models the decision logic of the relay: planning upstream
//! address resolution (a literal IPv4 host is used directly, any other
//! host is looked up once), the per-client relay session state machine
//! (dial, TLS handshake, bidirectional copy, close), and the logging
//! rules for each outcome.  All network and TLS I/O lives outside the
//! library and is driven by the actions these functions return.

pub mod addr;
pub mod config;
pub mod report;
pub mod resolver;
pub mod session;
pub mod supervisor;
pub mod text;
