//! Connection establishment for UDP: a query for name resolution is turned
//! into an ordered list of candidate endpoints, and the candidates are tried
//! one at a time until one connects or the list is exhausted.
//!
//! The library decides; the caller performs the resolution, opens the sockets
//! and connects them, and reports each result back as an [`Event`].

pub mod error;
pub mod laws;
pub mod query;
pub mod resolver;
pub mod udp;

pub use error::{host_not_found, Error};
pub use query::{Passive, ResolveRequest, ResolverQuery, Service};
pub use resolver::{Action, Attempt, Event, Phase, Resolver, UdpResolver};
pub use udp::{
    DgramSocket, Udp, UdpEndpoint, UdpSocket, AF_INET, AF_INET6, AF_UNSPEC, AI_NUMERICHOST,
    AI_NUMERICSERV, AI_PASSIVE, SOCK_DGRAM,
};
