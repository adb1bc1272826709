use crate::udp::{Udp, AF_UNSPEC, AI_NUMERICSERV, AI_PASSIVE};
use vstd::prelude::*;

verus! {

/// Marks a query for candidates to bind a listener to, on the wildcard address.
#[derive(Clone, Copy, Debug, PartialEq, Eq, Structural)]
pub struct Passive;

/// The service of a resolution request.
#[derive(Clone, Debug, PartialEq, Eq)]
pub enum Service {
    /// A port number: it is handed to resolution in decimal.
    Port(u16),
    /// A service name or a port number as text.
    Name(String),
}

/// What a service is, with its text as a sequence of characters.
pub enum ServiceView {
    Port(u16),
    Name(Seq<char>),
}

impl View for Service {
    type V = ServiceView;

    open spec fn view(&self) -> ServiceView {
        match self {
            Service::Port(p) => ServiceView::Port(*p),
            Service::Name(s) => ServiceView::Name(s@),
        }
    }
}

/// What the caller asks name resolution for.
#[derive(Clone, Debug, PartialEq, Eq)]
pub struct ResolveRequest {
    /// The protocol to resolve under; its family is a hint.
    pub protocol: Udp,
    /// The host; empty for the wildcard address.
    pub host: String,
    pub service: Service,
    /// The resolution flags, or-ed together.
    pub flags: i32,
}

/// A resolution request with its texts as sequences of characters.
pub struct RequestView {
    pub protocol: Udp,
    pub host: Seq<char>,
    pub service: ServiceView,
    pub flags: i32,
}

impl View for ResolveRequest {
    type V = RequestView;

    open spec fn view(&self) -> RequestView {
        RequestView {
            protocol: self.protocol,
            host: self.host@,
            service: self.service@,
            flags: self.flags,
        }
    }
}

/// The shapes of input that an establishment accepts.
#[derive(Clone, Debug, PartialEq, Eq)]
pub enum ResolverQuery {
    /// Bind to a port given as a number.
    PassivePort(Passive, u16),
    /// Bind to a service given by name.
    PassiveService(Passive, String),
    /// A host and a service, both as text.
    HostService(String, String),
}

impl ResolverQuery {
    /// The query to bind to the port `port` of the wildcard address.
    pub fn passive_port(port: u16) -> (q: ResolverQuery)
        ensures
            q == ResolverQuery::PassivePort(Passive, port),
    {
        ResolverQuery::PassivePort(Passive, port)
    }

    /// The query to bind to the service `service` of the wildcard address.
    pub fn passive_service(service: &str) -> (q: ResolverQuery)
        ensures
            q matches ResolverQuery::PassiveService(_, name) && name@ == service@,
    {
        ResolverQuery::PassiveService(Passive, service.to_owned())
    }

    /// The query for the service `service` of the host `host`.
    pub fn host_service(host: &str, service: &str) -> (q: ResolverQuery)
        ensures
            q matches ResolverQuery::HostService(h, s) && h@ == host@ && s@ == service@,
    {
        ResolverQuery::HostService(host.to_owned(), service.to_owned())
    }

    /// The request that this query stands for: the family is left open; a
    /// passive query has the empty host and the passive flag, and with a
    /// numeric port also the numeric-service flag; a host and a service are
    /// handed on as given, with no flag.
    pub open spec fn request(&self) -> RequestView {
        match self {
            ResolverQuery::PassivePort(_, port) => RequestView {
                protocol: Udp::of_family(AF_UNSPEC),
                host: Seq::empty(),
                service: ServiceView::Port(*port),
                flags: AI_PASSIVE | AI_NUMERICSERV,
            },
            ResolverQuery::PassiveService(_, name) => RequestView {
                protocol: Udp::of_family(AF_UNSPEC),
                host: Seq::empty(),
                service: ServiceView::Name(name@),
                flags: AI_PASSIVE,
            },
            ResolverQuery::HostService(host, service) => RequestView {
                protocol: Udp::of_family(AF_UNSPEC),
                host: host@,
                service: ServiceView::Name(service@),
                flags: 0,
            },
        }
    }

    /// Turns the query into the request to make of name resolution.
    pub fn iter(self) -> (r: ResolveRequest)
        ensures
            r@ == self.request(),
    {
        match self {
            ResolverQuery::PassivePort(_, port) => ResolveRequest {
                protocol: Udp::unspecified(),
                host: String::new(),
                service: Service::Port(port),
                flags: AI_PASSIVE | AI_NUMERICSERV,
            },
            ResolverQuery::PassiveService(_, name) => ResolveRequest {
                protocol: Udp::unspecified(),
                host: String::new(),
                service: Service::Name(name),
                flags: AI_PASSIVE,
            },
            ResolverQuery::HostService(host, service) => ResolveRequest {
                protocol: Udp::unspecified(),
                host,
                service: Service::Name(service),
                flags: 0,
            },
        }
    }
}

/// The flags of a passive query with a numeric port, as one number.
pub proof fn lemma_passive_port_flags()
    ensures
        AI_PASSIVE | AI_NUMERICSERV == 1025,
{
    assert(1i32 | 1024i32 == 1025i32) by (bit_vector);
}

} // verus!
