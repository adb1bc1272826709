use crate::error::Error;
use vstd::prelude::*;

verus! {

// The numbers below are those of Linux.

/// Address family of a query that leaves the family open.
pub const AF_UNSPEC: i32 = 0;

/// Address family of IPv4.
pub const AF_INET: i32 = 2;

/// Address family of IPv6.
pub const AF_INET6: i32 = 10;

/// Socket kind of a datagram socket.
pub const SOCK_DGRAM: i32 = 2;

/// Resolution flag: the candidates are meant for binding a listener.
pub const AI_PASSIVE: i32 = 1;

/// Resolution flag: the host is a numeric address, no name is looked up.
pub const AI_NUMERICHOST: i32 = 4;

/// Resolution flag: the service is a port number, no service name is looked up.
pub const AI_NUMERICSERV: i32 = 1024;

/// The User Datagram Protocol over one address family.
#[derive(Clone, Copy, Debug, PartialEq, Eq, Structural)]
pub struct Udp {
    family: i32,
}

impl Udp {
    /// The descriptor of UDP over the address family `family`.
    pub closed spec fn of_family(family: i32) -> Udp {
        Udp { family }
    }

    /// The address family of this descriptor.
    pub closed spec fn family(self) -> i32 {
        self.family
    }

    /// The descriptor of a family has that family.
    pub proof fn lemma_family(family: i32)
        ensures
            Udp::of_family(family).family() == family,
    {
    }

    /// Two descriptors are equal exactly when their families are: the
    /// socket kind and the protocol number are the same for all of them.
    pub proof fn lemma_equal_by_family(a: Udp, b: Udp)
        ensures
            a == b <==> a.family() == b.family(),
            a == Udp::of_family(a.family()),
    {
    }

    /// Represents a UDP for IPv4.
    pub fn v4() -> (p: Udp)
        ensures
            p == Udp::of_family(AF_INET),
    {
        Udp { family: AF_INET }
    }

    /// Represents a UDP for IPv6.
    pub fn v6() -> (p: Udp)
        ensures
            p == Udp::of_family(AF_INET6),
    {
        Udp { family: AF_INET6 }
    }

    /// UDP with the address family left open, as a hint for resolution.
    pub fn unspecified() -> (p: Udp)
        ensures
            p == Udp::of_family(AF_UNSPEC),
    {
        Udp { family: AF_UNSPEC }
    }

    /// The address family.
    pub fn family_type(&self) -> (f: i32)
        ensures
            f == self.family(),
    {
        self.family
    }

    /// The socket kind: always a datagram socket.
    pub fn socket_type(&self) -> (k: i32)
        ensures
            k == SOCK_DGRAM,
    {
        SOCK_DGRAM
    }

    /// The protocol number: always zero, the default of the family and kind.
    pub fn protocol_type(&self) -> (n: i32)
        ensures
            n == 0,
    {
        0
    }
}

/// An address and a port, tagged with the address family of the address.
///
/// An IPv4 address stands in the low 32 bits of `addr`.
#[derive(Clone, Copy, Debug, PartialEq, Eq, Structural)]
pub struct UdpEndpoint {
    pub family: i32,
    pub addr: u128,
    pub port: u16,
}

impl UdpEndpoint {
    /// An endpoint as name resolution hands it out, with its family tag as given.
    pub fn new(family: i32, addr: u128, port: u16) -> (ep: UdpEndpoint)
        ensures
            ep == (UdpEndpoint { family, addr, port }),
    {
        UdpEndpoint { family, addr, port }
    }

    /// The IPv4 endpoint `a.b.c.d:port`.
    pub fn v4(a: u8, b: u8, c: u8, d: u8, port: u16) -> (ep: UdpEndpoint)
        ensures
            ep.family == AF_INET,
            ep.port == port,
            ep.addr == a * 0x100_0000 + b * 0x1_0000 + c * 0x100 + d,
    {
        let hi: u128 = a as u128 * 0x100_0000 + b as u128 * 0x1_0000;
        let lo: u128 = c as u128 * 0x100 + d as u128;
        UdpEndpoint { family: AF_INET, addr: hi + lo, port }
    }

    /// The IPv6 endpoint with the 128 bits `addr` as its address.
    pub fn v6(addr: u128, port: u16) -> (ep: UdpEndpoint)
        ensures
            ep == (UdpEndpoint { family: AF_INET6, addr, port }),
    {
        UdpEndpoint { family: AF_INET6, addr, port }
    }

    pub open spec fn spec_is_v4(&self) -> bool {
        self.family == AF_INET
    }

    pub open spec fn spec_is_v6(&self) -> bool {
        self.family == AF_INET6
    }

    /// The family tag is one of the two families that UDP runs over.
    pub open spec fn is_ip(&self) -> bool {
        self.spec_is_v4() || self.spec_is_v6()
    }

    /// The descriptor that the family tag stands for.
    pub open spec fn spec_protocol(&self) -> Udp {
        if self.spec_is_v4() {
            Udp::of_family(AF_INET)
        } else {
            Udp::of_family(AF_INET6)
        }
    }

    /// Whether the address is an IPv4 address.
    #[verifier::when_used_as_spec(spec_is_v4)]
    pub fn is_v4(&self) -> (b: bool)
        ensures
            b == self.spec_is_v4(),
    {
        self.family == AF_INET
    }

    /// Whether the address is an IPv6 address.
    #[verifier::when_used_as_spec(spec_is_v6)]
    pub fn is_v6(&self) -> (b: bool)
        ensures
            b == self.spec_is_v6(),
    {
        self.family == AF_INET6
    }

    /// The protocol that a socket for this endpoint has to be opened with.
    ///
    /// An endpoint whose family is neither IPv4 nor IPv6 has no protocol:
    /// the caller excludes it.
    #[verifier::when_used_as_spec(spec_protocol)]
    pub fn protocol(&self) -> (p: Udp)
        requires
            self.is_ip(),
        ensures
            p == self.spec_protocol(),
            p.family() == self.family,
    {
        if self.is_v4() {
            Udp::v4()
        } else {
            Udp::v6()
        }
    }
}

/// An open datagram socket: the handle that the operating system gave for
/// it, and the protocol that it was opened with.
#[derive(Clone, Copy, Debug, PartialEq, Eq, Structural)]
pub struct DgramSocket {
    pub handle: u64,
    pub protocol: Udp,
}

impl DgramSocket {
    /// The socket for protocol `pro`, from what opening it gave: the handle,
    /// or the code of the failure.
    pub fn new(pro: Udp, opened: Result<u64, i32>) -> (r: Result<DgramSocket, Error>)
        ensures
            r == match opened {
                Ok(handle) => Ok::<DgramSocket, Error>(DgramSocket { handle, protocol: pro }),
                Err(code) => Err::<DgramSocket, Error>(Error::Construction(code)),
            },
    {
        match opened {
            Ok(handle) => Ok(DgramSocket { handle, protocol: pro }),
            Err(code) => Err(Error::Construction(code)),
        }
    }
}

/// The UDP socket type.
pub type UdpSocket = DgramSocket;

} // verus!
