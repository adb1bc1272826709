use udp_establish::{
    DgramSocket, Error, Udp, UdpEndpoint, AF_INET, AF_INET6, AF_UNSPEC, SOCK_DGRAM,
};

#[test]
fn test_udp() {
    assert!(Udp::v4() == Udp::v4());
    assert!(Udp::v6() == Udp::v6());
    assert!(Udp::v4() != Udp::v6());
}

#[test]
fn udp_descriptor_fields() {
    assert_eq!(Udp::v4().family_type(), AF_INET);
    assert_eq!(Udp::v6().family_type(), AF_INET6);
    assert_eq!(Udp::unspecified().family_type(), AF_UNSPEC);
    assert_eq!(Udp::v4().socket_type(), SOCK_DGRAM);
    assert_eq!(Udp::v6().socket_type(), SOCK_DGRAM);
    assert_eq!(Udp::v4().protocol_type(), 0);
    assert_eq!(Udp::v6().protocol_type(), 0);
    assert_eq!(AF_INET, 2);
    assert_eq!(AF_INET6, 10);
    assert_eq!(SOCK_DGRAM, 2);
}

#[test]
fn udp_descriptor_clone_is_equal() {
    let p = Udp::v6();
    assert_eq!(p.clone(), p);
    assert_ne!(Udp::unspecified(), Udp::v4());
}

#[test]
fn endpoint_v4_packs_the_address() {
    let ep = UdpEndpoint::v4(127, 0, 0, 1, 80);
    assert_eq!(ep.family, AF_INET);
    assert_eq!(ep.addr, 0x7f00_0001);
    assert_eq!(ep.port, 80);
    assert_eq!(ep, UdpEndpoint::new(AF_INET, 2130706433, 80));
    assert_eq!(UdpEndpoint::v4(255, 255, 255, 255, 65535).addr, 0xffff_ffff);
    assert_eq!(UdpEndpoint::v4(0, 0, 0, 0, 0).addr, 0);
}

#[test]
fn endpoint_v6_keeps_the_address() {
    let ep = UdpEndpoint::v6(1, 12345);
    assert_eq!(ep, UdpEndpoint::new(AF_INET6, 1, 12345));
    assert_eq!(UdpEndpoint::v6(u128::MAX, 1).addr, u128::MAX);
}

#[test]
fn endpoint_protocol_follows_the_family() {
    let a = UdpEndpoint::v4(10, 0, 0, 1, 53);
    let b = UdpEndpoint::v6(1, 53);
    assert!(a.is_v4() && !a.is_v6());
    assert!(b.is_v6() && !b.is_v4());
    assert_eq!(a.protocol(), Udp::v4());
    assert_eq!(b.protocol(), Udp::v6());
    assert_ne!(a.protocol(), b.protocol());
}

#[test]
fn endpoint_of_unknown_family_is_neither() {
    let ep = UdpEndpoint::new(AF_UNSPEC, 0, 0);
    assert!(!ep.is_v4());
    assert!(!ep.is_v6());
}

#[test]
fn endpoints_compare_by_value() {
    assert_eq!(UdpEndpoint::v4(1, 2, 3, 4, 5), UdpEndpoint::v4(1, 2, 3, 4, 5));
    assert_ne!(UdpEndpoint::v4(1, 2, 3, 4, 5), UdpEndpoint::v4(1, 2, 3, 4, 6));
    assert_ne!(UdpEndpoint::v4(1, 2, 3, 4, 5), UdpEndpoint::v4(1, 2, 3, 5, 5));
    assert_ne!(UdpEndpoint::new(AF_INET, 1, 5), UdpEndpoint::new(AF_INET6, 1, 5));
}

#[test]
fn socket_new_keeps_handle_and_protocol() {
    let s = DgramSocket::new(Udp::v4(), Ok(3));
    assert_eq!(s, Ok(DgramSocket { handle: 3, protocol: Udp::v4() }));
    let s = DgramSocket::new(Udp::v6(), Ok(u64::MAX));
    assert_eq!(s, Ok(DgramSocket { handle: u64::MAX, protocol: Udp::v6() }));
}

#[test]
fn socket_new_maps_the_failure() {
    assert_eq!(DgramSocket::new(Udp::v4(), Err(24)), Err(Error::Construction(24)));
    assert_eq!(DgramSocket::new(Udp::v6(), Err(-1)), Err(Error::Construction(-1)));
}
