use udp_establish::{
    Passive, ResolveRequest, ResolverQuery, Service, Udp, AI_NUMERICHOST, AI_NUMERICSERV,
    AI_PASSIVE,
};

#[test]
fn passive_port_query() {
    let r = ResolverQuery::PassivePort(Passive, 12345).iter();
    assert_eq!(
        r,
        ResolveRequest {
            protocol: Udp::unspecified(),
            host: String::new(),
            service: Service::Port(12345),
            flags: 1025,
        }
    );
    assert_eq!(r.flags, AI_PASSIVE | AI_NUMERICSERV);
    assert_eq!(r.flags & AI_NUMERICHOST, 0);
}

#[test]
fn passive_port_query_edges() {
    assert_eq!(ResolverQuery::PassivePort(Passive, 0).iter().service, Service::Port(0));
    assert_eq!(ResolverQuery::PassivePort(Passive, 65535).iter().service, Service::Port(65535));
}

#[test]
fn passive_service_query() {
    let r = ResolverQuery::PassiveService(Passive, String::from("domain")).iter();
    assert_eq!(
        r,
        ResolveRequest {
            protocol: Udp::unspecified(),
            host: String::new(),
            service: Service::Name(String::from("domain")),
            flags: 1,
        }
    );
    assert_eq!(r.flags, AI_PASSIVE);
}

#[test]
fn host_service_query() {
    let r = ResolverQuery::HostService(String::from("localhost"), String::from("12345")).iter();
    assert_eq!(
        r,
        ResolveRequest {
            protocol: Udp::unspecified(),
            host: String::from("localhost"),
            service: Service::Name(String::from("12345")),
            flags: 0,
        }
    );
}

#[test]
fn host_service_query_keeps_empty_texts() {
    let r = ResolverQuery::HostService(String::new(), String::new()).iter();
    assert_eq!(r.host, "");
    assert_eq!(r.service, Service::Name(String::new()));
    assert_eq!(r.flags, 0);
}

#[test]
fn flag_values() {
    assert_eq!(AI_PASSIVE, 1);
    assert_eq!(AI_NUMERICHOST, 4);
    assert_eq!(AI_NUMERICSERV, 1024);
}

#[test]
fn queries_from_plain_input() {
    assert_eq!(ResolverQuery::passive_port(12345), ResolverQuery::PassivePort(Passive, 12345));
    assert_eq!(
        ResolverQuery::passive_service("ntp"),
        ResolverQuery::PassiveService(Passive, String::from("ntp"))
    );
    assert_eq!(
        ResolverQuery::host_service("127.0.0.1", "80"),
        ResolverQuery::HostService(String::from("127.0.0.1"), String::from("80"))
    );
    let r = ResolverQuery::host_service("127.0.0.1", "80").iter();
    assert_eq!(r.host, "127.0.0.1");
    assert_eq!(r.service, Service::Name(String::from("80")));
    assert_eq!(r.flags, 0);
}
