use ppaass_proxy::chunk::split_chunks;
use ppaass_proxy::domain::{ipv4_addresses, normalize_domain_name, ResolvedAddress};
use ppaass_proxy::message::{
    AgentMessagePayloadTypeValue, Endpoint, MessagePayload, NetAddress, PayloadType, ProxyMessagePayloadTypeValue,
};

#[test]
fn ip_addresses_have_endpoints() {
    let v4 = NetAddress::IpV4 { ip: [10, 0, 0, 1], port: 80 };
    assert!(matches!(v4.endpoint(), Some(Endpoint::V4 { ip: [10, 0, 0, 1], port: 80 })));
    let v6 = NetAddress::IpV6 { ip: [0; 16], port: 443 };
    assert!(matches!(v6.endpoint(), Some(Endpoint::V6 { port: 443, .. })));
}

#[test]
fn host_names_have_no_endpoint_before_lookup() {
    let host = NetAddress::Domain { host: "example.com".to_string(), port: 80 };
    assert!(host.endpoint().is_none());
}

#[test]
fn duplicate_keeps_the_host_name() {
    let host = NetAddress::Domain { host: "example.com".to_string(), port: 8080 };
    match host.duplicate() {
        NetAddress::Domain { host, port } => {
            assert_eq!(host, "example.com");
            assert_eq!(port, 8080);
        },
        _ => panic!("a host name stays a host name"),
    }
}

#[test]
fn payload_kinds() {
    let p = MessagePayload::proxy(ProxyMessagePayloadTypeValue::HeartbeatSuccess, None, None, None);
    assert_eq!(p.payload_type, PayloadType::ProxyPayload(ProxyMessagePayloadTypeValue::HeartbeatSuccess));
    assert!(!p.is_agent(AgentMessagePayloadTypeValue::Heartbeat));
    let q = MessagePayload {
        source_address: None,
        target_address: None,
        payload_type: PayloadType::AgentPayload(AgentMessagePayloadTypeValue::TcpData),
        data: Some(vec![1]),
    };
    assert!(q.is_agent(AgentMessagePayloadTypeValue::TcpData));
}

#[test]
fn trailing_dot_is_dropped_once() {
    assert_eq!(normalize_domain_name("example.com."), "example.com");
    assert_eq!(normalize_domain_name("example.com"), "example.com");
    assert_eq!(normalize_domain_name("a.."), "a.");
    assert_eq!(normalize_domain_name("."), "");
    assert_eq!(normalize_domain_name(""), "");
}

#[test]
fn only_ipv4_addresses_are_kept_in_order() {
    let found = vec![
        ResolvedAddress::V6([1; 16]),
        ResolvedAddress::V4([1, 2, 3, 4]),
        ResolvedAddress::V6([2; 16]),
        ResolvedAddress::V4([5, 6, 7, 8]),
    ];
    assert_eq!(ipv4_addresses(&found), vec![[1, 2, 3, 4], [5, 6, 7, 8]]);
    assert!(ipv4_addresses(&vec![ResolvedAddress::V6([0; 16])]).is_empty());
}

#[test]
fn chunks_cover_the_data() {
    let data: Vec<u8> = (0u8..10).collect();
    let chunks = split_chunks(&data, 4);
    assert_eq!(chunks, vec![vec![0, 1, 2, 3], vec![4, 5, 6, 7], vec![8, 9]]);
    let joined: Vec<u8> = chunks.concat();
    assert_eq!(joined, data);
    assert_eq!(split_chunks(&data, 10), vec![data.clone()]);
    assert_eq!(split_chunks(&data, 100), vec![data.clone()]);
    assert!(split_chunks(&Vec::new(), 3).is_empty());
    assert_eq!(split_chunks(&vec![7, 8], 1), vec![vec![7], vec![8]]);
}
