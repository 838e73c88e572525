use ppaass_proxy::message::{
    AgentMessage, AgentMessagePayloadTypeValue, Endpoint, MessagePayload, NetAddress, PayloadType, ProxyMessagePayloadTypeValue,
};
use ppaass_proxy::tcp_connect::{TcpConnectAction, TcpConnectError, TcpConnectEvent, TcpConnectFlow, TcpConnectState};
use ppaass_proxy::tcp_relay::{
    relay_data_payloads, ProxyToTargetAction, ProxyToTargetError, ProxyToTargetEvent, ProxyToTargetRelay, ProxyToTargetState,
    TargetToProxyAction, TargetToProxyError, TargetToProxyEvent, TargetToProxyRelay, TargetToProxyState, TcpRelayFlow,
    TcpRelayFlowRequest,
};

fn source() -> NetAddress {
    NetAddress::IpV4 { ip: [10, 0, 0, 1], port: 4000 }
}

fn flow_to(target: NetAddress) -> TcpConnectFlow {
    let (flow, action) = TcpConnectFlow::new("c-2".to_string(), "m-2".to_string(), "user".to_string(), source(), target, Endpoint::V4 { ip: [127, 0, 0, 1], port: 7000 }, 15);
    assert!(matches!(action, TcpConnectAction::SelectEncryption { ref user_token } if user_token == "user"));
    assert!(matches!(flow.state, TcpConnectState::SelectingEncryption));
    flow
}

#[test]
fn connect_to_ip_target_and_report_success() {
    let flow = flow_to(NetAddress::IpV4 { ip: [1, 1, 1, 1], port: 443 });
    let (flow, action) = flow.exec(TcpConnectEvent::EncryptionSelected);
    match action {
        TcpConnectAction::Connect { endpoints, so_linger_seconds } => {
            assert_eq!(so_linger_seconds, 15);
            assert_eq!(endpoints.len(), 1);
            assert!(matches!(endpoints[0], Endpoint::V4 { ip: [1, 1, 1, 1], port: 443 }));
        },
        _ => panic!("an IP target is connected to directly"),
    }
    let (flow, action) = flow.exec(TcpConnectEvent::Connected);
    match action {
        TcpConnectAction::WriteToAgent { payload, ref_id, user_token, connection_id } => {
            assert_eq!(connection_id, "c-2");
            assert_eq!(ref_id, "m-2");
            assert_eq!(user_token, "user");
            assert_eq!(payload.payload_type, PayloadType::ProxyPayload(ProxyMessagePayloadTypeValue::TcpConnectSuccess));
            assert!(matches!(payload.source_address, Some(NetAddress::IpV4 { port: 4000, .. })));
            assert!(matches!(payload.target_address, Some(NetAddress::IpV4 { port: 443, .. })));
        },
        _ => panic!("success is reported"),
    }
    let (flow, action) = flow.exec(TcpConnectEvent::Written);
    assert!(matches!(action, TcpConnectAction::Finish));
    assert!(matches!(flow.state, TcpConnectState::Done));
    assert!(flow.error().is_none());
}

#[test]
fn host_name_target_is_resolved_first() {
    let flow = flow_to(NetAddress::Domain { host: "example.com".to_string(), port: 80 });
    let (flow, action) = flow.exec(TcpConnectEvent::EncryptionSelected);
    assert!(matches!(action, TcpConnectAction::ResolveTarget { ref host, port: 80 } if host == "example.com"));
    let resolved = vec![Endpoint::V4 { ip: [93, 184, 216, 34], port: 80 }, Endpoint::V6 { ip: [0; 16], port: 80 }];
    let (flow, action) = flow.exec(TcpConnectEvent::TargetResolved(resolved));
    assert!(matches!(action, TcpConnectAction::Connect { ref endpoints, so_linger_seconds: 15 } if endpoints.len() == 2));
    assert!(matches!(flow.state, TcpConnectState::Connecting));
    let (flow, _) = flow_to(NetAddress::Domain { host: "x".to_string(), port: 1 }).exec(TcpConnectEvent::EncryptionSelected);
    let (flow2, _) = flow.exec(TcpConnectEvent::TargetResolveFailed("no such host".to_string()));
    assert!(matches!(flow2.state, TcpConnectState::Failed(ref f) if f.step == TcpConnectError::TargetAddressInvalid));
}

#[test]
fn refused_connection_is_reported_and_fails() {
    let (flow, _) = flow_to(NetAddress::IpV4 { ip: [1, 2, 3, 4], port: 9 }).exec(TcpConnectEvent::EncryptionSelected);
    let (flow, action) = flow.exec(TcpConnectEvent::ConnectFailed("refused".to_string()));
    match action {
        TcpConnectAction::WriteToAgent { payload, .. } => {
            assert_eq!(payload.payload_type, PayloadType::ProxyPayload(ProxyMessagePayloadTypeValue::TcpConnectFail));
            assert!(payload.source_address.is_some() && payload.target_address.is_some());
        },
        _ => panic!("the failure is reported"),
    }
    let (flow, action) = flow.exec(TcpConnectEvent::Written);
    assert!(matches!(action, TcpConnectAction::CloseAgentWriter));
    let (flow, _) = flow.exec(TcpConnectEvent::Closed);
    assert!(matches!(flow.state, TcpConnectState::Failed(ref f) if f.step == TcpConnectError::ConnectFailed && f.cause == "refused"));
    let error = flow.error().unwrap();
    assert_eq!(error.connection_id, "c-2");
    assert_eq!(error.message_id, "m-2");
    assert_eq!(error.user_token, "user");
    assert_eq!(error.step, TcpConnectError::ConnectFailed);
    assert_eq!(error.source, "refused");
    assert!(matches!(error.agent_address, Endpoint::V4 { port: 7000, .. }));
    assert!(matches!(error.source_address, NetAddress::IpV4 { port: 4000, .. }));
    assert!(matches!(error.target_address, NetAddress::IpV4 { port: 9, .. }));
}

#[test]
fn connect_flow_errors() {
    let (f, _) = flow_to(source()).exec(TcpConnectEvent::EncryptionSelectFailed("no cipher".to_string()));
    assert!(matches!(f.state, TcpConnectState::Failed(ref f) if f.step == TcpConnectError::EncryptionSelectFailed));
    let (f, _) = flow_to(source()).exec(TcpConnectEvent::EncryptionSelected);
    let (f, _) = f.exec(TcpConnectEvent::Connected);
    let (f, _) = f.exec(TcpConnectEvent::WriteFailed("broken pipe".to_string()));
    assert!(matches!(f.state, TcpConnectState::Failed(ref f) if f.step == TcpConnectError::WriteFailed));
    let (f, _) = flow_to(source()).exec(TcpConnectEvent::EncryptionSelected);
    let (f, _) = f.exec(TcpConnectEvent::ConnectFailed("refused".to_string()));
    let (f, _) = f.exec(TcpConnectEvent::Written);
    let (f, _) = f.exec(TcpConnectEvent::CloseFailed("reset".to_string()));
    assert!(matches!(f.state, TcpConnectState::Failed(ref f) if f.step == TcpConnectError::CloseFailed));
    let (f, action) = flow_to(source()).exec(TcpConnectEvent::Connected);
    assert!(matches!(action, TcpConnectAction::Ignore));
    assert!(matches!(f.state, TcpConnectState::SelectingEncryption));
}

fn tcp_data(data: Option<Vec<u8>>, kind: AgentMessagePayloadTypeValue) -> AgentMessage {
    AgentMessage {
        message_id: "d".to_string(),
        user_token: "u".to_string(),
        payload: Some(MessagePayload { source_address: None, target_address: None, payload_type: PayloadType::AgentPayload(kind), data }),
    }
}

#[test]
fn agent_data_goes_to_the_target_unchanged() {
    let (relay, action) = ProxyToTargetRelay::new();
    assert!(matches!(action, ProxyToTargetAction::ReadAgent { timeout_seconds: None }));
    let (relay, action) = relay.exec(ProxyToTargetEvent::AgentRead(Some(tcp_data(Some(vec![1, 2, 3]), AgentMessagePayloadTypeValue::TcpData))));
    assert!(matches!(action, ProxyToTargetAction::WriteToTarget { ref data } if data == &vec![1, 2, 3]));
    let (relay, action) = relay.exec(ProxyToTargetEvent::TargetWritten);
    assert!(matches!(action, ProxyToTargetAction::ReadAgent { timeout_seconds: None }));
    let (relay, action) = relay.exec(ProxyToTargetEvent::AgentRead(None));
    assert!(matches!(action, ProxyToTargetAction::ShutdownTarget));
    let (relay, _) = relay.exec(ProxyToTargetEvent::TargetShutDown);
    assert_eq!(relay.state, ProxyToTargetState::Done);
}

#[test]
fn other_agent_data_ends_the_relay() {
    let (relay, _) = ProxyToTargetRelay::new();
    let (relay, _) = relay.exec(ProxyToTargetEvent::AgentRead(Some(tcp_data(Some(vec![1]), AgentMessagePayloadTypeValue::UdpData))));
    assert_eq!(relay.state, ProxyToTargetState::ShuttingDown(Some(ProxyToTargetError::InvalidAgentData)));
    let (relay, _) = relay.exec(ProxyToTargetEvent::TargetShutDown);
    assert_eq!(relay.state, ProxyToTargetState::Failed(ProxyToTargetError::InvalidAgentData));
    let (relay, _) = ProxyToTargetRelay::new();
    let (relay, _) = relay.exec(ProxyToTargetEvent::AgentRead(Some(tcp_data(None, AgentMessagePayloadTypeValue::TcpData))));
    assert_eq!(relay.state, ProxyToTargetState::ShuttingDown(Some(ProxyToTargetError::InvalidAgentData)));
    let (relay, _) = ProxyToTargetRelay::new();
    let (relay, _) = relay.exec(ProxyToTargetEvent::AgentReadFailed);
    let (relay, _) = relay.exec(ProxyToTargetEvent::TargetShutdownFailed);
    assert_eq!(relay.state, ProxyToTargetState::Failed(ProxyToTargetError::TargetIoFailed));
    let (relay, _) = ProxyToTargetRelay::new();
    let (relay, _) = relay.exec(ProxyToTargetEvent::AgentReadFailed);
    let (relay, _) = relay.exec(ProxyToTargetEvent::TargetShutDown);
    assert_eq!(relay.state, ProxyToTargetState::Failed(ProxyToTargetError::AgentReadFailed));
    let (relay, _) = ProxyToTargetRelay::new();
    let (relay, _) = relay.exec(ProxyToTargetEvent::AgentRead(Some(tcp_data(Some(vec![1]), AgentMessagePayloadTypeValue::TcpData))));
    let (relay, _) = relay.exec(ProxyToTargetEvent::TargetWriteFailed);
    assert_eq!(relay.state, ProxyToTargetState::Failed(ProxyToTargetError::TargetIoFailed));
}

fn target() -> NetAddress {
    NetAddress::IpV4 { ip: [8, 8, 8, 8], port: 53 }
}

#[test]
fn target_data_is_cut_into_payloads() {
    let data: Vec<u8> = (0u8..7).collect();
    let payloads = relay_data_payloads(&data, 3, &source(), &target());
    assert_eq!(payloads.len(), 3);
    let mut joined = Vec::new();
    for p in &payloads {
        assert_eq!(p.payload_type, PayloadType::ProxyPayload(ProxyMessagePayloadTypeValue::TcpDataSuccess));
        assert!(matches!(p.source_address, Some(NetAddress::IpV4 { port: 4000, .. })));
        assert!(matches!(p.target_address, Some(NetAddress::IpV4 { port: 53, .. })));
        let chunk = p.data.clone().unwrap();
        assert!(!chunk.is_empty() && chunk.len() <= 3);
        joined.extend(chunk);
    }
    assert_eq!(joined, data);
}

fn target_relay() -> TargetToProxyRelay {
    let (relay, action) = TargetToProxyRelay::new("c-1".to_string(), "user".to_string(), source(), target(), 4096, 2);
    assert!(matches!(action, TargetToProxyAction::ReadTarget { capacity: 4096 }));
    relay
}

#[test]
fn target_data_goes_to_the_agent() {
    let (relay, action) = target_relay().exec(TargetToProxyEvent::TargetRead(vec![1, 2, 3]));
    assert!(matches!(action, TargetToProxyAction::SelectEncryption { .. }));
    let (relay, action) = relay.exec(TargetToProxyEvent::EncryptionSelected);
    match action {
        TargetToProxyAction::WriteToAgent { payloads, ref_id, user_token, connection_id } => {
            assert_eq!(connection_id, "c-1");
            assert_eq!(ref_id, "c-1");
            assert_eq!(user_token, "user");
            let parts: Vec<Vec<u8>> = payloads.into_iter().map(|p| p.data.unwrap()).collect();
            assert_eq!(parts, vec![vec![1, 2], vec![3]]);
        },
        _ => panic!("the data is written"),
    }
    let (relay, action) = relay.exec(TargetToProxyEvent::Written);
    assert!(matches!(action, TargetToProxyAction::ReadTarget { capacity: 4096 }));
    let (relay, action) = relay.exec(TargetToProxyEvent::TargetRead(Vec::new()));
    assert!(matches!(action, TargetToProxyAction::CloseAgentWriter));
    let (relay, _) = relay.exec(TargetToProxyEvent::Closed);
    assert!(matches!(relay.state, TargetToProxyState::Done));
}

#[test]
fn target_relay_errors() {
    let (r, _) = target_relay().exec(TargetToProxyEvent::TargetReadFailed);
    let (r, _) = r.exec(TargetToProxyEvent::Closed);
    assert!(matches!(r.state, TargetToProxyState::Failed(TargetToProxyError::TargetReadFailed)));
    let (r, _) = target_relay().exec(TargetToProxyEvent::TargetRead(vec![1]));
    let (r, action) = r.exec(TargetToProxyEvent::EncryptionSelectFailed);
    assert!(matches!(action, TargetToProxyAction::CloseAgentWriter));
    let (r, _) = r.exec(TargetToProxyEvent::CloseFailed);
    assert!(matches!(r.state, TargetToProxyState::Failed(TargetToProxyError::AgentIoFailed)));
    let (r, _) = target_relay().exec(TargetToProxyEvent::TargetRead(vec![1]));
    let (r, _) = r.exec(TargetToProxyEvent::EncryptionSelected);
    let (r, action) = r.exec(TargetToProxyEvent::WriteFailed);
    assert!(matches!(action, TargetToProxyAction::Finish));
    assert!(matches!(r.state, TargetToProxyState::Failed(TargetToProxyError::AgentWriteFailed)));
    let (r, _) = target_relay().exec(TargetToProxyEvent::TargetRead(vec![1]));
    let (r, _) = r.exec(TargetToProxyEvent::EncryptionSelectFailed);
    let (r, _) = r.exec(TargetToProxyEvent::Closed);
    assert!(matches!(r.state, TargetToProxyState::Failed(TargetToProxyError::EncryptionSelectFailed)));
}

#[test]
fn relay_flow_accepts_a_zero_payload_size() {
    let request = TcpRelayFlowRequest {
        connection_id: "c-0".to_string(),
        agent_address: Endpoint::V4 { ip: [127, 0, 0, 1], port: 1 },
        user_token: "u".to_string(),
        source_address: source(),
        target_address: target(),
        target_buffer_size: 100,
        message_framed_buffer_size: 0,
    };
    let (_, (to_agent, _), result) = TcpRelayFlow::exec(request);
    assert_eq!(result.connection_id, "c-0");
    assert!(!to_agent.cuts(&TargetToProxyEvent::TargetRead(Vec::new())));
    assert!(to_agent.cuts(&TargetToProxyEvent::TargetRead(vec![1])));
    let (to_agent, action) = to_agent.exec(TargetToProxyEvent::TargetRead(Vec::new()));
    assert!(matches!(action, TargetToProxyAction::CloseAgentWriter));
    assert!(!to_agent.cuts(&TargetToProxyEvent::TargetRead(vec![1])));
}

#[test]
fn relay_flow_starts_both_directions() {
    let request = TcpRelayFlowRequest {
        connection_id: "c-9".to_string(),
        agent_address: Endpoint::V4 { ip: [127, 0, 0, 1], port: 1 },
        user_token: "u".to_string(),
        source_address: source(),
        target_address: target(),
        target_buffer_size: 100,
        message_framed_buffer_size: 10,
    };
    let ((to_target, a1), (to_agent, a2), result) = TcpRelayFlow::exec(request);
    assert_eq!(to_target.state, ProxyToTargetState::Reading);
    assert!(matches!(a1, ProxyToTargetAction::ReadAgent { timeout_seconds: None }));
    assert!(matches!(a2, TargetToProxyAction::ReadTarget { capacity: 100 }));
    assert_eq!(to_agent.connection_id, "c-9");
    assert_eq!(to_agent.message_framed_buffer_size, 10);
    assert_eq!(result.connection_id, "c-9");
    assert_eq!(result.user_token, "u");
}

#[test]
fn bytes_over_a_run_reach_the_agent_in_order() {
    let mut relay = target_relay();
    let reads: Vec<Vec<u8>> = vec![vec![1, 2, 3, 4, 5], vec![6], vec![7, 8, 9]];
    let mut written: Vec<u8> = Vec::new();
    for data in reads.iter() {
        let (r, _) = relay.exec(TargetToProxyEvent::TargetRead(data.clone()));
        let (r, action) = r.exec(TargetToProxyEvent::EncryptionSelected);
        if let TargetToProxyAction::WriteToAgent { payloads, .. } = action {
            for p in payloads {
                written.extend(p.data.unwrap());
            }
        }
        let (r, _) = r.exec(TargetToProxyEvent::Written);
        relay = r;
    }
    assert_eq!(written, reads.concat());
}

#[test]
fn agent_data_over_a_run_reaches_the_target_in_order() {
    let (mut relay, _) = ProxyToTargetRelay::new();
    let mut written: Vec<u8> = Vec::new();
    let sent: Vec<Vec<u8>> = vec![vec![1, 2], vec![3], vec![4, 5, 6]];
    for data in sent.iter() {
        let (r, action) = relay.exec(ProxyToTargetEvent::AgentRead(Some(tcp_data(Some(data.clone()), AgentMessagePayloadTypeValue::TcpData))));
        if let ProxyToTargetAction::WriteToTarget { data } = action {
            written.extend(data);
        }
        let (r, _) = r.exec(ProxyToTargetEvent::TargetWritten);
        relay = r;
    }
    assert_eq!(written, sent.concat());
}
