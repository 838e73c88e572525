use ppaass_proxy::connection::{ChannelError, ProxyTcpChannel, ProxyTcpChannelStatus};
use ppaass_proxy::dispatcher::{DispatchError, Message, TcpService, TunnelDispatcherRequest, TunnelDispatcherService};
use ppaass_proxy::key_cache::{ProxyRsaCryptoFetcher, UserKeyLoad};
use ppaass_proxy::message::{AgentMessagePayloadTypeValue, Endpoint, MessagePayload, NetAddress, PayloadType};
use ppaass_proxy::server::{BindAddress, Command, ProxyServer, ProxyServerStatus, ServerAction, ServerEvent};
use ppaass_proxy::tunnel::{TcpTunnel, TcpTunnelAction, TcpTunnelEvent, TcpTunnelStatus, TunnelError};
use ppaass_proxy::udp_relay::{
    UdpAgentRelay, UdpAgentRelayAction, UdpAgentRelayEnd, UdpAgentRelayEvent, UdpAgentRelayState, UdpReceiveOutcome,
    UdpRelayFlow, UdpResponseWriterAction, UdpResponseWriterEvent, UdpResponseWriterState, UDP_RECEIVE_BUFFER_SIZE,
};
use ppaass_proxy::message::{AgentMessage, ProxyMessagePayloadTypeValue};

fn payload(kind: AgentMessagePayloadTypeValue, target: Option<NetAddress>) -> MessagePayload {
    MessagePayload { source_address: None, target_address: target, payload_type: PayloadType::AgentPayload(kind), data: None }
}

fn ip_target() -> NetAddress {
    NetAddress::IpV4 { ip: [1, 2, 3, 4], port: 80 }
}

#[test]
fn tunnel_connects_then_follows_the_agent() {
    let (tunnel, action) = TcpTunnel::new(NetAddress::IpV4 { ip: [127, 0, 0, 1], port: 1 }, false, 1024);
    assert!(matches!(action, TcpTunnelAction::ReadAgent));
    let (tunnel, action) = tunnel.exec(TcpTunnelEvent::AgentMessage(Some(payload(AgentMessagePayloadTypeValue::Heartbeat, None))));
    assert!(matches!(action, TcpTunnelAction::ReadAgent));
    assert!(matches!(tunnel.status, TcpTunnelStatus::AgentTcpConnected));
    let (tunnel, action) = tunnel.exec(TcpTunnelEvent::AgentMessage(Some(payload(AgentMessagePayloadTypeValue::TcpConnect, Some(ip_target())))));
    assert!(matches!(action, TcpTunnelAction::ConnectTarget { ref endpoints } if endpoints.len() == 1));
    let (tunnel, action) = tunnel.exec(TcpTunnelEvent::TargetConnected);
    assert!(matches!(action, TcpTunnelAction::ReadAgent));
    assert!(matches!(tunnel.status, TcpTunnelStatus::TargetTcpConnected { .. }));
    let (tunnel, _) = tunnel.exec(TcpTunnelEvent::AgentMessage(Some(payload(AgentMessagePayloadTypeValue::Heartbeat, None))));
    assert!(matches!(tunnel.status, TcpTunnelStatus::TargetTcpConnected { .. }));
    let (tunnel, action) = tunnel.exec(TcpTunnelEvent::AgentClosed);
    assert!(matches!(action, TcpTunnelAction::Finish));
    assert!(matches!(tunnel.status, TcpTunnelStatus::Finished));
}

#[test]
fn tunnel_errors() {
    let fresh = || TcpTunnel::new(NetAddress::IpV4 { ip: [127, 0, 0, 1], port: 1 }, true, 1).0;
    let (t, _) = fresh().exec(TcpTunnelEvent::AgentClosed);
    assert!(matches!(t.status, TcpTunnelStatus::Failed(TunnelError::CodecError)));
    let (t, _) = fresh().exec(TcpTunnelEvent::AgentReadFailed);
    assert!(matches!(t.status, TcpTunnelStatus::Failed(TunnelError::AgentReadFailed)));
    let (t, _) = fresh().exec(TcpTunnelEvent::AgentMessage(None));
    assert!(matches!(t.status, TcpTunnelStatus::Failed(TunnelError::CodecError)));
    let (t, _) = fresh().exec(TcpTunnelEvent::PayloadUndecodable);
    assert!(matches!(t.status, TcpTunnelStatus::Failed(TunnelError::PayloadDecodeFailed)));
    let (t, _) = fresh().exec(TcpTunnelEvent::AgentMessage(Some(payload(AgentMessagePayloadTypeValue::TcpConnect, None))));
    assert!(matches!(t.status, TcpTunnelStatus::Failed(TunnelError::CodecError)));
    let (t, _) = fresh().exec(TcpTunnelEvent::AgentMessage(Some(payload(AgentMessagePayloadTypeValue::UdpData, None))));
    assert!(matches!(t.status, TcpTunnelStatus::Failed(TunnelError::CodecError)));
    let (t, action) = fresh().exec(TcpTunnelEvent::AgentMessage(Some(payload(
        AgentMessagePayloadTypeValue::TcpConnect,
        Some(NetAddress::Domain { host: "example.com".to_string(), port: 443 }),
    ))));
    assert!(matches!(action, TcpTunnelAction::ResolveTarget { port: 443, .. }));
    let (t2, _) = t.exec(TcpTunnelEvent::TargetResolveFailed);
    assert!(matches!(t2.status, TcpTunnelStatus::Failed(TunnelError::TargetAddressInvalid)));
    let (t, _) = fresh().exec(TcpTunnelEvent::AgentMessage(Some(payload(AgentMessagePayloadTypeValue::TcpConnect, Some(ip_target())))));
    let (t, _) = t.exec(TcpTunnelEvent::TargetConnectFailed);
    assert!(matches!(t.status, TcpTunnelStatus::Failed(TunnelError::TargetConnectFailed)));
}

#[test]
fn tunnel_reconnects_on_tcp_data_with_a_target() {
    let (t, _) = TcpTunnel::new(ip_target(), false, 1);
    let (t, _) = t.exec(TcpTunnelEvent::AgentMessage(Some(payload(AgentMessagePayloadTypeValue::TcpConnect, Some(ip_target())))));
    let (t, _) = t.exec(TcpTunnelEvent::TargetConnected);
    let (t, action) = t.exec(TcpTunnelEvent::AgentMessage(Some(payload(AgentMessagePayloadTypeValue::TcpData, Some(ip_target())))));
    assert!(matches!(action, TcpTunnelAction::ConnectTarget { .. }));
    let (t, _) = t.exec(TcpTunnelEvent::TargetConnected);
    let (t, _) = t.exec(TcpTunnelEvent::AgentMessage(Some(payload(AgentMessagePayloadTypeValue::TcpData, None))));
    assert!(matches!(t.status, TcpTunnelStatus::Failed(TunnelError::CodecError)));
}

fn message(p: Option<Result<MessagePayload, DispatchError>>) -> Message {
    Message { id: "1".to_string(), ref_id: "0".to_string(), connection_id: "c".to_string(), user_token: "u".to_string(), payload: p }
}

fn dispatch(p: Option<Result<MessagePayload, DispatchError>>) -> Result<(), DispatchError> {
    let mut service = TunnelDispatcherService;
    let tunnel = TcpTunnel::new(ip_target(), false, 1).0;
    let request = TunnelDispatcherRequest { agent_message: message(p), agent_tcp_tunnel: tunnel };
    assert!(!TunnelDispatcherService::is_unserved(&request.agent_message));
    service.call(request).map(|_| ())
}

#[test]
fn dispatcher_routes_tcp_connect() {
    assert_eq!(dispatch(Some(Ok(payload(AgentMessagePayloadTypeValue::TcpConnect, Some(ip_target()))))), Ok(()));
    assert_eq!(dispatch(None), Err(DispatchError::CodecError));
    assert_eq!(dispatch(Some(Err(DispatchError::PayloadDecodeFailed))), Err(DispatchError::PayloadDecodeFailed));
    assert_eq!(dispatch(Some(Err(DispatchError::CodecError))), Err(DispatchError::CodecError));
    assert_eq!(dispatch(Some(Ok(payload(AgentMessagePayloadTypeValue::TcpData, None)))), Err(DispatchError::CodecError));
    let unserved = message(Some(Ok(payload(AgentMessagePayloadTypeValue::Heartbeat, None))));
    assert!(TunnelDispatcherService::is_unserved(&unserved));
    let _service = TcpService::new();
}

#[test]
fn server_starts_and_stops() {
    let mut server = ProxyServer::new(80, false, 4);
    assert_eq!(server.bind_address(), BindAddress::AnyIpv4(80));
    let action = server.run(ServerEvent::Command(Command::StartServer));
    assert_eq!(action, ServerAction::StartRuntime { worker_threads: 4, bind_address: BindAddress::AnyIpv4(80) });
    assert_eq!(server.run(ServerEvent::ServingEnded), ServerAction::ReceiveCommand);
    assert_eq!(server.status, ProxyServerStatus::Running);
    assert_eq!(server.run(ServerEvent::Command(Command::StartServer)), ServerAction::ReceiveCommand);
    assert_eq!(server.run(ServerEvent::Command(Command::StopServer)), ServerAction::ShutdownRuntime { timeout_seconds: 30 });
    assert_eq!(server.status, ProxyServerStatus::Stopped);
    assert_eq!(server.run(ServerEvent::Command(Command::StopServer)), ServerAction::Exit);
}

#[test]
fn server_edge_cases() {
    let mut server = ProxyServer::new(8443, true, 2);
    assert_eq!(server.bind_address(), BindAddress::Ipv6Loopback(8443));
    assert_eq!(server.run(ServerEvent::Command(Command::StopServer)), ServerAction::Exit);
    let mut server = ProxyServer::new(1, false, 1);
    server.run(ServerEvent::Command(Command::StartServer));
    assert_eq!(server.run(ServerEvent::RuntimeBuildFailed), ServerAction::Exit);
    let mut server = ProxyServer::new(1, false, 1);
    assert_eq!(server.run(ServerEvent::ChannelClosed), ServerAction::Exit);
    assert_eq!(server.status, ProxyServerStatus::New);
}

#[test]
fn key_cache_keeps_loaded_users() {
    let loads = vec![
        UserKeyLoad::Loaded { user_token: "alice".to_string(), crypto: 1u32 },
        UserKeyLoad::PublicKeyUnreadable,
        UserKeyLoad::Loaded { user_token: "bob".to_string(), crypto: 2u32 },
        UserKeyLoad::CryptoInvalid,
        UserKeyLoad::Loaded { user_token: "alice".to_string(), crypto: 3u32 },
        UserKeyLoad::EntryUnreadable,
        UserKeyLoad::TokenUnreadable,
        UserKeyLoad::PrivateKeyUnreadable,
    ];
    let mut cache = ProxyRsaCryptoFetcher::new(loads);
    assert_eq!(cache.fetch("alice"), Some(&3));
    assert_eq!(cache.fetch("bob"), Some(&2));
    assert_eq!(cache.fetch("carol"), None);
    cache.insert("carol".to_string(), 4);
    assert_eq!(cache.fetch("carol"), Some(&4));
    assert_eq!(cache.fetch("bob"), Some(&2));
    let empty: ProxyRsaCryptoFetcher<u32> = ProxyRsaCryptoFetcher::empty();
    assert_eq!(empty.fetch("alice"), None);
}

#[test]
fn channel_relays_only_when_connected() {
    let mut channel = ProxyTcpChannel::new(Endpoint::V4 { ip: [127, 0, 0, 1], port: 9 });
    assert_eq!(channel.relay(), Err(ChannelError::NotConnected));
    channel.connect_to_target(vec![Endpoint::V4 { ip: [1, 1, 1, 1], port: 80 }]);
    assert_eq!(channel.relay(), Ok(()));
    channel.status = ProxyTcpChannelStatus::TargetDisconnected;
    assert_eq!(channel.relay(), Err(ChannelError::TargetDisconnected));
    channel.status = ProxyTcpChannelStatus::Closed;
    assert_eq!(channel.relay(), Err(ChannelError::Closed));
    channel.status = ProxyTcpChannelStatus::TargetAssigned(vec![]);
    assert_eq!(channel.relay(), Err(ChannelError::NotConnected));
}

fn udp_message(target: Option<NetAddress>, data: Option<Vec<u8>>) -> AgentMessage {
    AgentMessage {
        message_id: "m".to_string(),
        user_token: "u".to_string(),
        payload: Some(MessagePayload {
            source_address: Some(NetAddress::IpV4 { ip: [10, 0, 0, 2], port: 5353 }),
            target_address: target,
            payload_type: PayloadType::AgentPayload(AgentMessagePayloadTypeValue::UdpData),
            data,
        }),
    }
}

#[test]
fn udp_datagrams_go_out_and_replies_come_back() {
    let ((relay, a), (writer, w), result) = UdpRelayFlow::exec("c".to_string(), "m".to_string(), "u".to_string(), 5);
    assert!(matches!(a, UdpAgentRelayAction::ReadAgent { timeout_seconds: None }));
    assert_eq!(relay.udp_relay_timeout, 5);
    assert!(matches!(w, UdpResponseWriterAction::ReceivePayload));
    assert_eq!(result.message_id, "m");
    let (relay, a) = relay.exec(UdpAgentRelayEvent::AgentRead(Some(udp_message(Some(NetAddress::IpV4 { ip: [8, 8, 8, 8], port: 53 }), Some(vec![5, 6])))));
    assert!(matches!(a, UdpAgentRelayAction::ConnectTarget { ref endpoints } if endpoints.len() == 1));
    let (relay, a) = relay.exec(UdpAgentRelayEvent::Connected);
    assert!(matches!(a, UdpAgentRelayAction::SendToTarget { ref data } if data == &vec![5, 6]));
    let (relay, a) = relay.exec(UdpAgentRelayEvent::Sent);
    let (source, target) = match a {
        UdpAgentRelayAction::StartReceiver { source_address, target_address, timeout_seconds } => {
            assert_eq!(timeout_seconds, 5);
            (source_address, target_address)
        },
        _ => panic!("a receiver waits for the reply"),
    };
    let (relay, a) = relay.exec(UdpAgentRelayEvent::ReceiverStarted);
    assert!(matches!(a, UdpAgentRelayAction::ReadAgent { timeout_seconds: None }));
    let mut buffer = vec![0u8; UDP_RECEIVE_BUFFER_SIZE];
    buffer[0] = 42;
    buffer[1] = 43;
    let reply = UdpRelayFlow::reply_payload(source, target, &buffer, UdpReceiveOutcome::Received(2)).unwrap();
    assert_eq!(reply.data, Some(vec![42, 43]));
    assert_eq!(reply.payload_type, PayloadType::ProxyPayload(ProxyMessagePayloadTypeValue::UdpDataSuccess));
    assert!(matches!(reply.target_address, Some(NetAddress::IpV4 { port: 53, .. })));
    assert!(matches!(reply.source_address, Some(NetAddress::IpV4 { port: 5353, .. })));
    assert!(UdpRelayFlow::reply_payload(None, NetAddress::IpV4 { ip: [0; 4], port: 0 }, &buffer, UdpReceiveOutcome::TimedOut).is_none());
    assert!(UdpRelayFlow::reply_payload(None, NetAddress::IpV4 { ip: [0; 4], port: 0 }, &buffer, UdpReceiveOutcome::Failed).is_none());
    let (writer, w) = writer.exec(UdpResponseWriterEvent::PayloadReceived(reply));
    assert!(matches!(w, UdpResponseWriterAction::SelectEncryption { .. }));
    let (writer, w) = writer.exec(UdpResponseWriterEvent::EncryptionSelected);
    assert!(matches!(w, UdpResponseWriterAction::WriteToAgent { ref ref_id, ref payload, ref connection_id, .. } if ref_id == "m" && connection_id == "c" && payload.data == Some(vec![42, 43])));
    let (writer, w) = writer.exec(UdpResponseWriterEvent::WriteFailed);
    assert!(matches!(w, UdpResponseWriterAction::ReceivePayload));
    let (writer, w) = writer.exec(UdpResponseWriterEvent::ChannelClosed);
    assert!(matches!(w, UdpResponseWriterAction::Finish));
    assert!(matches!(writer.state, UdpResponseWriterState::Done));
    let (relay, a) = relay.exec(UdpAgentRelayEvent::AgentRead(None));
    assert!(matches!(a, UdpAgentRelayAction::Finish));
    assert!(matches!(relay.state, UdpAgentRelayState::Stopped(UdpAgentRelayEnd::AgentFinished)));
}

#[test]
fn udp_relay_stops() {
    let fresh = || UdpAgentRelay::new(3).0;
    let (r, _) = fresh().exec(UdpAgentRelayEvent::AgentReadFailed);
    assert!(matches!(r.state, UdpAgentRelayState::Stopped(UdpAgentRelayEnd::AgentReadFailed)));
    let (r, _) = fresh().exec(UdpAgentRelayEvent::AgentRead(Some(udp_message(None, Some(vec![1])))));
    assert!(matches!(r.state, UdpAgentRelayState::Stopped(UdpAgentRelayEnd::InvalidAgentData)));
    let (r, _) = fresh().exec(UdpAgentRelayEvent::AgentRead(Some(udp_message(Some(NetAddress::IpV4 { ip: [1; 4], port: 1 }), None))));
    assert!(matches!(r.state, UdpAgentRelayState::Stopped(UdpAgentRelayEnd::InvalidAgentData)));
    let (r, a) = fresh().exec(UdpAgentRelayEvent::AgentRead(Some(udp_message(Some(NetAddress::Domain { host: "dns".to_string(), port: 53 }), Some(vec![1])))));
    assert!(matches!(a, UdpAgentRelayAction::ResolveTarget { port: 53, .. }));
    let (r2, _) = r.exec(UdpAgentRelayEvent::TargetResolveFailed);
    assert!(matches!(r2.state, UdpAgentRelayState::Stopped(UdpAgentRelayEnd::TargetAddressInvalid)));
    let (r, _) = fresh().exec(UdpAgentRelayEvent::AgentRead(Some(udp_message(Some(NetAddress::IpV4 { ip: [1; 4], port: 1 }), Some(vec![1])))));
    let (r, _) = r.exec(UdpAgentRelayEvent::ConnectFailed);
    assert!(matches!(r.state, UdpAgentRelayState::Stopped(UdpAgentRelayEnd::ConnectFailed)));
    let (r, _) = fresh().exec(UdpAgentRelayEvent::AgentRead(Some(udp_message(Some(NetAddress::IpV4 { ip: [1; 4], port: 1 }), Some(vec![1])))));
    let (r, _) = r.exec(UdpAgentRelayEvent::Connected);
    let (r, _) = r.exec(UdpAgentRelayEvent::SendFailed);
    assert!(matches!(r.state, UdpAgentRelayState::Stopped(UdpAgentRelayEnd::SendFailed)));
}

#[test]
fn datagrams_leave_in_order() {
    let (mut relay, _) = UdpAgentRelay::new(1);
    let mut sent: Vec<Vec<u8>> = Vec::new();
    for data in [vec![1u8], vec![2, 2], vec![3, 3, 3]] {
        let (r, _) = relay.exec(UdpAgentRelayEvent::AgentRead(Some(udp_message(Some(NetAddress::IpV4 { ip: [9; 4], port: 9 }), Some(data)))));
        let (r, a) = r.exec(UdpAgentRelayEvent::Connected);
        if let UdpAgentRelayAction::SendToTarget { data } = a {
            sent.push(data);
        }
        let (r, _) = r.exec(UdpAgentRelayEvent::Sent);
        let (r, _) = r.exec(UdpAgentRelayEvent::ReceiverStarted);
        relay = r;
    }
    assert_eq!(sent, vec![vec![1u8], vec![2, 2], vec![3, 3, 3]]);
}
