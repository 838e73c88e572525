use vstd::prelude::*;

use crate::message::{AgentMessagePayloadTypeValue, Endpoint, MessagePayload, NetAddress, PayloadType};

verus! {

/// Why a tunnel ended with an error.
#[derive(Clone, Copy, Debug, PartialEq, Eq, Structural)]
pub enum TunnelError {
    /// The agent's stream ended too early, or a message lacked what it needs.
    CodecError,
    AgentReadFailed,
    PayloadDecodeFailed,
    TargetAddressInvalid,
    TargetConnectFailed,
}

/// Where a tunnel between an agent and its target stands.
pub enum TcpTunnelStatus {
    AgentTcpConnected,
    /// Looking up the host name of the target to connect to.
    ResolvingTarget { target_address: NetAddress },
    /// Opening a connection to the target.
    ConnectingTarget { target_address: NetAddress },
    TargetTcpConnected { target_address: NetAddress },
    TargetTcpDisconnected,
    AgentTcpDisconnected,
    Closed,
    /// The agent closed its side after the target was connected.
    Finished,
    Failed(TunnelError),
}

pub enum TcpTunnelEvent {
    /// The agent's stream has no more messages.
    AgentClosed,
    AgentReadFailed,
    /// A message whose payload was decoded, or that had no payload.
    AgentMessage(Option<MessagePayload>),
    /// A message whose payload could not be decoded.
    PayloadUndecodable,
    TargetResolved(Vec<Endpoint>),
    TargetResolveFailed,
    TargetConnected,
    TargetConnectFailed,
}

pub enum TcpTunnelAction {
    ReadAgent,
    ResolveTarget { host: String, port: u16 },
    /// Connect to the first of these endpoints that accepts, replacing any
    /// target connection the tunnel had.
    ConnectTarget { endpoints: Vec<Endpoint> },
    Finish,
    Ignore,
}

/// A tunnel that serves one agent connection: it waits for a connect
/// request, connects to the target, and follows the agent's messages.
pub struct TcpTunnel {
    pub agent_address: NetAddress,
    pub compress: bool,
    pub buffer_size: usize,
    pub status: TcpTunnelStatus,
}

/// The statuses that the tunnel can step from: the disconnected and closed
/// statuses have no handling.
pub open spec fn tunnel_status_handled(status: TcpTunnelStatus) -> bool {
    !(status is TargetTcpDisconnected || status is AgentTcpDisconnected || status is Closed)
}

/// The move towards a connection to `target_address`: straight to the
/// socket for an IP address, through a lookup for a host name.
pub open spec fn tunnel_route(target_address: NetAddress, next: TcpTunnelStatus, action: TcpTunnelAction) -> bool {
    match target_address {
        NetAddress::Domain { host, port } => {
            &&& next == TcpTunnelStatus::ResolvingTarget { target_address }
            &&& action == TcpTunnelAction::ResolveTarget { host, port }
        },
        _ => {
            &&& next == TcpTunnelStatus::ConnectingTarget { target_address }
            &&& action is ConnectTarget
            &&& action->endpoints@ == seq![target_address.spec_endpoint()->0]
        },
    }
}

/// What a decoded agent message does to a tunnel in `status`, which is
/// either waiting for the connect request or connected to its target.
pub open spec fn tunnel_on_payload(
    status: TcpTunnelStatus,
    payload: MessagePayload,
    next: TcpTunnelStatus,
    action: TcpTunnelAction,
) -> bool {
    let go = |s: TcpTunnelStatus, a: TcpTunnelAction| next == s && action == a;
    let codec = go(TcpTunnelStatus::Failed(TunnelError::CodecError), TcpTunnelAction::Finish);
    match status {
        TcpTunnelStatus::AgentTcpConnected => match payload.payload_type {
            PayloadType::AgentPayload(AgentMessagePayloadTypeValue::TcpConnect) => match payload.target_address {
                Some(target_address) => tunnel_route(target_address, next, action),
                None => codec,
            },
            PayloadType::AgentPayload(AgentMessagePayloadTypeValue::Heartbeat) => go(status, TcpTunnelAction::ReadAgent),
            PayloadType::AgentPayload(AgentMessagePayloadTypeValue::DomainResolve) => go(
                status,
                TcpTunnelAction::ReadAgent,
            ),
            _ => codec,
        },
        _ => match payload.payload_type {
            PayloadType::AgentPayload(AgentMessagePayloadTypeValue::TcpData) => match payload.target_address {
                Some(target_address) => tunnel_route(target_address, next, action),
                None => codec,
            },
            _ => go(status, TcpTunnelAction::ReadAgent),
        },
    }
}

/// One step of a tunnel. Its agent address and settings never change.
pub open spec fn tunnel_step(
    tunnel: TcpTunnel,
    event: TcpTunnelEvent,
    next: TcpTunnel,
    action: TcpTunnelAction,
) -> bool {
    let go = |s: TcpTunnelStatus, a: TcpTunnelAction| next.status == s && action == a;
    let fail = |e: TunnelError| next.status == TcpTunnelStatus::Failed(e) && action == TcpTunnelAction::Finish;
    let reading = tunnel.status is AgentTcpConnected || tunnel.status is TargetTcpConnected;
    &&& next.agent_address == tunnel.agent_address
    &&& next.compress == tunnel.compress
    &&& next.buffer_size == tunnel.buffer_size
    &&& if reading {
        match event {
            TcpTunnelEvent::AgentClosed => if tunnel.status is AgentTcpConnected {
                fail(TunnelError::CodecError)
            } else {
                go(TcpTunnelStatus::Finished, TcpTunnelAction::Finish)
            },
            TcpTunnelEvent::AgentReadFailed => fail(TunnelError::AgentReadFailed),
            TcpTunnelEvent::AgentMessage(None) => fail(TunnelError::CodecError),
            TcpTunnelEvent::PayloadUndecodable => fail(TunnelError::PayloadDecodeFailed),
            TcpTunnelEvent::AgentMessage(Some(payload)) => tunnel_on_payload(
                tunnel.status,
                payload,
                next.status,
                action,
            ),
            _ => go(tunnel.status, TcpTunnelAction::Ignore),
        }
    } else {
        match (tunnel.status, event) {
            (TcpTunnelStatus::ResolvingTarget { target_address }, TcpTunnelEvent::TargetResolved(endpoints)) => go(
                TcpTunnelStatus::ConnectingTarget { target_address },
                TcpTunnelAction::ConnectTarget { endpoints },
            ),
            (TcpTunnelStatus::ResolvingTarget { .. }, TcpTunnelEvent::TargetResolveFailed) => fail(
                TunnelError::TargetAddressInvalid,
            ),
            (TcpTunnelStatus::ConnectingTarget { target_address }, TcpTunnelEvent::TargetConnected) => go(
                TcpTunnelStatus::TargetTcpConnected { target_address },
                TcpTunnelAction::ReadAgent,
            ),
            (TcpTunnelStatus::ConnectingTarget { .. }, TcpTunnelEvent::TargetConnectFailed) => fail(
                TunnelError::TargetConnectFailed,
            ),
            _ => go(tunnel.status, TcpTunnelAction::Ignore),
        }
    }
}

impl TcpTunnel {
    /// A tunnel for a freshly accepted agent connection; it starts by
    /// reading the agent's first message.
    pub fn new(agent_address: NetAddress, compress: bool, buffer_size: usize) -> (res: (TcpTunnel, TcpTunnelAction))
        ensures
            res.0 == (TcpTunnel { agent_address, compress, buffer_size, status: TcpTunnelStatus::AgentTcpConnected }),
            res.1 == TcpTunnelAction::ReadAgent,
    {
        (
            TcpTunnel { agent_address, compress, buffer_size, status: TcpTunnelStatus::AgentTcpConnected },
            TcpTunnelAction::ReadAgent,
        )
    }

    fn route(target_address: NetAddress) -> (res: (TcpTunnelStatus, TcpTunnelAction))
        ensures
            tunnel_route(target_address, res.0, res.1),
    {
        match target_address.endpoint() {
            Some(endpoint) => {
                let mut endpoints: Vec<Endpoint> = Vec::new();
                endpoints.push(endpoint);
                assert(endpoints@ == seq![endpoint]);
                (TcpTunnelStatus::ConnectingTarget { target_address }, TcpTunnelAction::ConnectTarget { endpoints })
            },
            None => {
                let action = match &target_address {
                    NetAddress::Domain { host, port } => TcpTunnelAction::ResolveTarget {
                        host: host.clone(),
                        port: *port,
                    },
                    _ => TcpTunnelAction::Ignore,
                };
                (TcpTunnelStatus::ResolvingTarget { target_address }, action)
            },
        }
    }

    fn on_payload(status: TcpTunnelStatus, payload: MessagePayload) -> (res: (TcpTunnelStatus, TcpTunnelAction))
        requires
            status is AgentTcpConnected || status is TargetTcpConnected,
        ensures
            tunnel_on_payload(status, payload, res.0, res.1),
    {
        let codec = TcpTunnelStatus::Failed(TunnelError::CodecError);
        match status {
            TcpTunnelStatus::AgentTcpConnected => match payload.payload_type {
                PayloadType::AgentPayload(AgentMessagePayloadTypeValue::TcpConnect) => match payload.target_address {
                    Some(target_address) => Self::route(target_address),
                    None => (codec, TcpTunnelAction::Finish),
                },
                PayloadType::AgentPayload(AgentMessagePayloadTypeValue::Heartbeat) => (
                    TcpTunnelStatus::AgentTcpConnected,
                    TcpTunnelAction::ReadAgent,
                ),
                PayloadType::AgentPayload(AgentMessagePayloadTypeValue::DomainResolve) => (
                    TcpTunnelStatus::AgentTcpConnected,
                    TcpTunnelAction::ReadAgent,
                ),
                _ => (codec, TcpTunnelAction::Finish),
            },
            status => match payload.payload_type {
                PayloadType::AgentPayload(AgentMessagePayloadTypeValue::TcpData) => match payload.target_address {
                    Some(target_address) => Self::route(target_address),
                    None => (codec, TcpTunnelAction::Finish),
                },
                _ => (status, TcpTunnelAction::ReadAgent),
            },
        }
    }

    /// One step of the tunnel.
    pub fn exec(self, event: TcpTunnelEvent) -> (res: (TcpTunnel, TcpTunnelAction))
        requires
            tunnel_status_handled(self.status),
        ensures
            tunnel_step(self, event, res.0, res.1),
    {
        let TcpTunnel { agent_address, compress, buffer_size, status } = self;
        let reading = match &status {
            TcpTunnelStatus::AgentTcpConnected | TcpTunnelStatus::TargetTcpConnected { .. } => true,
            _ => false,
        };
        let (status, action) = if reading {
            match event {
                TcpTunnelEvent::AgentClosed => match status {
                    TcpTunnelStatus::AgentTcpConnected => (
                        TcpTunnelStatus::Failed(TunnelError::CodecError),
                        TcpTunnelAction::Finish,
                    ),
                    _ => (TcpTunnelStatus::Finished, TcpTunnelAction::Finish),
                },
                TcpTunnelEvent::AgentReadFailed => (
                    TcpTunnelStatus::Failed(TunnelError::AgentReadFailed),
                    TcpTunnelAction::Finish,
                ),
                TcpTunnelEvent::AgentMessage(None) => (
                    TcpTunnelStatus::Failed(TunnelError::CodecError),
                    TcpTunnelAction::Finish,
                ),
                TcpTunnelEvent::PayloadUndecodable => (
                    TcpTunnelStatus::Failed(TunnelError::PayloadDecodeFailed),
                    TcpTunnelAction::Finish,
                ),
                TcpTunnelEvent::AgentMessage(Some(payload)) => Self::on_payload(status, payload),
                _ => (status, TcpTunnelAction::Ignore),
            }
        } else {
            match (status, event) {
                (
                    TcpTunnelStatus::ResolvingTarget { target_address },
                    TcpTunnelEvent::TargetResolved(endpoints),
                ) => (TcpTunnelStatus::ConnectingTarget { target_address }, TcpTunnelAction::ConnectTarget { endpoints }),
                (TcpTunnelStatus::ResolvingTarget { .. }, TcpTunnelEvent::TargetResolveFailed) => (
                    TcpTunnelStatus::Failed(TunnelError::TargetAddressInvalid),
                    TcpTunnelAction::Finish,
                ),
                (TcpTunnelStatus::ConnectingTarget { target_address }, TcpTunnelEvent::TargetConnected) => (
                    TcpTunnelStatus::TargetTcpConnected { target_address },
                    TcpTunnelAction::ReadAgent,
                ),
                (TcpTunnelStatus::ConnectingTarget { .. }, TcpTunnelEvent::TargetConnectFailed) => (
                    TcpTunnelStatus::Failed(TunnelError::TargetConnectFailed),
                    TcpTunnelAction::Finish,
                ),
                (status, _) => (status, TcpTunnelAction::Ignore),
            }
        };
        (TcpTunnel { agent_address, compress, buffer_size, status }, action)
    }
}

/// A tunnel never steps into a status it cannot handle: from any handled
/// status, every event leads to a handled status again.
pub proof fn lemma_tunnel_stays_handled(
    tunnel: TcpTunnel,
    event: TcpTunnelEvent,
    next: TcpTunnel,
    action: TcpTunnelAction,
)
    requires
        tunnel_status_handled(tunnel.status),
        tunnel_step(tunnel, event, next, action),
    ensures
        tunnel_status_handled(next.status),
{
}

/// A tunnel ends well only when the agent closes a tunnel whose target is
/// connected; a tunnel still waiting for its connect request never does.
pub proof fn lemma_tunnel_finishes_only_when_connected(
    tunnel: TcpTunnel,
    event: TcpTunnelEvent,
    next: TcpTunnel,
    action: TcpTunnelAction,
)
    requires
        tunnel_status_handled(tunnel.status),
        !(tunnel.status is Finished),
        tunnel_step(tunnel, event, next, action),
        next.status is Finished,
    ensures
        tunnel.status is TargetTcpConnected,
        event is AgentClosed,
{
}

/// A connect request makes a waiting tunnel connect to exactly the target it
/// names: straight to the address and port of an IP target, through a
/// lookup of the name and port of a host name; a connected target then
/// becomes the tunnel's target.
pub proof fn lemma_tunnel_connects_to_requested_target(
    tunnel: TcpTunnel,
    source_address: Option<NetAddress>,
    target_address: NetAddress,
    data: Option<Vec<u8>>,
    next: TcpTunnel,
    action: TcpTunnelAction,
)
    requires
        tunnel.status is AgentTcpConnected,
        tunnel_step(
            tunnel,
            TcpTunnelEvent::AgentMessage(
                Some(
                    MessagePayload {
                        source_address,
                        target_address: Some(target_address),
                        payload_type: PayloadType::AgentPayload(AgentMessagePayloadTypeValue::TcpConnect),
                        data,
                    },
                ),
            ),
            next,
            action,
        ),
    ensures
        target_address matches NetAddress::IpV4 { ip, port } ==> action is ConnectTarget
            && action->endpoints@ == seq![Endpoint::V4 { ip, port }],
        target_address matches NetAddress::IpV6 { ip, port } ==> action is ConnectTarget
            && action->endpoints@ == seq![Endpoint::V6 { ip, port }],
        !(target_address is Domain) ==> next.status == (TcpTunnelStatus::ConnectingTarget { target_address }),
        target_address matches NetAddress::Domain { host, port } ==> action == (TcpTunnelAction::ResolveTarget {
            host,
            port,
        }) && next.status == (TcpTunnelStatus::ResolvingTarget { target_address }),
{
}

} // verus!
