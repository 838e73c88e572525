use vstd::prelude::*;

verus! {

/// An address as a message names it: an IPv4 or IPv6 socket address, or a
/// host name that still has to be resolved, each with a port.
#[allow(inconsistent_fields)]
#[derive(Debug)]
pub enum NetAddress {
    IpV4 { ip: [u8; 4], port: u16 },
    IpV6 { ip: [u8; 16], port: u16 },
    Domain { host: String, port: u16 },
}

/// A socket address that can be connected to without a name lookup.
#[allow(inconsistent_fields)]
#[derive(Clone, Copy, Debug)]
pub enum Endpoint {
    V4 { ip: [u8; 4], port: u16 },
    V6 { ip: [u8; 16], port: u16 },
}

impl NetAddress {
    /// An equal copy of the address.
    pub fn duplicate(&self) -> (res: NetAddress)
        ensures
            res == *self,
    {
        match self {
            NetAddress::IpV4 { ip, port } => NetAddress::IpV4 { ip: *ip, port: *port },
            NetAddress::IpV6 { ip, port } => NetAddress::IpV6 { ip: *ip, port: *port },
            NetAddress::Domain { host, port } => NetAddress::Domain { host: host.clone(), port: *port },
        }
    }

    /// The endpoint an IP address stands for; a host name has none before
    /// it is resolved.
    pub open spec fn spec_endpoint(self) -> Option<Endpoint> {
        match self {
            NetAddress::IpV4 { ip, port } => Some(Endpoint::V4 { ip, port }),
            NetAddress::IpV6 { ip, port } => Some(Endpoint::V6 { ip, port }),
            NetAddress::Domain { .. } => None,
        }
    }

    pub fn endpoint(&self) -> (res: Option<Endpoint>)
        ensures
            res == self.spec_endpoint(),
    {
        match self {
            NetAddress::IpV4 { ip, port } => Some(Endpoint::V4 { ip: *ip, port: *port }),
            NetAddress::IpV6 { ip, port } => Some(Endpoint::V6 { ip: *ip, port: *port }),
            NetAddress::Domain { .. } => None,
        }
    }
}

/// What the agent asks of the proxy.
#[derive(Clone, Copy, Debug, PartialEq, Eq, Structural)]
pub enum AgentMessagePayloadTypeValue {
    TcpConnect,
    TcpData,
    UdpAssociate,
    UdpData,
    Heartbeat,
    DomainResolve,
}

/// What the proxy answers the agent.
#[derive(Clone, Copy, Debug, PartialEq, Eq, Structural)]
pub enum ProxyMessagePayloadTypeValue {
    TcpConnectSuccess,
    TcpConnectFail,
    TcpDataSuccess,
    UdpDataSuccess,
    HeartbeatSuccess,
    DomainResolveSuccess,
    DomainResolveFail,
}

/// The kind of a payload, by the side that sends it.
#[derive(Clone, Copy, Debug, PartialEq, Eq, Structural)]
pub enum PayloadType {
    AgentPayload(AgentMessagePayloadTypeValue),
    ProxyPayload(ProxyMessagePayloadTypeValue),
}

/// The decrypted body of a message.
pub struct MessagePayload {
    pub source_address: Option<NetAddress>,
    pub target_address: Option<NetAddress>,
    pub payload_type: PayloadType,
    pub data: Option<Vec<u8>>,
}

/// A message as read from the agent: who sent it, its id, and its payload
/// when it carries one.
pub struct AgentMessage {
    pub message_id: String,
    pub user_token: String,
    pub payload: Option<MessagePayload>,
}

/// A payload of the proxy's own.
pub open spec fn proxy_payload(
    kind: ProxyMessagePayloadTypeValue,
    source_address: Option<NetAddress>,
    target_address: Option<NetAddress>,
    data: Option<Vec<u8>>,
) -> MessagePayload {
    MessagePayload { source_address, target_address, payload_type: PayloadType::ProxyPayload(kind), data }
}

impl MessagePayload {
    /// Builds a payload of the proxy's own.
    pub fn proxy(
        kind: ProxyMessagePayloadTypeValue,
        source_address: Option<NetAddress>,
        target_address: Option<NetAddress>,
        data: Option<Vec<u8>>,
    ) -> (res: MessagePayload)
        ensures
            res == proxy_payload(kind, source_address, target_address, data),
    {
        MessagePayload { source_address, target_address, payload_type: PayloadType::ProxyPayload(kind), data }
    }

    /// Whether the payload is the agent's payload of the given kind.
    pub fn is_agent(&self, kind: AgentMessagePayloadTypeValue) -> (res: bool)
        ensures
            res == (self.payload_type == PayloadType::AgentPayload(kind)),
    {
        self.payload_type == PayloadType::AgentPayload(kind)
    }
}

} // verus!
