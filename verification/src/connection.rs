use vstd::prelude::*;

use crate::message::Endpoint;

verus! {

/// Where a channel between an agent and its target stands.
pub enum ProxyTcpChannelStatus {
    New,
    TargetAssigned(Vec<Endpoint>),
    TargetConnected { target_tcp_addresses: Vec<Endpoint> },
    TargetDisconnected,
    Closed,
}

/// Why a channel cannot relay.
#[derive(Clone, Copy, Debug, PartialEq, Eq, Structural)]
pub enum ChannelError {
    /// The channel is not connected to a target yet.
    NotConnected,
    /// The channel has lost its target already.
    TargetDisconnected,
    /// The channel is closed already.
    Closed,
}

/// One agent connection and, once connected, its target.
pub struct ProxyTcpChannel {
    pub agent_address: Endpoint,
    pub status: ProxyTcpChannelStatus,
}

/// Whether a channel in `status` can relay, and why not when it cannot.
pub open spec fn relay_readiness(status: ProxyTcpChannelStatus) -> Result<(), ChannelError> {
    match status {
        ProxyTcpChannelStatus::TargetConnected { .. } => Ok(()),
        ProxyTcpChannelStatus::New | ProxyTcpChannelStatus::TargetAssigned(_) => Err(ChannelError::NotConnected),
        ProxyTcpChannelStatus::TargetDisconnected => Err(ChannelError::TargetDisconnected),
        ProxyTcpChannelStatus::Closed => Err(ChannelError::Closed),
    }
}

impl ProxyTcpChannel {
    /// A channel for an accepted agent, not yet connected to any target.
    pub fn new(agent_address: Endpoint) -> (res: ProxyTcpChannel)
        ensures
            res == (ProxyTcpChannel { agent_address, status: ProxyTcpChannelStatus::New }),
    {
        ProxyTcpChannel { agent_address, status: ProxyTcpChannelStatus::New }
    }

    /// Records that the target answered at one of `target_tcp_addresses`.
    pub fn connect_to_target(&mut self, target_tcp_addresses: Vec<Endpoint>)
        ensures
            final(self).agent_address == old(self).agent_address,
            final(self).status == (ProxyTcpChannelStatus::TargetConnected { target_tcp_addresses }),
    {
        self.status = ProxyTcpChannelStatus::TargetConnected { target_tcp_addresses };
    }

    /// Whether the channel can relay now.
    pub fn relay(&self) -> (res: Result<(), ChannelError>)
        ensures
            res == relay_readiness(self.status),
    {
        match self.status {
            ProxyTcpChannelStatus::TargetConnected { .. } => Ok(()),
            ProxyTcpChannelStatus::New | ProxyTcpChannelStatus::TargetAssigned(_) => Err(ChannelError::NotConnected),
            ProxyTcpChannelStatus::TargetDisconnected => Err(ChannelError::TargetDisconnected),
            ProxyTcpChannelStatus::Closed => Err(ChannelError::Closed),
        }
    }
}

} // verus!
