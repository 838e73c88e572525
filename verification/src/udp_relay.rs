use vstd::prelude::*;

use crate::message::{
    AgentMessage, AgentMessagePayloadTypeValue, Endpoint, MessagePayload, NetAddress, PayloadType,
    ProxyMessagePayloadTypeValue,
};

verus! {

/// The size of the buffer that one UDP reply from a target is read into.
pub const UDP_RECEIVE_BUFFER_SIZE: usize = 65535;

// ---------------------------------------------------------------------------
// From the agent to the target.

/// Why the agent-to-target UDP relay stopped.
#[derive(Clone, Copy, Debug, PartialEq, Eq, Structural)]
pub enum UdpAgentRelayEnd {
    AgentFinished,
    AgentReadFailed,
    InvalidAgentData,
    TargetAddressInvalid,
    ConnectFailed,
    SendFailed,
}

/// Where the agent-to-target UDP relay stands.
pub enum UdpAgentRelayState {
    Reading,
    Resolving { source_address: Option<NetAddress>, target_address: NetAddress, data: Vec<u8> },
    Connecting { source_address: Option<NetAddress>, target_address: NetAddress, data: Vec<u8> },
    Sending { source_address: Option<NetAddress>, target_address: NetAddress },
    StartingReceiver,
    Stopped(UdpAgentRelayEnd),
}

pub enum UdpAgentRelayEvent {
    /// A message from the agent, or `None` when the agent has sent all.
    AgentRead(Option<AgentMessage>),
    AgentReadFailed,
    TargetResolved(Vec<Endpoint>),
    TargetResolveFailed,
    Connected,
    ConnectFailed,
    Sent,
    SendFailed,
    ReceiverStarted,
}

pub enum UdpAgentRelayAction {
    /// Read the agent's next message, waiting at most this many seconds;
    /// `None` waits as long as it takes.
    ReadAgent { timeout_seconds: Option<u64> },
    ResolveTarget { host: String, port: u16 },
    /// Point the relay's UDP socket at the first of these endpoints.
    ConnectTarget { endpoints: Vec<Endpoint> },
    SendToTarget { data: Vec<u8> },
    /// Wait, on the side, at most `timeout_seconds` for one reply of the
    /// target into a buffer of `UDP_RECEIVE_BUFFER_SIZE` bytes; it goes back
    /// to the agent as a payload from `target_address` to `source_address`.
    StartReceiver { source_address: Option<NetAddress>, target_address: NetAddress, timeout_seconds: u64 },
    Finish,
    Ignore,
}

/// Sends the agent's UDP datagrams to their targets, one at a time.
pub struct UdpAgentRelay {
    /// How long a receiver waits for a target's reply, in seconds.
    pub udp_relay_timeout: u64,
    pub state: UdpAgentRelayState,
}

/// The datagram that an agent message asks to send: a UDP data payload that
/// names a target and carries data. Its source may be absent.
pub open spec fn udp_datagram_of(message: AgentMessage) -> Option<(Option<NetAddress>, NetAddress, Vec<u8>)> {
    match message.payload {
        Some(p) => {
            if p.payload_type == PayloadType::AgentPayload(AgentMessagePayloadTypeValue::UdpData)
                && p.target_address is Some && p.data is Some {
                Some((p.source_address, p.target_address->0, p.data->0))
            } else {
                None
            }
        },
        None => None,
    }
}

/// The move towards sending `data` to `target_address`: straight to the
/// socket for an IP address, through a lookup for a host name.
pub open spec fn udp_route(
    source_address: Option<NetAddress>,
    target_address: NetAddress,
    data: Vec<u8>,
    next: UdpAgentRelayState,
    action: UdpAgentRelayAction,
) -> bool {
    match target_address {
        NetAddress::Domain { host, port } => {
            &&& next == UdpAgentRelayState::Resolving { source_address, target_address, data }
            &&& action == UdpAgentRelayAction::ResolveTarget { host, port }
        },
        _ => {
            &&& next == UdpAgentRelayState::Connecting { source_address, target_address, data }
            &&& action is ConnectTarget
            &&& action->endpoints@ == seq![target_address.spec_endpoint()->0]
        },
    }
}

/// One step of the agent-to-target UDP relay.
pub open spec fn udp_agent_relay_step(
    udp_relay_timeout: u64,
    state: UdpAgentRelayState,
    event: UdpAgentRelayEvent,
    next: UdpAgentRelayState,
    action: UdpAgentRelayAction,
) -> bool {
    let go = |s: UdpAgentRelayState, a: UdpAgentRelayAction| next == s && action == a;
    let stop = |e: UdpAgentRelayEnd| next == UdpAgentRelayState::Stopped(e) && action == UdpAgentRelayAction::Finish;
    match state {
        UdpAgentRelayState::Reading => match event {
            UdpAgentRelayEvent::AgentReadFailed => stop(UdpAgentRelayEnd::AgentReadFailed),
            UdpAgentRelayEvent::AgentRead(None) => stop(UdpAgentRelayEnd::AgentFinished),
            UdpAgentRelayEvent::AgentRead(Some(message)) => match udp_datagram_of(message) {
                Some((source_address, target_address, data)) => udp_route(
                    source_address,
                    target_address,
                    data,
                    next,
                    action,
                ),
                None => stop(UdpAgentRelayEnd::InvalidAgentData),
            },
            _ => go(state, UdpAgentRelayAction::Ignore),
        },
        UdpAgentRelayState::Resolving { source_address, target_address, data } => match event {
            UdpAgentRelayEvent::TargetResolved(endpoints) => go(
                UdpAgentRelayState::Connecting { source_address, target_address, data },
                UdpAgentRelayAction::ConnectTarget { endpoints },
            ),
            UdpAgentRelayEvent::TargetResolveFailed => stop(UdpAgentRelayEnd::TargetAddressInvalid),
            _ => go(state, UdpAgentRelayAction::Ignore),
        },
        UdpAgentRelayState::Connecting { source_address, target_address, data } => match event {
            UdpAgentRelayEvent::Connected => go(
                UdpAgentRelayState::Sending { source_address, target_address },
                UdpAgentRelayAction::SendToTarget { data },
            ),
            UdpAgentRelayEvent::ConnectFailed => stop(UdpAgentRelayEnd::ConnectFailed),
            _ => go(state, UdpAgentRelayAction::Ignore),
        },
        UdpAgentRelayState::Sending { source_address, target_address } => match event {
            UdpAgentRelayEvent::Sent => go(
                UdpAgentRelayState::StartingReceiver,
                UdpAgentRelayAction::StartReceiver { source_address, target_address, timeout_seconds: udp_relay_timeout },
            ),
            UdpAgentRelayEvent::SendFailed => stop(UdpAgentRelayEnd::SendFailed),
            _ => go(state, UdpAgentRelayAction::Ignore),
        },
        UdpAgentRelayState::StartingReceiver => match event {
            UdpAgentRelayEvent::ReceiverStarted => go(
                UdpAgentRelayState::Reading,
                UdpAgentRelayAction::ReadAgent { timeout_seconds: None },
            ),
            _ => go(state, UdpAgentRelayAction::Ignore),
        },
        UdpAgentRelayState::Stopped(_) => go(state, UdpAgentRelayAction::Ignore),
    }
}

impl UdpAgentRelay {
    /// A relay whose receivers wait `udp_relay_timeout` seconds for a reply.
    pub fn new(udp_relay_timeout: u64) -> (res: (UdpAgentRelay, UdpAgentRelayAction))
        ensures
            res.0.udp_relay_timeout == udp_relay_timeout,
            res.0.state == UdpAgentRelayState::Reading,
            res.1 == (UdpAgentRelayAction::ReadAgent { timeout_seconds: None }),
    {
        (
            UdpAgentRelay { udp_relay_timeout, state: UdpAgentRelayState::Reading },
            UdpAgentRelayAction::ReadAgent { timeout_seconds: None },
        )
    }

    fn to(state: UdpAgentRelayState, action: UdpAgentRelayAction) -> (res: (UdpAgentRelayState, UdpAgentRelayAction))
        ensures
            res.0 == state,
            res.1 == action,
    {
        (state, action)
    }

    fn route(source_address: Option<NetAddress>, target_address: NetAddress, data: Vec<u8>) -> (res: (
        UdpAgentRelayState,
        UdpAgentRelayAction,
    ))
        ensures
            udp_route(source_address, target_address, data, res.0, res.1),
    {
        match target_address.endpoint() {
            Some(endpoint) => {
                let mut endpoints: Vec<Endpoint> = Vec::new();
                endpoints.push(endpoint);
                assert(endpoints@ == seq![endpoint]);
                Self::to(
                    UdpAgentRelayState::Connecting { source_address, target_address, data },
                    UdpAgentRelayAction::ConnectTarget { endpoints },
                )
            },
            None => {
                let action = match &target_address {
                    NetAddress::Domain { host, port } => UdpAgentRelayAction::ResolveTarget {
                        host: host.clone(),
                        port: *port,
                    },
                    _ => UdpAgentRelayAction::Ignore,
                };
                Self::to(UdpAgentRelayState::Resolving { source_address, target_address, data }, action)
            },
        }
    }

    /// One step of the agent-to-target UDP relay.
    pub fn exec(self, event: UdpAgentRelayEvent) -> (res: (UdpAgentRelay, UdpAgentRelayAction))
        ensures
            res.0.udp_relay_timeout == self.udp_relay_timeout,
            udp_agent_relay_step(self.udp_relay_timeout, self.state, event, res.0.state, res.1),
    {
        let UdpAgentRelay { udp_relay_timeout, state } = self;
        let (state, action) = Self::step(udp_relay_timeout, state, event);
        (UdpAgentRelay { udp_relay_timeout, state }, action)
    }

    fn step(udp_relay_timeout: u64, state: UdpAgentRelayState, event: UdpAgentRelayEvent) -> (res: (
        UdpAgentRelayState,
        UdpAgentRelayAction,
    ))
        ensures
            udp_agent_relay_step(udp_relay_timeout, state, event, res.0, res.1),
    {
        match state {
            UdpAgentRelayState::Reading => match event {
                UdpAgentRelayEvent::AgentReadFailed => Self::to(
                    UdpAgentRelayState::Stopped(UdpAgentRelayEnd::AgentReadFailed),
                    UdpAgentRelayAction::Finish,
                ),
                UdpAgentRelayEvent::AgentRead(None) => Self::to(
                    UdpAgentRelayState::Stopped(UdpAgentRelayEnd::AgentFinished),
                    UdpAgentRelayAction::Finish,
                ),
                UdpAgentRelayEvent::AgentRead(Some(message)) => {
                    let datagram = match message.payload {
                        Some(p) => {
                            if p.payload_type == PayloadType::AgentPayload(AgentMessagePayloadTypeValue::UdpData) {
                                match (p.target_address, p.data) {
                                    (Some(target), Some(data)) => Some((p.source_address, target, data)),
                                    _ => None,
                                }
                            } else {
                                None
                            }
                        },
                        None => None,
                    };
                    match datagram {
                        Some((source_address, target_address, data)) => Self::route(
                            source_address,
                            target_address,
                            data,
                        ),
                        None => Self::to(
                            UdpAgentRelayState::Stopped(UdpAgentRelayEnd::InvalidAgentData),
                            UdpAgentRelayAction::Finish,
                        ),
                    }
                },
                _ => Self::to(UdpAgentRelayState::Reading, UdpAgentRelayAction::Ignore),
            },
            UdpAgentRelayState::Resolving { source_address, target_address, data } => match event {
                UdpAgentRelayEvent::TargetResolved(endpoints) => Self::to(
                    UdpAgentRelayState::Connecting { source_address, target_address, data },
                    UdpAgentRelayAction::ConnectTarget { endpoints },
                ),
                UdpAgentRelayEvent::TargetResolveFailed => Self::to(
                    UdpAgentRelayState::Stopped(UdpAgentRelayEnd::TargetAddressInvalid),
                    UdpAgentRelayAction::Finish,
                ),
                _ => Self::to(
                    UdpAgentRelayState::Resolving { source_address, target_address, data },
                    UdpAgentRelayAction::Ignore,
                ),
            },
            UdpAgentRelayState::Connecting { source_address, target_address, data } => match event {
                UdpAgentRelayEvent::Connected => Self::to(
                    UdpAgentRelayState::Sending { source_address, target_address },
                    UdpAgentRelayAction::SendToTarget { data },
                ),
                UdpAgentRelayEvent::ConnectFailed => Self::to(
                    UdpAgentRelayState::Stopped(UdpAgentRelayEnd::ConnectFailed),
                    UdpAgentRelayAction::Finish,
                ),
                _ => Self::to(
                    UdpAgentRelayState::Connecting { source_address, target_address, data },
                    UdpAgentRelayAction::Ignore,
                ),
            },
            UdpAgentRelayState::Sending { source_address, target_address } => match event {
                UdpAgentRelayEvent::Sent => Self::to(
                    UdpAgentRelayState::StartingReceiver,
                    UdpAgentRelayAction::StartReceiver {
                        source_address,
                        target_address,
                        timeout_seconds: udp_relay_timeout,
                    },
                ),
                UdpAgentRelayEvent::SendFailed => Self::to(
                    UdpAgentRelayState::Stopped(UdpAgentRelayEnd::SendFailed),
                    UdpAgentRelayAction::Finish,
                ),
                _ => Self::to(UdpAgentRelayState::Sending { source_address, target_address }, UdpAgentRelayAction::Ignore),
            },
            UdpAgentRelayState::StartingReceiver => match event {
                UdpAgentRelayEvent::ReceiverStarted => Self::to(
                    UdpAgentRelayState::Reading,
                    UdpAgentRelayAction::ReadAgent { timeout_seconds: None },
                ),
                _ => Self::to(UdpAgentRelayState::StartingReceiver, UdpAgentRelayAction::Ignore),
            },
            UdpAgentRelayState::Stopped(end) => Self::to(UdpAgentRelayState::Stopped(end), UdpAgentRelayAction::Ignore),
        }
    }
}

/// A datagram goes to its own target: for a UDP data message naming an IP
/// target, the relay points its socket at exactly that address and port and
/// keeps the datagram's source, target and data for the send; for a host
/// name it looks up that name and port.
pub proof fn lemma_udp_datagram_goes_to_its_target(
    udp_relay_timeout: u64,
    message: AgentMessage,
    source_address: Option<NetAddress>,
    target_address: NetAddress,
    data: Vec<u8>,
    next: UdpAgentRelayState,
    action: UdpAgentRelayAction,
)
    requires
        message.payload == Some(
            MessagePayload {
                source_address,
                target_address: Some(target_address),
                payload_type: PayloadType::AgentPayload(AgentMessagePayloadTypeValue::UdpData),
                data: Some(data),
            },
        ),
        udp_agent_relay_step(
            udp_relay_timeout,
            UdpAgentRelayState::Reading,
            UdpAgentRelayEvent::AgentRead(Some(message)),
            next,
            action,
        ),
    ensures
        target_address matches NetAddress::IpV4 { ip, port } ==> action is ConnectTarget
            && action->endpoints@ == seq![Endpoint::V4 { ip, port }],
        target_address matches NetAddress::IpV6 { ip, port } ==> action is ConnectTarget
            && action->endpoints@ == seq![Endpoint::V6 { ip, port }],
        !(target_address is Domain) ==> next == (UdpAgentRelayState::Connecting { source_address, target_address, data }),
        target_address matches NetAddress::Domain { host, port } ==> action == (UdpAgentRelayAction::ResolveTarget {
            host,
            port,
        }) && next == (UdpAgentRelayState::Resolving { source_address, target_address, data }),
{
}

/// A run of the agent-to-target UDP relay: `states[i]` steps on `events[i]`
/// to `states[i + 1]`, asking for `actions[i]`.
pub open spec fn udp_agent_relay_run(
    udp_relay_timeout: u64,
    states: Seq<UdpAgentRelayState>,
    events: Seq<UdpAgentRelayEvent>,
    actions: Seq<UdpAgentRelayAction>,
) -> bool {
    &&& states.len() == events.len() + 1
    &&& actions.len() == events.len()
    &&& forall|i: int|
        #![trigger events[i]]
        0 <= i < events.len() ==> udp_agent_relay_step(udp_relay_timeout, states[i], events[i], states[i + 1], actions[i])
}

/// The datagram data that the step from `state` on `event` takes from the
/// agent, if it takes one.
pub open spec fn datagram_accepted(state: UdpAgentRelayState, event: UdpAgentRelayEvent) -> Option<Vec<u8>> {
    match (state, event) {
        (UdpAgentRelayState::Reading, UdpAgentRelayEvent::AgentRead(Some(message))) => match udp_datagram_of(message) {
            Some((_, _, data)) => Some(data),
            None => None,
        },
        _ => None,
    }
}

/// The datagrams that the first `n` steps of a run took from the agent.
pub open spec fn datagrams_accepted(
    states: Seq<UdpAgentRelayState>,
    events: Seq<UdpAgentRelayEvent>,
    n: int,
) -> Seq<Vec<u8>>
    decreases n,
{
    if n <= 0 {
        Seq::empty()
    } else {
        match datagram_accepted(states[n - 1], events[n - 1]) {
            Some(data) => datagrams_accepted(states, events, n - 1).push(data),
            None => datagrams_accepted(states, events, n - 1),
        }
    }
}

/// The datagrams that the first `n` steps of a run sent to targets.
pub open spec fn datagrams_sent(actions: Seq<UdpAgentRelayAction>, n: int) -> Seq<Vec<u8>>
    decreases n,
{
    if n <= 0 {
        Seq::empty()
    } else if actions[n - 1] is SendToTarget {
        datagrams_sent(actions, n - 1).push(actions[n - 1]->SendToTarget_data)
    } else {
        datagrams_sent(actions, n - 1)
    }
}

proof fn lemma_udp_run_invariant(
    udp_relay_timeout: u64,
    states: Seq<UdpAgentRelayState>,
    events: Seq<UdpAgentRelayEvent>,
    actions: Seq<UdpAgentRelayAction>,
    n: int,
)
    requires
        udp_agent_relay_run(udp_relay_timeout, states, events, actions),
        states[0] is Reading,
        0 <= n <= events.len(),
    ensures
        states[n] is Resolving ==> datagrams_accepted(states, events, n) == datagrams_sent(actions, n).push(
            states[n]->Resolving_data,
        ),
        states[n] is Connecting ==> datagrams_accepted(states, events, n) == datagrams_sent(actions, n).push(
            states[n]->Connecting_data,
        ),
        states[n] is Reading || states[n] is Sending || states[n] is StartingReceiver ==> datagrams_accepted(
            states,
            events,
            n,
        ) == datagrams_sent(actions, n),
        datagrams_sent(actions, n) == datagrams_accepted(states, events, n).take(
            datagrams_sent(actions, n).len() as int,
        ),
    decreases n,
{
    let a = datagrams_accepted(states, events, n);
    let s = datagrams_sent(actions, n);
    if n == 0 {
        assert(a.take(0) == s);
    } else {
        let m = n - 1;
        lemma_udp_run_invariant(udp_relay_timeout, states, events, actions, m);
        assert(udp_agent_relay_step(udp_relay_timeout, states[m], events[m], states[n], actions[m]));
        let a0 = datagrams_accepted(states, events, m);
        let s0 = datagrams_sent(actions, m);
        match (states[m], events[m]) {
            (UdpAgentRelayState::Reading, UdpAgentRelayEvent::AgentRead(Some(message))) => {
                assert(s == s0);
                assert(a.take(s.len() as int) == s);
            },
            (UdpAgentRelayState::Connecting { data, .. }, UdpAgentRelayEvent::Connected) => {
                assert(s == s0.push(data));
                assert(a == a0);
                assert(a.take(s.len() as int) == s);
            },
            (UdpAgentRelayState::Resolving { .. }, UdpAgentRelayEvent::TargetResolveFailed)
            | (UdpAgentRelayState::Connecting { .. }, UdpAgentRelayEvent::ConnectFailed) => {
                assert(a == a0);
                assert(s == s0);
                assert(a.take(s.len() as int) == s);
            },
            _ => {
                assert(a == a0);
                assert(s == s0);
            },
        }
    }
}

/// Datagrams leave in the order the agent sent them, each at most once:
/// over any run that starts reading, the data sent to targets is a prefix
/// of the datagrams taken from the agent, and all of them whenever the
/// relay is back to reading.
pub proof fn lemma_udp_run_keeps_order(
    udp_relay_timeout: u64,
    states: Seq<UdpAgentRelayState>,
    events: Seq<UdpAgentRelayEvent>,
    actions: Seq<UdpAgentRelayAction>,
    n: int,
)
    requires
        udp_agent_relay_run(udp_relay_timeout, states, events, actions),
        states[0] is Reading,
        0 <= n <= events.len(),
    ensures
        datagrams_sent(actions, n) == datagrams_accepted(states, events, n).take(
            datagrams_sent(actions, n).len() as int,
        ),
        states[n] is Reading ==> datagrams_sent(actions, n) == datagrams_accepted(states, events, n),
{
    lemma_udp_run_invariant(udp_relay_timeout, states, events, actions, n);
}

// ---------------------------------------------------------------------------
// A target's reply.

/// How waiting for one reply of a target ended.
#[derive(Clone, Copy, Debug, PartialEq, Eq, Structural)]
pub enum UdpReceiveOutcome {
    TimedOut,
    Failed,
    /// This many bytes arrived at the start of the buffer.
    Received(usize),
}

// ---------------------------------------------------------------------------
// From the targets back to the agent.

/// Where the writer of UDP replies stands.
pub enum UdpResponseWriterState {
    Waiting,
    Selecting(MessagePayload),
    Writing,
    Done,
}

pub enum UdpResponseWriterEvent {
    PayloadReceived(MessagePayload),
    /// Every receiver has finished and none is left to send a reply.
    ChannelClosed,
    EncryptionSelected,
    EncryptionSelectFailed,
    Written,
    WriteFailed,
}

pub enum UdpResponseWriterAction {
    /// Wait for the next reply payload.
    ReceivePayload,
    SelectEncryption { user_token: String },
    /// Send the payload in a message of connection `connection_id` that
    /// refers to `ref_id`.
    WriteToAgent { payload: MessagePayload, ref_id: String, user_token: String, connection_id: String },
    Finish,
    Ignore,
}

/// Sends the targets' replies to the agent, one message per reply. A reply
/// that cannot be sent is dropped and the writer goes on.
pub struct UdpResponseWriter {
    pub connection_id: String,
    pub message_id: String,
    pub user_token: String,
    pub state: UdpResponseWriterState,
}

/// One step of the reply writer. Its identifiers never change.
pub open spec fn udp_response_writer_step(
    writer: UdpResponseWriter,
    event: UdpResponseWriterEvent,
    next: UdpResponseWriter,
    action: UdpResponseWriterAction,
) -> bool {
    let go = |s: UdpResponseWriterState, a: UdpResponseWriterAction| next.state == s && action == a;
    &&& next.connection_id == writer.connection_id
    &&& next.message_id == writer.message_id
    &&& next.user_token == writer.user_token
    &&& match (writer.state, event) {
        (UdpResponseWriterState::Waiting, UdpResponseWriterEvent::PayloadReceived(payload)) => go(
            UdpResponseWriterState::Selecting(payload),
            UdpResponseWriterAction::SelectEncryption { user_token: writer.user_token },
        ),
        (UdpResponseWriterState::Waiting, UdpResponseWriterEvent::ChannelClosed) => go(
            UdpResponseWriterState::Done,
            UdpResponseWriterAction::Finish,
        ),
        (UdpResponseWriterState::Selecting(payload), UdpResponseWriterEvent::EncryptionSelected) => go(
            UdpResponseWriterState::Writing,
            UdpResponseWriterAction::WriteToAgent {
                payload,
                ref_id: writer.message_id,
                user_token: writer.user_token,
                connection_id: writer.connection_id,
            },
        ),
        (UdpResponseWriterState::Selecting(_), UdpResponseWriterEvent::EncryptionSelectFailed) => go(
            UdpResponseWriterState::Waiting,
            UdpResponseWriterAction::ReceivePayload,
        ),
        (UdpResponseWriterState::Writing, UdpResponseWriterEvent::Written) => go(
            UdpResponseWriterState::Waiting,
            UdpResponseWriterAction::ReceivePayload,
        ),
        (UdpResponseWriterState::Writing, UdpResponseWriterEvent::WriteFailed) => go(
            UdpResponseWriterState::Waiting,
            UdpResponseWriterAction::ReceivePayload,
        ),
        _ => go(writer.state, UdpResponseWriterAction::Ignore),
    }
}

impl UdpResponseWriter {
    pub fn new(connection_id: String, message_id: String, user_token: String) -> (res: (
        UdpResponseWriter,
        UdpResponseWriterAction,
    ))
        ensures
            res.0 == (UdpResponseWriter { connection_id, message_id, user_token, state: UdpResponseWriterState::Waiting }),
            res.1 == UdpResponseWriterAction::ReceivePayload,
    {
        (
            UdpResponseWriter { connection_id, message_id, user_token, state: UdpResponseWriterState::Waiting },
            UdpResponseWriterAction::ReceivePayload,
        )
    }

    /// One step of the reply writer.
    pub fn exec(self, event: UdpResponseWriterEvent) -> (res: (UdpResponseWriter, UdpResponseWriterAction))
        ensures
            udp_response_writer_step(self, event, res.0, res.1),
    {
        let UdpResponseWriter { connection_id, message_id, user_token, state } = self;
        let (state, action) = match (state, event) {
            (UdpResponseWriterState::Waiting, UdpResponseWriterEvent::PayloadReceived(payload)) => (
                UdpResponseWriterState::Selecting(payload),
                UdpResponseWriterAction::SelectEncryption { user_token: user_token.clone() },
            ),
            (UdpResponseWriterState::Waiting, UdpResponseWriterEvent::ChannelClosed) => (
                UdpResponseWriterState::Done,
                UdpResponseWriterAction::Finish,
            ),
            (UdpResponseWriterState::Selecting(payload), UdpResponseWriterEvent::EncryptionSelected) => (
                UdpResponseWriterState::Writing,
                UdpResponseWriterAction::WriteToAgent {
                    payload,
                    ref_id: message_id.clone(),
                    user_token: user_token.clone(),
                    connection_id: connection_id.clone(),
                },
            ),
            (UdpResponseWriterState::Selecting(_), UdpResponseWriterEvent::EncryptionSelectFailed) => (
                UdpResponseWriterState::Waiting,
                UdpResponseWriterAction::ReceivePayload,
            ),
            (UdpResponseWriterState::Writing, UdpResponseWriterEvent::Written) => (
                UdpResponseWriterState::Waiting,
                UdpResponseWriterAction::ReceivePayload,
            ),
            (UdpResponseWriterState::Writing, UdpResponseWriterEvent::WriteFailed) => (
                UdpResponseWriterState::Waiting,
                UdpResponseWriterAction::ReceivePayload,
            ),
            (state, _) => (state, UdpResponseWriterAction::Ignore),
        };
        (UdpResponseWriter { connection_id, message_id, user_token, state }, action)
    }
}

// ---------------------------------------------------------------------------
// The relay as a whole.

/// What the UDP relay flow reports once it runs.
pub struct UdpRelayFlowResult {
    pub connection_id: String,
    pub message_id: String,
    pub user_token: String,
}

/// Starting a UDP relay for an associated agent.
pub struct UdpRelayFlow;

impl UdpRelayFlow {
    /// Sets up the two loops of the relay: the one that sends the agent's
    /// datagrams, and the one that writes the targets' replies back.
    pub fn exec(connection_id: String, message_id: String, user_token: String, udp_relay_timeout: u64) -> (res: (
        (UdpAgentRelay, UdpAgentRelayAction),
        (UdpResponseWriter, UdpResponseWriterAction),
        UdpRelayFlowResult,
    ))
        ensures
            res.0.0.udp_relay_timeout == udp_relay_timeout,
            res.0.0.state == UdpAgentRelayState::Reading,
            res.0.1 == (UdpAgentRelayAction::ReadAgent { timeout_seconds: None }),
            res.1.0 == (UdpResponseWriter {
                connection_id,
                message_id,
                user_token,
                state: UdpResponseWriterState::Waiting,
            }),
            res.1.1 == UdpResponseWriterAction::ReceivePayload,
            res.2 == (UdpRelayFlowResult { connection_id, message_id, user_token }),
    {
        let agent_relay = UdpAgentRelay::new(udp_relay_timeout);
        let writer = UdpResponseWriter::new(connection_id.clone(), message_id.clone(), user_token.clone());
        (agent_relay, writer, UdpRelayFlowResult { connection_id, message_id, user_token })
    }

    /// The payload that carries a target's reply back to the agent, if one
    /// arrived: the received bytes, from the target to the datagram's source.
    pub fn reply_payload(
        source_address: Option<NetAddress>,
        target_address: NetAddress,
        buffer: &Vec<u8>,
        outcome: UdpReceiveOutcome,
    ) -> (res: Option<MessagePayload>)
        requires
            buffer@.len() == UDP_RECEIVE_BUFFER_SIZE,
            outcome is Received ==> outcome->Received_0 <= buffer@.len(),
        ensures
            match outcome {
                UdpReceiveOutcome::Received(n) => {
                    &&& res is Some
                    &&& res->0.source_address == source_address
                    &&& res->0.target_address == Some(target_address)
                    &&& res->0.payload_type == PayloadType::ProxyPayload(ProxyMessagePayloadTypeValue::UdpDataSuccess)
                    &&& res->0.data is Some
                    &&& res->0.data->0@ == buffer@.take(n as int)
                    &&& res->0.data->0@.len() <= UDP_RECEIVE_BUFFER_SIZE
                },
                _ => res is None,
            },
    {
        match outcome {
            UdpReceiveOutcome::Received(n) => {
                let mut data: Vec<u8> = Vec::new();
                let mut i: usize = 0;
                while i < n
                    invariant
                        i <= n <= buffer@.len(),
                        data@ == buffer@.take(i as int),
                    decreases n - i,
                {
                    data.push(buffer[i]);
                    i = i + 1;
                    assert(data@ == buffer@.take(i as int));
                }
                Some(
                    MessagePayload::proxy(
                        ProxyMessagePayloadTypeValue::UdpDataSuccess,
                        source_address,
                        Some(target_address),
                        Some(data),
                    ),
                )
            },
            _ => None,
        }
    }
}

/// A reply that cannot be sent never stops the writer: it ends only when
/// the channel closes while it waits, and what it writes is the reply it
/// received, unchanged, in answer to the association's message.
pub proof fn lemma_udp_writer_ends_only_on_close(
    writer: UdpResponseWriter,
    event: UdpResponseWriterEvent,
    next: UdpResponseWriter,
    action: UdpResponseWriterAction,
)
    requires
        !(writer.state is Done),
        udp_response_writer_step(writer, event, next, action),
    ensures
        next.state is Done <==> (writer.state is Waiting && event is ChannelClosed),
        action is WriteToAgent ==> writer.state is Selecting && action->payload == writer.state->Selecting_0
            && action->ref_id == writer.message_id,
{
}

/// A reply is written to the agent as it was received: once a waiting
/// writer receives a payload and the encryption is chosen, it writes exactly
/// that payload, in answer to the association's message, for its user and
/// connection, and then waits for the next reply.
pub proof fn lemma_udp_reply_written_as_received(
    writer: UdpResponseWriter,
    payload: MessagePayload,
    w1: UdpResponseWriter,
    a1: UdpResponseWriterAction,
    w2: UdpResponseWriter,
    a2: UdpResponseWriterAction,
    w3: UdpResponseWriter,
    a3: UdpResponseWriterAction,
)
    requires
        writer.state is Waiting,
        udp_response_writer_step(writer, UdpResponseWriterEvent::PayloadReceived(payload), w1, a1),
        udp_response_writer_step(w1, UdpResponseWriterEvent::EncryptionSelected, w2, a2),
        udp_response_writer_step(w2, UdpResponseWriterEvent::Written, w3, a3),
    ensures
        a1 == (UdpResponseWriterAction::SelectEncryption { user_token: writer.user_token }),
        a2 == (UdpResponseWriterAction::WriteToAgent {
            payload,
            ref_id: writer.message_id,
            user_token: writer.user_token,
            connection_id: writer.connection_id,
        }),
        w3.state is Waiting,
        a3 == UdpResponseWriterAction::ReceivePayload,
{
}

/// A datagram goes to its target as sent: the bytes handed to the socket
/// are the data of the agent's payload, and the receiver that is started
/// afterwards answers for that datagram's own addresses.
pub proof fn lemma_udp_datagram_passes_unchanged(
    udp_relay_timeout: u64,
    message: AgentMessage,
    source_address: Option<NetAddress>,
    target_address: NetAddress,
    data: Vec<u8>,
    s1: UdpAgentRelayState,
    a1: UdpAgentRelayAction,
    s2: UdpAgentRelayState,
    a2: UdpAgentRelayAction,
    s3: UdpAgentRelayState,
    a3: UdpAgentRelayAction,
)
    requires
        udp_datagram_of(message) == Some((source_address, target_address, data)),
        !(target_address is Domain),
        udp_agent_relay_step(
            udp_relay_timeout,
            UdpAgentRelayState::Reading,
            UdpAgentRelayEvent::AgentRead(Some(message)),
            s1,
            a1,
        ),
        udp_agent_relay_step(udp_relay_timeout, s1, UdpAgentRelayEvent::Connected, s2, a2),
        udp_agent_relay_step(udp_relay_timeout, s2, UdpAgentRelayEvent::Sent, s3, a3),
    ensures
        a2 == (UdpAgentRelayAction::SendToTarget { data }),
        a3 == (UdpAgentRelayAction::StartReceiver { source_address, target_address, timeout_seconds: udp_relay_timeout }),
{
}

} // verus!
