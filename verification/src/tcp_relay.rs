use vstd::prelude::*;

use crate::chunk::{chunks_of, joined, lemma_chunks_rejoin, split_chunks};
use crate::message::{
    AgentMessage, AgentMessagePayloadTypeValue, Endpoint, MessagePayload, NetAddress, PayloadType,
    ProxyMessagePayloadTypeValue,
};

verus! {

// ---------------------------------------------------------------------------
// From the agent to the target.

/// Why relaying from the agent to the target stopped with an error.
#[derive(Clone, Copy, Debug, PartialEq, Eq, Structural)]
pub enum ProxyToTargetError {
    AgentReadFailed,
    InvalidAgentData,
    TargetIoFailed,
}

/// Where the agent-to-target relay stands.
#[derive(Clone, Copy, Debug, PartialEq, Eq, Structural)]
pub enum ProxyToTargetState {
    Reading,
    Forwarding,
    /// Flushing and shutting the target's writing half down; the error, if
    /// any, is what the relay ends with once that is done.
    ShuttingDown(Option<ProxyToTargetError>),
    Done,
    Failed(ProxyToTargetError),
}

pub enum ProxyToTargetEvent {
    /// A message from the agent, or `None` when the agent has sent all.
    AgentRead(Option<AgentMessage>),
    AgentReadFailed,
    TargetWritten,
    TargetWriteFailed,
    TargetShutDown,
    TargetShutdownFailed,
}

pub enum ProxyToTargetAction {
    /// Read the agent's next message, waiting at most this many seconds;
    /// `None` waits as long as it takes.
    ReadAgent { timeout_seconds: Option<u64> },
    /// Write these bytes to the target and flush.
    WriteToTarget { data: Vec<u8> },
    /// Flush the target and shut its writing half down.
    ShutdownTarget,
    Finish,
    Ignore,
}

/// Moves the agent's TCP data to the target until the agent stops.
pub struct ProxyToTargetRelay {
    pub state: ProxyToTargetState,
}

/// The bytes that an agent message carries for the target: only a TCP data
/// payload with data counts.
pub open spec fn tcp_data_of(message: AgentMessage) -> Option<Vec<u8>> {
    match message.payload {
        Some(p) => if p.payload_type == PayloadType::AgentPayload(AgentMessagePayloadTypeValue::TcpData) {
            p.data
        } else {
            None
        },
        None => None,
    }
}

/// One step of the agent-to-target relay.
pub open spec fn proxy_to_target_step(
    state: ProxyToTargetState,
    event: ProxyToTargetEvent,
    next: ProxyToTargetState,
    action: ProxyToTargetAction,
) -> bool {
    let go = |s: ProxyToTargetState, a: ProxyToTargetAction| next == s && action == a;
    match (state, event) {
        (ProxyToTargetState::Reading, ProxyToTargetEvent::AgentReadFailed) => go(
            ProxyToTargetState::ShuttingDown(Some(ProxyToTargetError::AgentReadFailed)),
            ProxyToTargetAction::ShutdownTarget,
        ),
        (ProxyToTargetState::Reading, ProxyToTargetEvent::AgentRead(None)) => go(
            ProxyToTargetState::ShuttingDown(None),
            ProxyToTargetAction::ShutdownTarget,
        ),
        (ProxyToTargetState::Reading, ProxyToTargetEvent::AgentRead(Some(message))) => {
            match tcp_data_of(message) {
                Some(data) => go(ProxyToTargetState::Forwarding, ProxyToTargetAction::WriteToTarget { data }),
                None => go(
                    ProxyToTargetState::ShuttingDown(Some(ProxyToTargetError::InvalidAgentData)),
                    ProxyToTargetAction::ShutdownTarget,
                ),
            }
        },
        (ProxyToTargetState::Forwarding, ProxyToTargetEvent::TargetWritten) => go(
            ProxyToTargetState::Reading,
            ProxyToTargetAction::ReadAgent { timeout_seconds: None },
        ),
        (ProxyToTargetState::Forwarding, ProxyToTargetEvent::TargetWriteFailed) => go(
            ProxyToTargetState::Failed(ProxyToTargetError::TargetIoFailed),
            ProxyToTargetAction::Finish,
        ),
        (ProxyToTargetState::ShuttingDown(end), ProxyToTargetEvent::TargetShutDown) => go(
            match end {
                None => ProxyToTargetState::Done,
                Some(e) => ProxyToTargetState::Failed(e),
            },
            ProxyToTargetAction::Finish,
        ),
        (ProxyToTargetState::ShuttingDown(_), ProxyToTargetEvent::TargetShutdownFailed) => go(
            ProxyToTargetState::Failed(ProxyToTargetError::TargetIoFailed),
            ProxyToTargetAction::Finish,
        ),
        _ => go(state, ProxyToTargetAction::Ignore),
    }
}

impl ProxyToTargetRelay {
    pub fn new() -> (res: (ProxyToTargetRelay, ProxyToTargetAction))
        ensures
            res.0.state == ProxyToTargetState::Reading,
            res.1 == (ProxyToTargetAction::ReadAgent { timeout_seconds: None }),
    {
        (ProxyToTargetRelay { state: ProxyToTargetState::Reading }, ProxyToTargetAction::ReadAgent { timeout_seconds: None })
    }

    fn to(state: ProxyToTargetState, action: ProxyToTargetAction) -> (res: (ProxyToTargetRelay, ProxyToTargetAction))
        ensures
            res.0.state == state,
            res.1 == action,
    {
        (ProxyToTargetRelay { state }, action)
    }

    /// One step of the agent-to-target relay.
    pub fn exec(self, event: ProxyToTargetEvent) -> (res: (ProxyToTargetRelay, ProxyToTargetAction))
        ensures
            proxy_to_target_step(self.state, event, res.0.state, res.1),
    {
        match (self.state, event) {
            (ProxyToTargetState::Reading, ProxyToTargetEvent::AgentReadFailed) => Self::to(
                ProxyToTargetState::ShuttingDown(Some(ProxyToTargetError::AgentReadFailed)),
                ProxyToTargetAction::ShutdownTarget,
            ),
            (ProxyToTargetState::Reading, ProxyToTargetEvent::AgentRead(None)) => Self::to(
                ProxyToTargetState::ShuttingDown(None),
                ProxyToTargetAction::ShutdownTarget,
            ),
            (ProxyToTargetState::Reading, ProxyToTargetEvent::AgentRead(Some(message))) => {
                let data = match message.payload {
                    Some(p) => if p.payload_type == PayloadType::AgentPayload(AgentMessagePayloadTypeValue::TcpData) {
                        p.data
                    } else {
                        None
                    },
                    None => None,
                };
                match data {
                    Some(data) => Self::to(ProxyToTargetState::Forwarding, ProxyToTargetAction::WriteToTarget { data }),
                    None => Self::to(
                        ProxyToTargetState::ShuttingDown(Some(ProxyToTargetError::InvalidAgentData)),
                        ProxyToTargetAction::ShutdownTarget,
                    ),
                }
            },
            (ProxyToTargetState::Forwarding, ProxyToTargetEvent::TargetWritten) => Self::to(
                ProxyToTargetState::Reading,
                ProxyToTargetAction::ReadAgent { timeout_seconds: None },
            ),
            (ProxyToTargetState::Forwarding, ProxyToTargetEvent::TargetWriteFailed) => Self::to(
                ProxyToTargetState::Failed(ProxyToTargetError::TargetIoFailed),
                ProxyToTargetAction::Finish,
            ),
            (ProxyToTargetState::ShuttingDown(end), ProxyToTargetEvent::TargetShutDown) => Self::to(
                match end {
                    None => ProxyToTargetState::Done,
                    Some(e) => ProxyToTargetState::Failed(e),
                },
                ProxyToTargetAction::Finish,
            ),
            (ProxyToTargetState::ShuttingDown(_), ProxyToTargetEvent::TargetShutdownFailed) => Self::to(
                ProxyToTargetState::Failed(ProxyToTargetError::TargetIoFailed),
                ProxyToTargetAction::Finish,
            ),
            (state, _) => Self::to(state, ProxyToTargetAction::Ignore),
        }
    }
}

/// What the agent sends for the target reaches it unchanged, and anything
/// else from the agent ends the relay: a step from `Reading` on a message
/// either writes exactly that message's TCP data to the target, or shuts
/// the target down to end with invalid data.
pub proof fn lemma_agent_data_forwarded_unchanged(
    message: AgentMessage,
    next: ProxyToTargetState,
    action: ProxyToTargetAction,
)
    requires
        proxy_to_target_step(ProxyToTargetState::Reading, ProxyToTargetEvent::AgentRead(Some(message)), next, action),
    ensures
        tcp_data_of(message) is Some ==> action == (ProxyToTargetAction::WriteToTarget { data: tcp_data_of(message)->0 }),
        tcp_data_of(message) is None ==> next == ProxyToTargetState::ShuttingDown(
            Some(ProxyToTargetError::InvalidAgentData),
        ),
{
}

/// Any TCP data payload with data is forwarded as it is, whatever source
/// and target it names: the step from `Reading` writes exactly its bytes
/// to the target and waits for the write.
pub proof fn lemma_tcp_data_forwarded_whatever_its_addresses(
    message: AgentMessage,
    source_address: Option<NetAddress>,
    target_address: Option<NetAddress>,
    data: Vec<u8>,
    next: ProxyToTargetState,
    action: ProxyToTargetAction,
)
    requires
        message.payload == Some(
            MessagePayload {
                source_address,
                target_address,
                payload_type: PayloadType::AgentPayload(AgentMessagePayloadTypeValue::TcpData),
                data: Some(data),
            },
        ),
        proxy_to_target_step(ProxyToTargetState::Reading, ProxyToTargetEvent::AgentRead(Some(message)), next, action),
    ensures
        next == ProxyToTargetState::Forwarding,
        action == (ProxyToTargetAction::WriteToTarget { data }),
{
}

/// A message that is not TCP data, or carries no data, ends the relay as
/// invalid once the target is shut down.
pub proof fn lemma_non_data_message_ends_relay(
    message: AgentMessage,
    next: ProxyToTargetState,
    action: ProxyToTargetAction,
)
    requires
        message.payload is None || message.payload->0.payload_type != PayloadType::AgentPayload(
            AgentMessagePayloadTypeValue::TcpData,
        ) || message.payload->0.data is None,
        proxy_to_target_step(ProxyToTargetState::Reading, ProxyToTargetEvent::AgentRead(Some(message)), next, action),
    ensures
        next == ProxyToTargetState::ShuttingDown(Some(ProxyToTargetError::InvalidAgentData)),
        action == ProxyToTargetAction::ShutdownTarget,
{
}

/// The target is always shut down before the relay ends, except when
/// writing to it failed: a step into an end state comes from shutting down
/// or from a failed write.
pub proof fn lemma_relay_ends_after_shutdown(
    state: ProxyToTargetState,
    event: ProxyToTargetEvent,
    next: ProxyToTargetState,
    action: ProxyToTargetAction,
)
    requires
        !(state is Done || state is Failed),
        next is Done || next is Failed,
        proxy_to_target_step(state, event, next, action),
    ensures
        state is ShuttingDown || (state is Forwarding && event is TargetWriteFailed),
{
}

/// A run of the agent-to-target relay: `states[i]` steps on `events[i]` to
/// `states[i + 1]`, asking for `actions[i]`.
pub open spec fn proxy_to_target_run(
    states: Seq<ProxyToTargetState>,
    events: Seq<ProxyToTargetEvent>,
    actions: Seq<ProxyToTargetAction>,
) -> bool {
    &&& states.len() == events.len() + 1
    &&& actions.len() == events.len()
    &&& forall|i: int|
        #![trigger events[i]]
        0 <= i < events.len() ==> proxy_to_target_step(states[i], events[i], states[i + 1], actions[i])
}

/// The TCP data of the agent messages that the first `n` steps of a run
/// took, laid end to end.
pub open spec fn agent_data_read(states: Seq<ProxyToTargetState>, events: Seq<ProxyToTargetEvent>, n: int) -> Seq<u8>
    decreases n,
{
    if n <= 0 {
        Seq::empty()
    } else {
        let earlier = agent_data_read(states, events, n - 1);
        match (states[n - 1], events[n - 1]) {
            (ProxyToTargetState::Reading, ProxyToTargetEvent::AgentRead(Some(message))) => match tcp_data_of(message) {
                Some(data) => earlier + data@,
                None => earlier,
            },
            _ => earlier,
        }
    }
}

/// The bytes that the first `n` steps of a run wrote to the target.
pub open spec fn target_data_written(actions: Seq<ProxyToTargetAction>, n: int) -> Seq<u8>
    decreases n,
{
    if n <= 0 {
        Seq::empty()
    } else if actions[n - 1] is WriteToTarget {
        target_data_written(actions, n - 1) + actions[n - 1]->WriteToTarget_data@
    } else {
        target_data_written(actions, n - 1)
    }
}

/// What reaches the target is what the agent sent, in order: over any run,
/// the bytes written to the target are exactly the TCP data of the agent
/// messages read, laid end to end.
pub proof fn lemma_relay_run_forwards_agent_data(
    states: Seq<ProxyToTargetState>,
    events: Seq<ProxyToTargetEvent>,
    actions: Seq<ProxyToTargetAction>,
    n: int,
)
    requires
        proxy_to_target_run(states, events, actions),
        0 <= n <= events.len(),
    ensures
        target_data_written(actions, n) == agent_data_read(states, events, n),
    decreases n,
{
    if n > 0 {
        let m = n - 1;
        lemma_relay_run_forwards_agent_data(states, events, actions, m);
        assert(proxy_to_target_step(states[m], events[m], states[n], actions[m]));
    }
}

// ---------------------------------------------------------------------------
// From the target to the agent.

/// Why relaying from the target to the agent stopped with an error.
#[derive(Clone, Copy, Debug, PartialEq, Eq, Structural)]
pub enum TargetToProxyError {
    TargetReadFailed,
    EncryptionSelectFailed,
    AgentWriteFailed,
    AgentIoFailed,
}

/// Where the target-to-agent relay stands.
pub enum TargetToProxyState {
    Reading,
    /// The payloads are ready; waiting for the payload encryption.
    Selecting(Vec<MessagePayload>),
    Writing,
    /// Flushing and closing the agent's writer; the error, if any, is what
    /// the relay ends with once that is done.
    Closing(Option<TargetToProxyError>),
    Done,
    Failed(TargetToProxyError),
}

pub enum TargetToProxyEvent {
    /// Bytes read from the target; none when the target has closed.
    TargetRead(Vec<u8>),
    TargetReadFailed,
    EncryptionSelected,
    EncryptionSelectFailed,
    Written,
    WriteFailed,
    Closed,
    CloseFailed,
}

pub enum TargetToProxyAction {
    /// Read from the target into a buffer of this capacity.
    ReadTarget { capacity: usize },
    SelectEncryption { user_token: String },
    /// Send these payloads to the agent in one message of connection
    /// `connection_id` that refers to `ref_id`.
    WriteToAgent { payloads: Vec<MessagePayload>, ref_id: String, user_token: String, connection_id: String },
    /// Flush and close the agent's writer.
    CloseAgentWriter,
    Finish,
    Ignore,
}

/// Moves what the target sends back to the agent, cut into payloads of at
/// most `message_framed_buffer_size` bytes.
pub struct TargetToProxyRelay {
    pub connection_id: String,
    pub user_token: String,
    pub source_address: NetAddress,
    pub target_address: NetAddress,
    pub target_buffer_size: usize,
    pub message_framed_buffer_size: usize,
    pub state: TargetToProxyState,
}

/// `payloads` carry `data` to the agent: one TCP data payload per chunk of
/// at most `size` bytes, in order, each naming the source and the target.
pub open spec fn relay_payloads(
    payloads: Seq<MessagePayload>,
    data: Seq<u8>,
    source_address: NetAddress,
    target_address: NetAddress,
    size: nat,
) -> bool {
    &&& payloads.len() == chunks_of(data, size).len()
    &&& forall|i: int|
        0 <= i < payloads.len() ==> {
            &&& (#[trigger] payloads[i]).source_address == Some(source_address)
            &&& payloads[i].target_address == Some(target_address)
            &&& payloads[i].payload_type == PayloadType::ProxyPayload(ProxyMessagePayloadTypeValue::TcpDataSuccess)
            &&& payloads[i].data is Some
            &&& payloads[i].data->0@ == chunks_of(data, size)[i]
        }
}

/// The bytes that a run of payloads carries, payload by payload.
pub open spec fn payload_bytes(payloads: Seq<MessagePayload>) -> Seq<Seq<u8>> {
    Seq::new(payloads.len(), |i: int| payloads[i].data->0@)
}

/// The payloads to send for `data` read from the target.
pub fn relay_data_payloads(
    data: &Vec<u8>,
    size: usize,
    source_address: &NetAddress,
    target_address: &NetAddress,
) -> (res: Vec<MessagePayload>)
    requires
        size > 0,
    ensures
        relay_payloads(res@, data@, *source_address, *target_address, size as nat),
{
    let chunks = split_chunks(data, size);
    let mut res: Vec<MessagePayload> = Vec::new();
    let mut i: usize = 0;
    while i < chunks.len()
        invariant
            i <= chunks@.len(),
            res@.len() == i,
            chunks@.len() == chunks_of(data@, size as nat).len(),
            forall|k: int| 0 <= k < chunks@.len() ==> #[trigger] chunks@[k]@ == chunks_of(data@, size as nat)[k],
            forall|k: int|
                0 <= k < i ==> {
                    &&& (#[trigger] res@[k]).source_address == Some(*source_address)
                    &&& res@[k].target_address == Some(*target_address)
                    &&& res@[k].payload_type == PayloadType::ProxyPayload(
                        ProxyMessagePayloadTypeValue::TcpDataSuccess,
                    )
                    &&& res@[k].data is Some
                    &&& res@[k].data->0@ == chunks_of(data@, size as nat)[k]
                },
        decreases chunks@.len() - i,
    {
        let piece = chunks[i].clone();
        assert(piece@ == chunks@[i as int]@);
        let payload = MessagePayload::proxy(
            ProxyMessagePayloadTypeValue::TcpDataSuccess,
            Some(source_address.duplicate()),
            Some(target_address.duplicate()),
            Some(piece),
        );
        res.push(payload);
        i = i + 1;
    }
    res
}

/// Relaying keeps the bytes: the payloads made of what the target sent,
/// laid end to end, are exactly what the target sent, and no payload is
/// empty or longer than the size it was cut to.
pub proof fn lemma_relay_keeps_bytes(
    payloads: Seq<MessagePayload>,
    data: Seq<u8>,
    source_address: NetAddress,
    target_address: NetAddress,
    size: nat,
)
    requires
        size > 0,
        relay_payloads(payloads, data, source_address, target_address, size),
    ensures
        joined(payload_bytes(payloads)) == data,
        forall|i: int| 0 <= i < payloads.len() ==> 0 < (#[trigger] payloads[i]).data->0@.len() <= size,
{
    lemma_chunks_rejoin(data, size);
    assert(payload_bytes(payloads) == chunks_of(data, size));
    assert forall|i: int| 0 <= i < payloads.len() implies 0 < (#[trigger] payloads[i]).data->0@.len() <= size by {
        assert(payloads[i].data->0@ == chunks_of(data, size)[i]);
    }
}

/// One step of the target-to-agent relay. The relay's settings never change.
pub open spec fn target_to_proxy_step(
    relay: TargetToProxyRelay,
    event: TargetToProxyEvent,
    next: TargetToProxyRelay,
    action: TargetToProxyAction,
) -> bool {
    let go = |s: TargetToProxyState, a: TargetToProxyAction| next.state == s && action == a;
    let close_with = |e: Option<TargetToProxyError>|
        next.state == TargetToProxyState::Closing(e) && action == TargetToProxyAction::CloseAgentWriter;
    &&& next.connection_id == relay.connection_id
    &&& next.user_token == relay.user_token
    &&& next.source_address == relay.source_address
    &&& next.target_address == relay.target_address
    &&& next.target_buffer_size == relay.target_buffer_size
    &&& next.message_framed_buffer_size == relay.message_framed_buffer_size
    &&& match (relay.state, event) {
        (TargetToProxyState::Reading, TargetToProxyEvent::TargetReadFailed) => close_with(
            Some(TargetToProxyError::TargetReadFailed),
        ),
        (TargetToProxyState::Reading, TargetToProxyEvent::TargetRead(data)) => {
            if data@.len() == 0 {
                close_with(None)
            } else {
                &&& next.state is Selecting
                &&& relay_payloads(
                    next.state->Selecting_0@,
                    data@,
                    relay.source_address,
                    relay.target_address,
                    relay.message_framed_buffer_size as nat,
                )
                &&& action == TargetToProxyAction::SelectEncryption { user_token: relay.user_token }
            }
        },
        (TargetToProxyState::Selecting(payloads), TargetToProxyEvent::EncryptionSelected) => go(
            TargetToProxyState::Writing,
            TargetToProxyAction::WriteToAgent {
                payloads,
                ref_id: relay.connection_id,
                user_token: relay.user_token,
                connection_id: relay.connection_id,
            },
        ),
        (TargetToProxyState::Selecting(_), TargetToProxyEvent::EncryptionSelectFailed) => close_with(
            Some(TargetToProxyError::EncryptionSelectFailed),
        ),
        (TargetToProxyState::Writing, TargetToProxyEvent::Written) => go(
            TargetToProxyState::Reading,
            TargetToProxyAction::ReadTarget { capacity: relay.target_buffer_size },
        ),
        (TargetToProxyState::Writing, TargetToProxyEvent::WriteFailed) => go(
            TargetToProxyState::Failed(TargetToProxyError::AgentWriteFailed),
            TargetToProxyAction::Finish,
        ),
        (TargetToProxyState::Closing(end), TargetToProxyEvent::Closed) => go(
            match end {
                None => TargetToProxyState::Done,
                Some(e) => TargetToProxyState::Failed(e),
            },
            TargetToProxyAction::Finish,
        ),
        (TargetToProxyState::Closing(_), TargetToProxyEvent::CloseFailed) => go(
            TargetToProxyState::Failed(TargetToProxyError::AgentIoFailed),
            TargetToProxyAction::Finish,
        ),
        _ => go(relay.state, TargetToProxyAction::Ignore),
    }
}

/// Whether this step cuts data read from the target into payloads: it
/// does on a non-empty read while the relay is reading.
pub open spec fn target_to_proxy_cuts(relay: TargetToProxyRelay, event: TargetToProxyEvent) -> bool {
    relay.state is Reading && event is TargetRead && event->TargetRead_0@.len() > 0
}

impl TargetToProxyRelay {
    /// Whether the step on `event` cuts data into payloads.
    pub fn cuts(&self, event: &TargetToProxyEvent) -> (res: bool)
        ensures
            res == target_to_proxy_cuts(*self, *event),
    {
        match (&self.state, event) {
            (TargetToProxyState::Reading, TargetToProxyEvent::TargetRead(data)) => data.len() > 0,
            _ => false,
        }
    }

    /// A relay that starts by reading from the target.
    pub fn new(
        connection_id: String,
        user_token: String,
        source_address: NetAddress,
        target_address: NetAddress,
        target_buffer_size: usize,
        message_framed_buffer_size: usize,
    ) -> (res: (TargetToProxyRelay, TargetToProxyAction))
        ensures
            res.0 == (TargetToProxyRelay {
                connection_id,
                user_token,
                source_address,
                target_address,
                target_buffer_size,
                message_framed_buffer_size,
                state: TargetToProxyState::Reading,
            }),
            res.1 == (TargetToProxyAction::ReadTarget { capacity: target_buffer_size }),
    {
        (
            TargetToProxyRelay {
                connection_id,
                user_token,
                source_address,
                target_address,
                target_buffer_size,
                message_framed_buffer_size,
                state: TargetToProxyState::Reading,
            },
            TargetToProxyAction::ReadTarget { capacity: target_buffer_size },
        )
    }

    fn moved(self, state: TargetToProxyState, action: TargetToProxyAction) -> (res: (
        TargetToProxyRelay,
        TargetToProxyAction,
    ))
        ensures
            res.0 == (TargetToProxyRelay { state, ..self }),
            res.1 == action,
    {
        let mut relay = self;
        relay.state = state;
        (relay, action)
    }

    /// One step of the target-to-agent relay.
    pub fn exec(self, event: TargetToProxyEvent) -> (res: (TargetToProxyRelay, TargetToProxyAction))
        requires
            target_to_proxy_cuts(self, event) ==> self.message_framed_buffer_size > 0,
        ensures
            target_to_proxy_step(self, event, res.0, res.1),
    {
        let TargetToProxyRelay {
            connection_id,
            user_token,
            source_address,
            target_address,
            target_buffer_size,
            message_framed_buffer_size,
            state,
        } = self;
        let (state, action) = match (state, event) {
            (TargetToProxyState::Reading, TargetToProxyEvent::TargetReadFailed) => (
                TargetToProxyState::Closing(Some(TargetToProxyError::TargetReadFailed)),
                TargetToProxyAction::CloseAgentWriter,
            ),
            (TargetToProxyState::Reading, TargetToProxyEvent::TargetRead(data)) => {
                if data.len() == 0 {
                    (TargetToProxyState::Closing(None), TargetToProxyAction::CloseAgentWriter)
                } else {
                    let payloads = relay_data_payloads(
                        &data,
                        message_framed_buffer_size,
                        &source_address,
                        &target_address,
                    );
                    (
                        TargetToProxyState::Selecting(payloads),
                        TargetToProxyAction::SelectEncryption { user_token: user_token.clone() },
                    )
                }
            },
            (TargetToProxyState::Selecting(payloads), TargetToProxyEvent::EncryptionSelected) => (
                TargetToProxyState::Writing,
                TargetToProxyAction::WriteToAgent {
                    payloads,
                    ref_id: connection_id.clone(),
                    user_token: user_token.clone(),
                    connection_id: connection_id.clone(),
                },
            ),
            (TargetToProxyState::Selecting(_), TargetToProxyEvent::EncryptionSelectFailed) => (
                TargetToProxyState::Closing(Some(TargetToProxyError::EncryptionSelectFailed)),
                TargetToProxyAction::CloseAgentWriter,
            ),
            (TargetToProxyState::Writing, TargetToProxyEvent::Written) => (
                TargetToProxyState::Reading,
                TargetToProxyAction::ReadTarget { capacity: target_buffer_size },
            ),
            (TargetToProxyState::Writing, TargetToProxyEvent::WriteFailed) => (
                TargetToProxyState::Failed(TargetToProxyError::AgentWriteFailed),
                TargetToProxyAction::Finish,
            ),
            (TargetToProxyState::Closing(end), TargetToProxyEvent::Closed) => (
                match end {
                    None => TargetToProxyState::Done,
                    Some(e) => TargetToProxyState::Failed(e),
                },
                TargetToProxyAction::Finish,
            ),
            (TargetToProxyState::Closing(_), TargetToProxyEvent::CloseFailed) => (
                TargetToProxyState::Failed(TargetToProxyError::AgentIoFailed),
                TargetToProxyAction::Finish,
            ),
            (state, _) => (state, TargetToProxyAction::Ignore),
        };
        (
            TargetToProxyRelay {
                connection_id,
                user_token,
                source_address,
                target_address,
                target_buffer_size,
                message_framed_buffer_size,
                state,
            },
            action,
        )
    }
}

/// A run of the target-to-agent relay: `relays[i]` steps on `events[i]` to
/// `relays[i + 1]`, asking for `actions[i]`.
pub open spec fn target_to_proxy_run(
    relays: Seq<TargetToProxyRelay>,
    events: Seq<TargetToProxyEvent>,
    actions: Seq<TargetToProxyAction>,
) -> bool {
    &&& relays.len() == events.len() + 1
    &&& actions.len() == events.len()
    &&& forall|i: int|
        #![trigger events[i]]
        0 <= i < events.len() ==> target_to_proxy_step(relays[i], events[i], relays[i + 1], actions[i])
}

/// The bytes that the first `n` steps of a run took from the target.
pub open spec fn bytes_read(relays: Seq<TargetToProxyRelay>, events: Seq<TargetToProxyEvent>, n: int) -> Seq<u8>
    decreases n,
{
    if n <= 0 {
        Seq::empty()
    } else if relays[n - 1].state is Reading && events[n - 1] is TargetRead {
        bytes_read(relays, events, n - 1) + events[n - 1]->TargetRead_0@
    } else {
        bytes_read(relays, events, n - 1)
    }
}

/// The bytes that the first `n` steps of a run sent to the agent.
pub open spec fn bytes_written(actions: Seq<TargetToProxyAction>, n: int) -> Seq<u8>
    decreases n,
{
    if n <= 0 {
        Seq::empty()
    } else if actions[n - 1] is WriteToAgent {
        bytes_written(actions, n - 1) + joined(payload_bytes(actions[n - 1]->payloads@))
    } else {
        bytes_written(actions, n - 1)
    }
}

/// `a` is a prefix of `b`.
pub open spec fn is_prefix(a: Seq<u8>, b: Seq<u8>) -> bool {
    a.len() <= b.len() && b.subrange(0, a.len() as int) == a
}

proof fn lemma_relay_run_invariant(
    relays: Seq<TargetToProxyRelay>,
    events: Seq<TargetToProxyEvent>,
    actions: Seq<TargetToProxyAction>,
    n: int,
)
    requires
        target_to_proxy_run(relays, events, actions),
        relays[0].state is Reading,
        relays[0].message_framed_buffer_size > 0,
        0 <= n <= events.len(),
    ensures
        relays[n].message_framed_buffer_size == relays[0].message_framed_buffer_size,
        relays[n].source_address == relays[0].source_address,
        relays[n].target_address == relays[0].target_address,
        relays[n].state is Selecting ==> bytes_read(relays, events, n) == bytes_written(actions, n) + joined(
            payload_bytes(relays[n].state->Selecting_0@),
        ),
        relays[n].state is Reading || relays[n].state is Writing ==> bytes_read(relays, events, n) == bytes_written(
            actions,
            n,
        ),
        is_prefix(bytes_written(actions, n), bytes_read(relays, events, n)),
    decreases n,
{
    let r = bytes_read(relays, events, n);
    let w = bytes_written(actions, n);
    if n == 0 {
        assert(r.subrange(0, 0) == w);
    } else {
        let m = n - 1;
        lemma_relay_run_invariant(relays, events, actions, m);
        assert(target_to_proxy_step(relays[m], events[m], relays[n], actions[m]));
        let r0 = bytes_read(relays, events, m);
        let w0 = bytes_written(actions, m);
        let size = relays[0].message_framed_buffer_size as nat;
        match (relays[m].state, events[m]) {
            (TargetToProxyState::Reading, TargetToProxyEvent::TargetRead(data)) => {
                if data@.len() == 0 {
                    assert(r == r0 + data@);
                    assert(r0 + data@ == r0);
                    assert(r.subrange(0, w.len() as int) == w);
                } else {
                    lemma_relay_keeps_bytes(
                        relays[n].state->Selecting_0@,
                        data@,
                        relays[m].source_address,
                        relays[m].target_address,
                        size,
                    );
                    assert(r == w + joined(payload_bytes(relays[n].state->Selecting_0@)));
                    assert(r.subrange(0, w.len() as int) == w);
                }
            },
            (TargetToProxyState::Selecting(payloads), TargetToProxyEvent::EncryptionSelected) => {
                assert(actions[m]->payloads == payloads);
                assert(w == w0 + joined(payload_bytes(payloads@)));
                assert(r.subrange(0, w.len() as int) == w);
            },
            (TargetToProxyState::Selecting(payloads), TargetToProxyEvent::EncryptionSelectFailed) => {
                assert(r == w + joined(payload_bytes(payloads@)));
                assert(r.subrange(0, w.len() as int) == w);
            },
            _ => {
                assert(r == r0);
                assert(w == w0);
            },
        }
    }
}

/// What reaches the agent is what the target sent, in order: over any run
/// that starts reading, the bytes written to the agent are a prefix of the
/// bytes read from the target, and all of them whenever the relay is back
/// to reading or writing. Only data read just before the relay stopped can
/// be missing.
pub proof fn lemma_relay_run_keeps_bytes(
    relays: Seq<TargetToProxyRelay>,
    events: Seq<TargetToProxyEvent>,
    actions: Seq<TargetToProxyAction>,
    n: int,
)
    requires
        target_to_proxy_run(relays, events, actions),
        relays[0].state is Reading,
        relays[0].message_framed_buffer_size > 0,
        0 <= n <= events.len(),
    ensures
        is_prefix(bytes_written(actions, n), bytes_read(relays, events, n)),
        relays[n].state is Reading || relays[n].state is Writing ==> bytes_written(actions, n) == bytes_read(
            relays,
            events,
            n,
        ),
{
    lemma_relay_run_invariant(relays, events, actions, n);
}

// ---------------------------------------------------------------------------
// The relay as a whole.

/// What the relay flow starts from: the connection that the connect flow
/// made, and the buffer sizes that the configuration sets.
pub struct TcpRelayFlowRequest {
    pub connection_id: String,
    pub agent_address: Endpoint,
    pub user_token: String,
    pub source_address: NetAddress,
    pub target_address: NetAddress,
    pub target_buffer_size: usize,
    pub message_framed_buffer_size: usize,
}

/// What the relay flow reports once both directions are running.
pub struct TcpRelayFlowResult {
    pub connection_id: String,
    pub agent_address: Endpoint,
    pub user_token: String,
    pub source_address: NetAddress,
    pub target_address: NetAddress,
}

/// Starting the two directions of a TCP relay.
pub struct TcpRelayFlow;

impl TcpRelayFlow {
    /// Sets up both directions of the relay. The caller runs each relay on
    /// its own, starting with the action returned beside it.
    pub fn exec(request: TcpRelayFlowRequest) -> (res: (
        (ProxyToTargetRelay, ProxyToTargetAction),
        (TargetToProxyRelay, TargetToProxyAction),
        TcpRelayFlowResult,
    ))
        ensures
            res.0.0.state == ProxyToTargetState::Reading,
            res.0.1 == (ProxyToTargetAction::ReadAgent { timeout_seconds: None }),
            res.1.0 == (TargetToProxyRelay {
                connection_id: request.connection_id,
                user_token: request.user_token,
                source_address: request.source_address,
                target_address: request.target_address,
                target_buffer_size: request.target_buffer_size,
                message_framed_buffer_size: request.message_framed_buffer_size,
                state: TargetToProxyState::Reading,
            }),
            res.1.1 == (TargetToProxyAction::ReadTarget { capacity: request.target_buffer_size }),
            res.2 == (TcpRelayFlowResult {
                connection_id: request.connection_id,
                agent_address: request.agent_address,
                user_token: request.user_token,
                source_address: request.source_address,
                target_address: request.target_address,
            }),
    {
        let TcpRelayFlowRequest {
            connection_id,
            agent_address,
            user_token,
            source_address,
            target_address,
            target_buffer_size,
            message_framed_buffer_size,
        } = request;
        let to_target = ProxyToTargetRelay::new();
        let to_agent = TargetToProxyRelay::new(
            connection_id.clone(),
            user_token.clone(),
            source_address.duplicate(),
            target_address.duplicate(),
            target_buffer_size,
            message_framed_buffer_size,
        );
        let result = TcpRelayFlowResult { connection_id, agent_address, user_token, source_address, target_address };
        (to_target, to_agent, result)
    }
}

} // verus!
