use vstd::prelude::*;

use crate::domain::{
    ipv4_addresses, ipv4_octets, normalize_domain_name, normalized_domain_name, DomainResolveRequest,
    DomainResolveResponse, ResolvedAddress,
};
use crate::message::{
    proxy_payload, AgentMessage, AgentMessagePayloadTypeValue, MessagePayload, NetAddress, PayloadType,
    ProxyMessagePayloadTypeValue,
};

verus! {

/// How the first exchange with an agent ended when it went well.
pub enum InitOutcome {
    /// A heartbeat was answered.
    Heartbeat,
    /// A name was resolved and the answer sent.
    DomainResolve,
    /// A TCP connection to the target stands; relaying comes next.
    Tcp {
        message_id: String,
        user_token: String,
        source_address: NetAddress,
        target_address: NetAddress,
    },
    /// A UDP association stands; relaying comes next.
    Udp { message_id: String, user_token: String, source_address: Option<NetAddress> },
}

/// Why the first exchange with an agent failed.
#[derive(Clone, Copy, Debug, PartialEq, Eq, Structural)]
pub enum InitError {
    ReadFailed,
    InvalidContent,
    MissingDomainData,
    EncryptionSelectFailed,
    InvalidDomainRequest,
    DomainResolveFailed,
    ResponseEncodeFailed,
    WriteFailed,
    TcpConnectFailed,
    UdpAssociateFailed,
}

/// Where the first exchange with an agent stands.
pub enum InitState {
    AwaitingMessage,
    HeartbeatSelecting { message_id: String, user_token: String },
    HeartbeatReplying,
    DomainSelecting {
        message_id: String,
        user_token: String,
        source_address: Option<NetAddress>,
        target_address: Option<NetAddress>,
        data: Vec<u8>,
    },
    DomainParsing {
        message_id: String,
        user_token: String,
        source_address: Option<NetAddress>,
        target_address: Option<NetAddress>,
    },
    DomainResolving {
        message_id: String,
        user_token: String,
        source_address: Option<NetAddress>,
        target_address: Option<NetAddress>,
        request: DomainResolveRequest,
    },
    DomainEncoding {
        message_id: String,
        user_token: String,
        source_address: Option<NetAddress>,
        target_address: Option<NetAddress>,
    },
    DomainReplying,
    DomainReportingFailure,
    TcpConnecting {
        message_id: String,
        user_token: String,
        source_address: NetAddress,
        target_address: NetAddress,
    },
    UdpAssociating { message_id: String, user_token: String, source_address: Option<NetAddress> },
    Done(InitOutcome),
    Failed(InitError),
}

/// What the caller observed after performing the last action.
pub enum InitEvent {
    MessageRead(Option<AgentMessage>),
    ReadFailed,
    EncryptionSelected,
    EncryptionSelectFailed,
    DomainRequestParsed(DomainResolveRequest),
    DomainRequestInvalid,
    DomainResolved(Vec<ResolvedAddress>),
    DomainResolveFailed,
    ResponseEncoded(Vec<u8>),
    ResponseEncodeFailed,
    Written,
    WriteFailed,
    TcpConnected,
    TcpConnectFailed,
    UdpAssociated,
    UdpAssociateFailed,
}

/// What the caller is to do next.
pub enum InitAction {
    /// Read the agent's first message, waiting at most this many seconds.
    ReadAgentMessage { timeout_seconds: u64 },
    /// Pick the payload encryption for the user.
    SelectEncryption { user_token: String },
    /// Decode a resolution request from the payload data.
    ParseDomainRequest { data: Vec<u8> },
    /// Look the name up.
    ResolveDomain { name: String },
    /// Encode the resolution answer.
    EncodeDomainResponse { response: DomainResolveResponse },
    /// Send one payload to the agent in a message of connection
    /// `connection_id`, in answer to message `ref_id`.
    WriteToAgent { payload: MessagePayload, ref_id: String, user_token: String, connection_id: String },
    /// Run the TCP connect flow.
    StartTcpConnect {
        message_id: String,
        user_token: String,
        source_address: NetAddress,
        target_address: NetAddress,
    },
    /// Run the UDP associate flow.
    StartUdpAssociate { message_id: String, user_token: String, source_address: Option<NetAddress> },
    /// The flow has ended; its state holds the outcome.
    Finish,
    /// The event does not apply to the state; nothing changed.
    Ignore,
}

/// The first exchange with a freshly connected agent: read one message and
/// answer it, or hand over to the TCP or UDP flow.
pub struct InitializeFlow {
    pub connection_id: String,
    pub state: InitState,
}

/// The move that the agent's first message calls for.
pub open spec fn init_classified(message: Option<AgentMessage>, next: InitState, action: InitAction) -> bool {
    let invalid = next == InitState::Failed(InitError::InvalidContent) && action == InitAction::Finish;
    match message {
        None => invalid,
        Some(m) => match m.payload {
            None => invalid,
            Some(p) => match p.payload_type {
                PayloadType::AgentPayload(AgentMessagePayloadTypeValue::Heartbeat) => {
                    &&& next == InitState::HeartbeatSelecting { message_id: m.message_id, user_token: m.user_token }
                    &&& action == InitAction::SelectEncryption { user_token: m.user_token }
                },
                PayloadType::AgentPayload(AgentMessagePayloadTypeValue::DomainResolve) => match p.data {
                    None => next == InitState::Failed(InitError::MissingDomainData) && action == InitAction::Finish,
                    Some(data) => {
                        &&& next == InitState::DomainSelecting {
                            message_id: m.message_id,
                            user_token: m.user_token,
                            source_address: p.source_address,
                            target_address: p.target_address,
                            data,
                        }
                        &&& action == InitAction::SelectEncryption { user_token: m.user_token }
                    },
                },
                PayloadType::AgentPayload(AgentMessagePayloadTypeValue::TcpConnect) => {
                    if p.source_address is Some && p.target_address is Some {
                        &&& next == InitState::TcpConnecting {
                            message_id: m.message_id,
                            user_token: m.user_token,
                            source_address: p.source_address->0,
                            target_address: p.target_address->0,
                        }
                        &&& action == InitAction::StartTcpConnect {
                            message_id: m.message_id,
                            user_token: m.user_token,
                            source_address: p.source_address->0,
                            target_address: p.target_address->0,
                        }
                    } else {
                        invalid
                    }
                },
                PayloadType::AgentPayload(AgentMessagePayloadTypeValue::UdpAssociate) => {
                    if p.target_address is None {
                        &&& next == InitState::UdpAssociating {
                            message_id: m.message_id,
                            user_token: m.user_token,
                            source_address: p.source_address,
                        }
                        &&& action == InitAction::StartUdpAssociate {
                            message_id: m.message_id,
                            user_token: m.user_token,
                            source_address: p.source_address,
                        }
                    } else {
                        invalid
                    }
                },
                _ => invalid,
            },
        },
    }
}

/// One step of the first exchange: from `state`, on `event`, the flow moves
/// to `next` and asks for `action`. An event that does not apply leaves the
/// state as it is and asks for nothing.
pub open spec fn init_step(
    connection_id: String,
    state: InitState,
    event: InitEvent,
    next: InitState,
    action: InitAction,
) -> bool {
    let unchanged = next == state && action == InitAction::Ignore;
    let fail = |e: InitError| next == InitState::Failed(e) && action == InitAction::Finish;
    match state {
        InitState::AwaitingMessage => match event {
            InitEvent::MessageRead(message) => init_classified(message, next, action),
            InitEvent::ReadFailed => fail(InitError::ReadFailed),
            _ => unchanged,
        },
        InitState::HeartbeatSelecting { message_id, user_token } => match event {
            InitEvent::EncryptionSelected => {
                &&& next == InitState::HeartbeatReplying
                &&& action == InitAction::WriteToAgent {
                    payload: proxy_payload(ProxyMessagePayloadTypeValue::HeartbeatSuccess, None, None, None),
                    ref_id: message_id,
                    user_token,
                    connection_id,
                }
            },
            InitEvent::EncryptionSelectFailed => fail(InitError::EncryptionSelectFailed),
            _ => unchanged,
        },
        InitState::HeartbeatReplying => match event {
            InitEvent::Written => next == InitState::Done(InitOutcome::Heartbeat) && action == InitAction::Finish,
            InitEvent::WriteFailed => fail(InitError::WriteFailed),
            _ => unchanged,
        },
        InitState::DomainSelecting { message_id, user_token, source_address, target_address, data } => match event {
            InitEvent::EncryptionSelected => {
                &&& next == InitState::DomainParsing { message_id, user_token, source_address, target_address }
                &&& action == InitAction::ParseDomainRequest { data }
            },
            InitEvent::EncryptionSelectFailed => fail(InitError::EncryptionSelectFailed),
            _ => unchanged,
        },
        InitState::DomainParsing { message_id, user_token, source_address, target_address } => match event {
            InitEvent::DomainRequestParsed(request) => {
                &&& next == InitState::DomainResolving { message_id, user_token, source_address, target_address, request }
                &&& action is ResolveDomain
                &&& action->ResolveDomain_name@ == normalized_domain_name(request.name@)
            },
            InitEvent::DomainRequestInvalid => fail(InitError::InvalidDomainRequest),
            _ => unchanged,
        },
        InitState::DomainResolving { message_id, user_token, source_address, target_address, request } => match event {
            InitEvent::DomainResolved(addresses) => {
                &&& next == InitState::DomainEncoding { message_id, user_token, source_address, target_address }
                &&& action is EncodeDomainResponse
                &&& action->response.id == request.id
                &&& action->response.name == request.name
                &&& action->response.addresses@ == ipv4_octets(addresses@)
            },
            InitEvent::DomainResolveFailed => {
                &&& next == InitState::DomainReportingFailure
                &&& action == InitAction::WriteToAgent {
                    payload: proxy_payload(
                        ProxyMessagePayloadTypeValue::DomainResolveFail,
                        source_address,
                        target_address,
                        None,
                    ),
                    ref_id: message_id,
                    user_token,
                    connection_id,
                }
            },
            _ => unchanged,
        },
        InitState::DomainEncoding { message_id, user_token, source_address, target_address } => match event {
            InitEvent::ResponseEncoded(bytes) => {
                &&& next == InitState::DomainReplying
                &&& action == InitAction::WriteToAgent {
                    payload: proxy_payload(
                        ProxyMessagePayloadTypeValue::DomainResolveSuccess,
                        source_address,
                        target_address,
                        Some(bytes),
                    ),
                    ref_id: message_id,
                    user_token,
                    connection_id,
                }
            },
            InitEvent::ResponseEncodeFailed => fail(InitError::ResponseEncodeFailed),
            _ => unchanged,
        },
        InitState::DomainReplying => match event {
            InitEvent::Written => next == InitState::Done(InitOutcome::DomainResolve) && action == InitAction::Finish,
            InitEvent::WriteFailed => fail(InitError::WriteFailed),
            _ => unchanged,
        },
        InitState::DomainReportingFailure => match event {
            InitEvent::Written => fail(InitError::DomainResolveFailed),
            InitEvent::WriteFailed => fail(InitError::WriteFailed),
            _ => unchanged,
        },
        InitState::TcpConnecting { message_id, user_token, source_address, target_address } => match event {
            InitEvent::TcpConnected => {
                &&& next == InitState::Done(InitOutcome::Tcp { message_id, user_token, source_address, target_address })
                &&& action == InitAction::Finish
            },
            InitEvent::TcpConnectFailed => fail(InitError::TcpConnectFailed),
            _ => unchanged,
        },
        InitState::UdpAssociating { message_id, user_token, source_address } => match event {
            InitEvent::UdpAssociated => {
                &&& next == InitState::Done(InitOutcome::Udp { message_id, user_token, source_address })
                &&& action == InitAction::Finish
            },
            InitEvent::UdpAssociateFailed => fail(InitError::UdpAssociateFailed),
            _ => unchanged,
        },
        InitState::Done(_) => unchanged,
        InitState::Failed(_) => unchanged,
    }
}

impl InitializeFlow {
    /// A flow for connection `connection_id` that waits at most
    /// `read_timeout_seconds` for the agent's first message.
    pub fn start(connection_id: String, read_timeout_seconds: u64) -> (res: (InitializeFlow, InitAction))
        ensures
            res.0.connection_id == connection_id,
            res.0.state == InitState::AwaitingMessage,
            res.1 == (InitAction::ReadAgentMessage { timeout_seconds: read_timeout_seconds }),
    {
        (
            InitializeFlow { connection_id, state: InitState::AwaitingMessage },
            InitAction::ReadAgentMessage { timeout_seconds: read_timeout_seconds },
        )
    }

    /// Whether the flow has ended, well or not.
    pub fn is_finished(&self) -> (res: bool)
        ensures
            res == (self.state is Done || self.state is Failed),
    {
        match self.state {
            InitState::Done(_) | InitState::Failed(_) => true,
            _ => false,
        }
    }

    fn to(state: InitState, action: InitAction) -> (res: (InitState, InitAction))
        ensures
            res.0 == state,
            res.1 == action,
    {
        (state, action)
    }

    fn fail(error: InitError) -> (res: (InitState, InitAction))
        ensures
            res.0 == InitState::Failed(error),
            res.1 == InitAction::Finish,
    {
        Self::to(InitState::Failed(error), InitAction::Finish)
    }

    fn classify(message: Option<AgentMessage>) -> (res: (InitState, InitAction))
        ensures
            init_classified(message, res.0, res.1),
    {
        let m = match message {
            None => return Self::fail(InitError::InvalidContent),
            Some(m) => m,
        };
        let AgentMessage { message_id, user_token, payload } = m;
        let p = match payload {
            None => return Self::fail(InitError::InvalidContent),
            Some(p) => p,
        };
        let MessagePayload { source_address, target_address, payload_type, data } = p;
        match payload_type {
            PayloadType::AgentPayload(AgentMessagePayloadTypeValue::Heartbeat) => {
                let token = user_token.clone();
                Self::to(
                    InitState::HeartbeatSelecting { message_id, user_token },
                    InitAction::SelectEncryption { user_token: token },
                )
            },
            PayloadType::AgentPayload(AgentMessagePayloadTypeValue::DomainResolve) => match data {
                None => Self::fail(InitError::MissingDomainData),
                Some(data) => {
                    let token = user_token.clone();
                    Self::to(
                        InitState::DomainSelecting { message_id, user_token, source_address, target_address, data },
                        InitAction::SelectEncryption { user_token: token },
                    )
                },
            },
            PayloadType::AgentPayload(AgentMessagePayloadTypeValue::TcpConnect) => {
                match (source_address, target_address) {
                    (Some(source), Some(target)) => {
                        let action = InitAction::StartTcpConnect {
                            message_id: message_id.clone(),
                            user_token: user_token.clone(),
                            source_address: source.duplicate(),
                            target_address: target.duplicate(),
                        };
                        Self::to(
                            InitState::TcpConnecting {
                                message_id,
                                user_token,
                                source_address: source,
                                target_address: target,
                            },
                            action,
                        )
                    },
                    _ => Self::fail(InitError::InvalidContent),
                }
            },
            PayloadType::AgentPayload(AgentMessagePayloadTypeValue::UdpAssociate) => {
                match target_address {
                    None => {
                        let source_copy = match &source_address {
                            Some(a) => Some(a.duplicate()),
                            None => None,
                        };
                        let action = InitAction::StartUdpAssociate {
                            message_id: message_id.clone(),
                            user_token: user_token.clone(),
                            source_address: source_copy,
                        };
                        Self::to(InitState::UdpAssociating { message_id, user_token, source_address }, action)
                    },
                    Some(_) => Self::fail(InitError::InvalidContent),
                }
            },
            _ => Self::fail(InitError::InvalidContent),
        }
    }

    /// One step of the first exchange with the agent.
    pub fn exec(self, event: InitEvent) -> (res: (InitializeFlow, InitAction))
        ensures
            res.0.connection_id == self.connection_id,
            init_step(self.connection_id, self.state, event, res.0.state, res.1),
    {
        let InitializeFlow { connection_id, state } = self;
        let (state, action) = Self::step(&connection_id, state, event);
        (InitializeFlow { connection_id, state }, action)
    }

    fn step(connection_id: &String, state: InitState, event: InitEvent) -> (res: (InitState, InitAction))
        ensures
            init_step(*connection_id, state, event, res.0, res.1),
    {
        match state {
            InitState::AwaitingMessage => match event {
                InitEvent::MessageRead(message) => Self::classify(message),
                InitEvent::ReadFailed => Self::fail(InitError::ReadFailed),
                _ => Self::to(InitState::AwaitingMessage, InitAction::Ignore),
            },
            InitState::HeartbeatSelecting { message_id, user_token } => match event {
                InitEvent::EncryptionSelected => {
                    let payload = MessagePayload::proxy(
                        ProxyMessagePayloadTypeValue::HeartbeatSuccess,
                        None,
                        None,
                        None,
                    );
                    Self::to(
                        InitState::HeartbeatReplying,
                        InitAction::WriteToAgent {
                            payload,
                            ref_id: message_id,
                            user_token,
                            connection_id: connection_id.clone(),
                        },
                    )
                },
                InitEvent::EncryptionSelectFailed => Self::fail(InitError::EncryptionSelectFailed),
                _ => Self::to(InitState::HeartbeatSelecting { message_id, user_token }, InitAction::Ignore),
            },
            InitState::HeartbeatReplying => match event {
                InitEvent::Written => Self::to(InitState::Done(InitOutcome::Heartbeat), InitAction::Finish),
                InitEvent::WriteFailed => Self::fail(InitError::WriteFailed),
                _ => Self::to(InitState::HeartbeatReplying, InitAction::Ignore),
            },
            InitState::DomainSelecting { message_id, user_token, source_address, target_address, data } => {
                match event {
                    InitEvent::EncryptionSelected => Self::to(
                        InitState::DomainParsing { message_id, user_token, source_address, target_address },
                        InitAction::ParseDomainRequest { data },
                    ),
                    InitEvent::EncryptionSelectFailed => Self::fail(InitError::EncryptionSelectFailed),
                    _ => Self::to(
                        InitState::DomainSelecting { message_id, user_token, source_address, target_address, data },
                        InitAction::Ignore,
                    ),
                }
            },
            InitState::DomainParsing { message_id, user_token, source_address, target_address } => match event {
                InitEvent::DomainRequestParsed(request) => {
                    let name = normalize_domain_name(request.name.as_str());
                    Self::to(
                        InitState::DomainResolving {
                            message_id,
                            user_token,
                            source_address,
                            target_address,
                            request,
                        },
                        InitAction::ResolveDomain { name },
                    )
                },
                InitEvent::DomainRequestInvalid => Self::fail(InitError::InvalidDomainRequest),
                _ => Self::to(
                    InitState::DomainParsing { message_id, user_token, source_address, target_address },
                    InitAction::Ignore,
                ),
            },
            InitState::DomainResolving { message_id, user_token, source_address, target_address, request } => {
                match event {
                    InitEvent::DomainResolved(addresses) => {
                        let found = ipv4_addresses(&addresses);
                        let DomainResolveRequest { id, name } = request;
                        let response = DomainResolveResponse { id, name, addresses: found };
                        Self::to(
                            InitState::DomainEncoding { message_id, user_token, source_address, target_address },
                            InitAction::EncodeDomainResponse { response },
                        )
                    },
                    InitEvent::DomainResolveFailed => {
                        let payload = MessagePayload::proxy(
                            ProxyMessagePayloadTypeValue::DomainResolveFail,
                            source_address,
                            target_address,
                            None,
                        );
                        Self::to(
                            InitState::DomainReportingFailure,
                            InitAction::WriteToAgent {
                            payload,
                            ref_id: message_id,
                            user_token,
                            connection_id: connection_id.clone(),
                        },
                        )
                    },
                    _ => Self::to(
                        InitState::DomainResolving {
                            message_id,
                            user_token,
                            source_address,
                            target_address,
                            request,
                        },
                        InitAction::Ignore,
                    ),
                }
            },
            InitState::DomainEncoding { message_id, user_token, source_address, target_address } => match event {
                InitEvent::ResponseEncoded(bytes) => {
                    let payload = MessagePayload::proxy(
                        ProxyMessagePayloadTypeValue::DomainResolveSuccess,
                        source_address,
                        target_address,
                        Some(bytes),
                    );
                    Self::to(
                        InitState::DomainReplying,
                        InitAction::WriteToAgent {
                            payload,
                            ref_id: message_id,
                            user_token,
                            connection_id: connection_id.clone(),
                        },
                    )
                },
                InitEvent::ResponseEncodeFailed => Self::fail(InitError::ResponseEncodeFailed),
                _ => Self::to(
                    InitState::DomainEncoding { message_id, user_token, source_address, target_address },
                    InitAction::Ignore,
                ),
            },
            InitState::DomainReplying => match event {
                InitEvent::Written => Self::to(InitState::Done(InitOutcome::DomainResolve), InitAction::Finish),
                InitEvent::WriteFailed => Self::fail(InitError::WriteFailed),
                _ => Self::to(InitState::DomainReplying, InitAction::Ignore),
            },
            InitState::DomainReportingFailure => match event {
                InitEvent::Written => Self::fail(InitError::DomainResolveFailed),
                InitEvent::WriteFailed => Self::fail(InitError::WriteFailed),
                _ => Self::to(InitState::DomainReportingFailure, InitAction::Ignore),
            },
            InitState::TcpConnecting { message_id, user_token, source_address, target_address } => match event {
                InitEvent::TcpConnected => Self::to(
                    InitState::Done(InitOutcome::Tcp { message_id, user_token, source_address, target_address }),
                    InitAction::Finish,
                ),
                InitEvent::TcpConnectFailed => Self::fail(InitError::TcpConnectFailed),
                _ => Self::to(
                    InitState::TcpConnecting { message_id, user_token, source_address, target_address },
                    InitAction::Ignore,
                ),
            },
            InitState::UdpAssociating { message_id, user_token, source_address } => match event {
                InitEvent::UdpAssociated => Self::to(
                    InitState::Done(InitOutcome::Udp { message_id, user_token, source_address }),
                    InitAction::Finish,
                ),
                InitEvent::UdpAssociateFailed => Self::fail(InitError::UdpAssociateFailed),
                _ => Self::to(
                    InitState::UdpAssociating { message_id, user_token, source_address },
                    InitAction::Ignore,
                ),
            },
            InitState::Done(outcome) => Self::to(InitState::Done(outcome), InitAction::Ignore),
            InitState::Failed(error) => Self::to(InitState::Failed(error), InitAction::Ignore),
        }
    }
}

/// The id and token of the agent's request that a state still answers.
pub open spec fn init_request(state: InitState) -> Option<(String, String)> {
    match state {
        InitState::HeartbeatSelecting { message_id, user_token } => Some((message_id, user_token)),
        InitState::DomainSelecting { message_id, user_token, .. } => Some((message_id, user_token)),
        InitState::DomainParsing { message_id, user_token, .. } => Some((message_id, user_token)),
        InitState::DomainResolving { message_id, user_token, .. } => Some((message_id, user_token)),
        InitState::DomainEncoding { message_id, user_token, .. } => Some((message_id, user_token)),
        InitState::TcpConnecting { message_id, user_token, .. } => Some((message_id, user_token)),
        InitState::UdpAssociating { message_id, user_token, .. } => Some((message_id, user_token)),
        _ => None,
    }
}

/// Every answer goes to the request being served: a write to the agent
/// refers to the id of the request that the state holds and is made for its
/// user, and a step that keeps serving a request keeps the same one.
pub proof fn lemma_answers_refer_to_request(
    connection_id: String,
    state: InitState,
    event: InitEvent,
    next: InitState,
    action: InitAction,
)
    requires
        init_step(connection_id, state, event, next, action),
    ensures
        action is WriteToAgent ==> init_request(state) == Some((action->ref_id, action->WriteToAgent_user_token))
            && action->WriteToAgent_connection_id == connection_id,
        !(state is AwaitingMessage) && init_request(next) is Some ==> init_request(next) == init_request(state),
{
}

/// The first message fixes the request: the state after it serves exactly
/// that message's id and user token, when it serves one at all.
pub proof fn lemma_first_message_fixes_request(
    connection_id: String,
    message: AgentMessage,
    next: InitState,
    action: InitAction,
)
    requires
        init_step(connection_id, InitState::AwaitingMessage, InitEvent::MessageRead(Some(message)), next, action),
    ensures
        init_request(next) is Some ==> init_request(next) == Some((message.message_id, message.user_token)),
{
}

/// A heartbeat is answered with a bare heartbeat success that refers to it,
/// once the encryption is chosen, and the flow ends well once that is
/// written.
pub proof fn lemma_heartbeat_exchange(
    connection_id: String,
    message: AgentMessage,
    s1: InitState,
    a1: InitAction,
    s2: InitState,
    a2: InitAction,
    s3: InitState,
    a3: InitAction,
)
    requires
        message.payload is Some,
        message.payload->0.payload_type == PayloadType::AgentPayload(AgentMessagePayloadTypeValue::Heartbeat),
        init_step(connection_id, InitState::AwaitingMessage, InitEvent::MessageRead(Some(message)), s1, a1),
        init_step(connection_id, s1, InitEvent::EncryptionSelected, s2, a2),
        init_step(connection_id, s2, InitEvent::Written, s3, a3),
    ensures
        a1 == (InitAction::SelectEncryption { user_token: message.user_token }),
        a2 == (InitAction::WriteToAgent {
            payload: proxy_payload(ProxyMessagePayloadTypeValue::HeartbeatSuccess, None, None, None),
            ref_id: message.message_id,
            user_token: message.user_token,
            connection_id,
        }),
        s3 == InitState::Done(InitOutcome::Heartbeat),
{
}

/// A name that cannot be resolved is reported to the agent as a failed
/// resolution between the request's own addresses, and the flow ends in
/// that error even when the report goes out.
pub proof fn lemma_failed_resolution_is_reported(
    connection_id: String,
    state: InitState,
    s1: InitState,
    a1: InitAction,
    s2: InitState,
    a2: InitAction,
)
    requires
        state is DomainResolving,
        init_step(connection_id, state, InitEvent::DomainResolveFailed, s1, a1),
        init_step(connection_id, s1, InitEvent::Written, s2, a2),
    ensures
        a1 is WriteToAgent,
        a1->payload == proxy_payload(
            ProxyMessagePayloadTypeValue::DomainResolveFail,
            state->DomainResolving_source_address,
            state->DomainResolving_target_address,
            None,
        ),
        s2 == InitState::Failed(InitError::DomainResolveFailed),
{
}

/// An ended flow stays ended: no event changes it or asks for anything.
pub proof fn lemma_init_end_is_final(
    connection_id: String,
    state: InitState,
    event: InitEvent,
    next: InitState,
    action: InitAction,
)
    requires
        state is Done || state is Failed,
        init_step(connection_id, state, event, next, action),
    ensures
        next == state,
        action == InitAction::Ignore,
{
}

/// A run of the first exchange: `states[i]` steps on `events[i]` to
/// `states[i + 1]`, asking for `actions[i]`.
pub open spec fn init_run(
    connection_id: String,
    states: Seq<InitState>,
    events: Seq<InitEvent>,
    actions: Seq<InitAction>,
) -> bool {
    &&& states.len() == events.len() + 1
    &&& actions.len() == events.len()
    &&& forall|i: int|
        #![trigger events[i]]
        0 <= i < events.len() ==> init_step(connection_id, states[i], events[i], states[i + 1], actions[i])
}

/// The states after the agent has been answered, or after the exchange ended.
pub open spec fn init_answered(state: InitState) -> bool {
    ||| state is HeartbeatReplying
    ||| state is DomainReplying
    ||| state is DomainReportingFailure
    ||| state is Done
    ||| state is Failed
}

proof fn lemma_answered_stays(
    connection_id: String,
    states: Seq<InitState>,
    events: Seq<InitEvent>,
    actions: Seq<InitAction>,
    i: int,
    k: int,
)
    requires
        init_run(connection_id, states, events, actions),
        0 <= i <= k <= events.len(),
        init_answered(states[i]),
    ensures
        init_answered(states[k]),
        k < events.len() ==> !(actions[k] is WriteToAgent),
    decreases k - i,
{
    if k > i {
        lemma_answered_stays(connection_id, states, events, actions, i, k - 1);
        assert(init_step(connection_id, states[k - 1], events[k - 1], states[k], actions[k - 1]));
    }
    if k < events.len() {
        assert(init_step(connection_id, states[k], events[k], states[k + 1], actions[k]));
    }
}

/// The first exchange answers the agent at most once: in any run, after
/// one write to the agent no step writes to it again.
pub proof fn lemma_at_most_one_answer(
    connection_id: String,
    states: Seq<InitState>,
    events: Seq<InitEvent>,
    actions: Seq<InitAction>,
    i: int,
    j: int,
)
    requires
        init_run(connection_id, states, events, actions),
        0 <= i < j < events.len(),
        actions[i] is WriteToAgent,
    ensures
        !(actions[j] is WriteToAgent),
{
    assert(init_step(connection_id, states[i], events[i], states[i + 1], actions[i]));
    assert(init_answered(states[i + 1]));
    lemma_answered_stays(connection_id, states, events, actions, i + 1, j);
}

/// A connect request is handed to the TCP connect flow with its own
/// addresses, and once the target is connected the exchange ends with that
/// request: its id, its user, its source as the source and its target as
/// the target.
pub proof fn lemma_tcp_connect_keeps_request(
    connection_id: String,
    message: AgentMessage,
    source_address: NetAddress,
    target_address: NetAddress,
    data: Option<Vec<u8>>,
    s1: InitState,
    a1: InitAction,
    s2: InitState,
    a2: InitAction,
)
    requires
        message.payload == Some(
            MessagePayload {
                source_address: Some(source_address),
                target_address: Some(target_address),
                payload_type: PayloadType::AgentPayload(AgentMessagePayloadTypeValue::TcpConnect),
                data,
            },
        ),
        init_step(connection_id, InitState::AwaitingMessage, InitEvent::MessageRead(Some(message)), s1, a1),
        init_step(connection_id, s1, InitEvent::TcpConnected, s2, a2),
    ensures
        a1 == (InitAction::StartTcpConnect {
            message_id: message.message_id,
            user_token: message.user_token,
            source_address,
            target_address,
        }),
        s2 == InitState::Done(
            InitOutcome::Tcp {
                message_id: message.message_id,
                user_token: message.user_token,
                source_address,
                target_address,
            },
        ),
        a2 == InitAction::Finish,
{
}

/// An associate request without a target is handed to the UDP associate
/// flow with its own source, and once associated the exchange ends with
/// that request.
pub proof fn lemma_udp_associate_keeps_request(
    connection_id: String,
    message: AgentMessage,
    source_address: Option<NetAddress>,
    data: Option<Vec<u8>>,
    s1: InitState,
    a1: InitAction,
    s2: InitState,
    a2: InitAction,
)
    requires
        message.payload == Some(
            MessagePayload {
                source_address,
                target_address: None,
                payload_type: PayloadType::AgentPayload(AgentMessagePayloadTypeValue::UdpAssociate),
                data,
            },
        ),
        init_step(connection_id, InitState::AwaitingMessage, InitEvent::MessageRead(Some(message)), s1, a1),
        init_step(connection_id, s1, InitEvent::UdpAssociated, s2, a2),
    ensures
        a1 == (InitAction::StartUdpAssociate {
            message_id: message.message_id,
            user_token: message.user_token,
            source_address,
        }),
        s2 == InitState::Done(
            InitOutcome::Udp { message_id: message.message_id, user_token: message.user_token, source_address },
        ),
{
}

/// A resolution request that goes well: the payload's data is what gets
/// parsed, the requested name loses at most one trailing dot before the
/// lookup, the answer names the request's id and name and the IPv4
/// addresses found, and it goes to the agent between the request's own
/// source and target, in answer to the request, after which the exchange
/// ends well.
pub proof fn lemma_domain_exchange(
    connection_id: String,
    message: AgentMessage,
    source_address: Option<NetAddress>,
    target_address: Option<NetAddress>,
    data: Vec<u8>,
    request: DomainResolveRequest,
    addresses: Vec<ResolvedAddress>,
    bytes: Vec<u8>,
    s1: InitState,
    a1: InitAction,
    s2: InitState,
    a2: InitAction,
    s3: InitState,
    a3: InitAction,
    s4: InitState,
    a4: InitAction,
    s5: InitState,
    a5: InitAction,
    s6: InitState,
    a6: InitAction,
)
    requires
        message.payload == Some(
            MessagePayload {
                source_address,
                target_address,
                payload_type: PayloadType::AgentPayload(AgentMessagePayloadTypeValue::DomainResolve),
                data: Some(data),
            },
        ),
        init_step(connection_id, InitState::AwaitingMessage, InitEvent::MessageRead(Some(message)), s1, a1),
        init_step(connection_id, s1, InitEvent::EncryptionSelected, s2, a2),
        init_step(connection_id, s2, InitEvent::DomainRequestParsed(request), s3, a3),
        init_step(connection_id, s3, InitEvent::DomainResolved(addresses), s4, a4),
        init_step(connection_id, s4, InitEvent::ResponseEncoded(bytes), s5, a5),
        init_step(connection_id, s5, InitEvent::Written, s6, a6),
    ensures
        a1 == (InitAction::SelectEncryption { user_token: message.user_token }),
        a2 == (InitAction::ParseDomainRequest { data }),
        a3 is ResolveDomain,
        request.name@.len() > 0 && request.name@.last() == '.' ==> a3->ResolveDomain_name@.push('.')
            == request.name@,
        !(request.name@.len() > 0 && request.name@.last() == '.') ==> a3->ResolveDomain_name@ == request.name@,
        a4 is EncodeDomainResponse,
        a4->response.id == request.id,
        a4->response.name == request.name,
        forall|octets: [u8; 4]|
            #[trigger] a4->response.addresses@.contains(octets) <==> addresses@.contains(ResolvedAddress::V4(octets)),
        a5 == (InitAction::WriteToAgent {
            payload: MessagePayload {
                source_address,
                target_address,
                payload_type: PayloadType::ProxyPayload(ProxyMessagePayloadTypeValue::DomainResolveSuccess),
                data: Some(bytes),
            },
            ref_id: message.message_id,
            user_token: message.user_token,
            connection_id,
        }),
        s6 == InitState::Done(InitOutcome::DomainResolve),
{
    crate::domain::lemma_ipv4_octets_exact(addresses@);
    let name = request.name@;
    if name.len() > 0 && name.last() == '.' {
        assert(name.drop_last().push('.') == name);
    }
}

} // verus!
