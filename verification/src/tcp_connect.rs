use vstd::prelude::*;

use crate::message::{
    proxy_payload, Endpoint, MessagePayload, NetAddress, PayloadType, ProxyMessagePayloadTypeValue,
};

verus! {

/// The step at which connecting to the target failed.
#[derive(Clone, Copy, Debug, PartialEq, Eq, Structural)]
pub enum TcpConnectError {
    EncryptionSelectFailed,
    TargetAddressInvalid,
    ConnectFailed,
    WriteFailed,
    CloseFailed,
}

/// How connecting to the target failed: the step, and the description of
/// the failure that the step met.
pub struct TcpConnectFailure {
    pub step: TcpConnectError,
    pub cause: String,
}

/// Where the connect flow stands.
pub enum TcpConnectState {
    SelectingEncryption,
    ResolvingTarget,
    Connecting,
    ReportingSuccess,
    /// Reporting a refused connection; `cause` is why it was refused.
    ReportingFailure { cause: String },
    /// Closing the agent's writer after a refused connection.
    Closing { cause: String },
    Done,
    Failed(TcpConnectFailure),
}

/// What the caller observed after performing the last action. A failure
/// carries the description of what went wrong.
pub enum TcpConnectEvent {
    EncryptionSelected,
    EncryptionSelectFailed(String),
    TargetResolved(Vec<Endpoint>),
    TargetResolveFailed(String),
    Connected,
    ConnectFailed(String),
    Written,
    WriteFailed(String),
    Closed,
    CloseFailed(String),
}

/// What the caller is to do next.
pub enum TcpConnectAction {
    SelectEncryption { user_token: String },
    /// Look the target's host name up.
    ResolveTarget { host: String, port: u16 },
    /// Open a TCP connection to the first of these endpoints that accepts,
    /// with `SO_LINGER` set to this many seconds.
    Connect { endpoints: Vec<Endpoint>, so_linger_seconds: u64 },
    /// Send the payload to the agent in a message of connection
    /// `connection_id` that refers to `ref_id`.
    WriteToAgent { payload: MessagePayload, ref_id: String, user_token: String, connection_id: String },
    /// Close the writing half of the agent connection.
    CloseAgentWriter,
    Finish,
    Ignore,
}

/// Connecting to the target that an agent asked for, and telling the agent
/// whether it worked.
pub struct TcpConnectFlow {
    pub connection_id: String,
    pub message_id: String,
    pub user_token: String,
    pub source_address: NetAddress,
    pub target_address: NetAddress,
    /// Where the agent connected from.
    pub agent_address: Endpoint,
    /// The `SO_LINGER` time for the target connection, in seconds.
    pub target_stream_so_linger: u64,
    pub state: TcpConnectState,
}

/// What a failed connect flow reports: the request it served, the agent,
/// and how it failed.
pub struct TcpConnectFlowError {
    pub connection_id: String,
    pub message_id: String,
    pub user_token: String,
    pub source_address: NetAddress,
    pub target_address: NetAddress,
    pub agent_address: Endpoint,
    pub step: TcpConnectError,
    pub source: String,
}

/// The error of a failed flow.
pub open spec fn connect_flow_error(flow: TcpConnectFlow, failure: TcpConnectFailure) -> TcpConnectFlowError {
    TcpConnectFlowError {
        connection_id: flow.connection_id,
        message_id: flow.message_id,
        user_token: flow.user_token,
        source_address: flow.source_address,
        target_address: flow.target_address,
        agent_address: flow.agent_address,
        step: failure.step,
        source: failure.cause,
    }
}

/// The answer to the agent once the connection attempt is over.
pub open spec fn connect_report(flow: TcpConnectFlow, kind: ProxyMessagePayloadTypeValue) -> TcpConnectAction {
    TcpConnectAction::WriteToAgent {
        payload: proxy_payload(kind, Some(flow.source_address), Some(flow.target_address), None),
        ref_id: flow.message_id,
        user_token: flow.user_token,
        connection_id: flow.connection_id,
    }
}

/// One step of the connect flow. Only the state changes; an event that does
/// not apply changes nothing and asks for nothing.
pub open spec fn tcp_connect_step(
    flow: TcpConnectFlow,
    event: TcpConnectEvent,
    next: TcpConnectFlow,
    action: TcpConnectAction,
) -> bool {
    let go = |s: TcpConnectState, a: TcpConnectAction| next.state == s && action == a;
    let fail = |step: TcpConnectError, cause: String|
        next.state == TcpConnectState::Failed(TcpConnectFailure { step, cause }) && action == TcpConnectAction::Finish;
    &&& next.connection_id == flow.connection_id
    &&& next.agent_address == flow.agent_address
    &&& next.target_stream_so_linger == flow.target_stream_so_linger
    &&& next.message_id == flow.message_id
    &&& next.user_token == flow.user_token
    &&& next.source_address == flow.source_address
    &&& next.target_address == flow.target_address
    &&& match (flow.state, event) {
        (TcpConnectState::SelectingEncryption, TcpConnectEvent::EncryptionSelected) => {
            match flow.target_address {
                NetAddress::Domain { host, port } => {
                    &&& next.state == TcpConnectState::ResolvingTarget
                    &&& action == TcpConnectAction::ResolveTarget { host, port }
                },
                _ => {
                    &&& next.state == TcpConnectState::Connecting
                    &&& action is Connect
                    &&& action->endpoints@ == seq![flow.target_address.spec_endpoint()->0]
                    &&& action->so_linger_seconds == flow.target_stream_so_linger
                },
            }
        },
        (TcpConnectState::SelectingEncryption, TcpConnectEvent::EncryptionSelectFailed(cause)) => fail(
            TcpConnectError::EncryptionSelectFailed,
            cause,
        ),
        (TcpConnectState::ResolvingTarget, TcpConnectEvent::TargetResolved(endpoints)) => go(
            TcpConnectState::Connecting,
            TcpConnectAction::Connect { endpoints, so_linger_seconds: flow.target_stream_so_linger },
        ),
        (TcpConnectState::ResolvingTarget, TcpConnectEvent::TargetResolveFailed(cause)) => fail(
            TcpConnectError::TargetAddressInvalid,
            cause,
        ),
        (TcpConnectState::Connecting, TcpConnectEvent::Connected) => go(
            TcpConnectState::ReportingSuccess,
            connect_report(flow, ProxyMessagePayloadTypeValue::TcpConnectSuccess),
        ),
        (TcpConnectState::Connecting, TcpConnectEvent::ConnectFailed(cause)) => go(
            TcpConnectState::ReportingFailure { cause },
            connect_report(flow, ProxyMessagePayloadTypeValue::TcpConnectFail),
        ),
        (TcpConnectState::ReportingSuccess, TcpConnectEvent::Written) => go(
            TcpConnectState::Done,
            TcpConnectAction::Finish,
        ),
        (TcpConnectState::ReportingSuccess, TcpConnectEvent::WriteFailed(cause)) => fail(
            TcpConnectError::WriteFailed,
            cause,
        ),
        (TcpConnectState::ReportingFailure { cause }, TcpConnectEvent::Written) => go(
            TcpConnectState::Closing { cause },
            TcpConnectAction::CloseAgentWriter,
        ),
        (TcpConnectState::ReportingFailure { .. }, TcpConnectEvent::WriteFailed(cause)) => fail(
            TcpConnectError::WriteFailed,
            cause,
        ),
        (TcpConnectState::Closing { cause }, TcpConnectEvent::Closed) => fail(TcpConnectError::ConnectFailed, cause),
        (TcpConnectState::Closing { .. }, TcpConnectEvent::CloseFailed(cause)) => fail(
            TcpConnectError::CloseFailed,
            cause,
        ),
        _ => go(flow.state, TcpConnectAction::Ignore),
    }
}

impl TcpConnectFlow {
    /// A flow for the agent's request `message_id`; its first move is to pick
    /// the payload encryption.
    pub fn new(
        connection_id: String,
        message_id: String,
        user_token: String,
        source_address: NetAddress,
        target_address: NetAddress,
        agent_address: Endpoint,
        target_stream_so_linger: u64,
    ) -> (res: (TcpConnectFlow, TcpConnectAction))
        ensures
            res.0 == (TcpConnectFlow {
                connection_id,
                message_id,
                user_token,
                source_address,
                target_address,
                agent_address,
                target_stream_so_linger,
                state: TcpConnectState::SelectingEncryption,
            }),
            res.1 == (TcpConnectAction::SelectEncryption { user_token }),
    {
        let token = user_token.clone();
        (
            TcpConnectFlow {
                connection_id,
                message_id,
                user_token,
                source_address,
                target_address,
                agent_address,
                target_stream_so_linger,
                state: TcpConnectState::SelectingEncryption,
            },
            TcpConnectAction::SelectEncryption { user_token: token },
        )
    }

    fn report(&self, kind: ProxyMessagePayloadTypeValue) -> (res: TcpConnectAction)
        ensures
            res == connect_report(*self, kind),
    {
        let payload = MessagePayload::proxy(
            kind,
            Some(self.source_address.duplicate()),
            Some(self.target_address.duplicate()),
            None,
        );
        TcpConnectAction::WriteToAgent {
            payload,
            ref_id: self.message_id.clone(),
            user_token: self.user_token.clone(),
            connection_id: self.connection_id.clone(),
        }
    }

    /// The error that a failed flow reports, `None` while it has not failed.
    pub fn error(&self) -> (res: Option<TcpConnectFlowError>)
        ensures
            match self.state {
                TcpConnectState::Failed(failure) => res == Some(connect_flow_error(*self, failure)),
                _ => res is None,
            },
    {
        match &self.state {
            TcpConnectState::Failed(failure) => Some(
                TcpConnectFlowError {
                    connection_id: self.connection_id.clone(),
                    message_id: self.message_id.clone(),
                    user_token: self.user_token.clone(),
                    source_address: self.source_address.duplicate(),
                    target_address: self.target_address.duplicate(),
                    agent_address: self.agent_address,
                    step: failure.step,
                    source: failure.cause.clone(),
                },
            ),
            _ => None,
        }
    }

    fn failed(step: TcpConnectError, cause: String) -> (res: (TcpConnectState, TcpConnectAction))
        ensures
            res.0 == TcpConnectState::Failed(TcpConnectFailure { step, cause }),
            res.1 == TcpConnectAction::Finish,
    {
        (TcpConnectState::Failed(TcpConnectFailure { step, cause }), TcpConnectAction::Finish)
    }

    /// One step of the connect flow.
    pub fn exec(self, event: TcpConnectEvent) -> (res: (TcpConnectFlow, TcpConnectAction))
        ensures
            tcp_connect_step(self, event, res.0, res.1),
    {
        let ghost before = self;
        let mut flow = self;
        let mut state = TcpConnectState::Done;
        std::mem::swap(&mut state, &mut flow.state);
        let (state, action) = match (state, event) {
            (TcpConnectState::SelectingEncryption, TcpConnectEvent::EncryptionSelected) => {
                match flow.target_address.endpoint() {
                    Some(endpoint) => {
                        let mut endpoints: Vec<Endpoint> = Vec::new();
                        endpoints.push(endpoint);
                        assert(endpoints@ == seq![endpoint]);
                        let so_linger_seconds = flow.target_stream_so_linger;
                        (TcpConnectState::Connecting, TcpConnectAction::Connect { endpoints, so_linger_seconds })
                    },
                    None => {
                        let action = match &flow.target_address {
                            NetAddress::Domain { host, port } => TcpConnectAction::ResolveTarget {
                                host: host.clone(),
                                port: *port,
                            },
                            _ => TcpConnectAction::Ignore,
                        };
                        (TcpConnectState::ResolvingTarget, action)
                    },
                }
            },
            (TcpConnectState::SelectingEncryption, TcpConnectEvent::EncryptionSelectFailed(cause)) => Self::failed(
                TcpConnectError::EncryptionSelectFailed,
                cause,
            ),
            (TcpConnectState::ResolvingTarget, TcpConnectEvent::TargetResolved(endpoints)) => {
                let so_linger_seconds = flow.target_stream_so_linger;
                (TcpConnectState::Connecting, TcpConnectAction::Connect { endpoints, so_linger_seconds })
            },
            (TcpConnectState::ResolvingTarget, TcpConnectEvent::TargetResolveFailed(cause)) => Self::failed(
                TcpConnectError::TargetAddressInvalid,
                cause,
            ),
            (TcpConnectState::Connecting, TcpConnectEvent::Connected) => {
                let action = flow.report(ProxyMessagePayloadTypeValue::TcpConnectSuccess);
                (TcpConnectState::ReportingSuccess, action)
            },
            (TcpConnectState::Connecting, TcpConnectEvent::ConnectFailed(cause)) => {
                let action = flow.report(ProxyMessagePayloadTypeValue::TcpConnectFail);
                (TcpConnectState::ReportingFailure { cause }, action)
            },
            (TcpConnectState::ReportingSuccess, TcpConnectEvent::Written) => (
                TcpConnectState::Done,
                TcpConnectAction::Finish,
            ),
            (TcpConnectState::ReportingSuccess, TcpConnectEvent::WriteFailed(cause)) => Self::failed(
                TcpConnectError::WriteFailed,
                cause,
            ),
            (TcpConnectState::ReportingFailure { cause }, TcpConnectEvent::Written) => (
                TcpConnectState::Closing { cause },
                TcpConnectAction::CloseAgentWriter,
            ),
            (TcpConnectState::ReportingFailure { .. }, TcpConnectEvent::WriteFailed(cause)) => Self::failed(
                TcpConnectError::WriteFailed,
                cause,
            ),
            (TcpConnectState::Closing { cause }, TcpConnectEvent::Closed) => Self::failed(
                TcpConnectError::ConnectFailed,
                cause,
            ),
            (TcpConnectState::Closing { .. }, TcpConnectEvent::CloseFailed(cause)) => Self::failed(
                TcpConnectError::CloseFailed,
                cause,
            ),
            (state, _) => (state, TcpConnectAction::Ignore),
        };
        flow.state = state;
        proof {
            assert(flow == (TcpConnectFlow { state: flow.state, ..before }));
        }
        (flow, action)
    }
}

/// Once the encryption is chosen, the flow connects straight to an IP
/// target, to exactly its address and port, with the configured linger,
/// and looks a host name up by its own name and port first; what the lookup
/// finds is what it connects to.
pub proof fn lemma_connects_to_the_requested_target(
    flow: TcpConnectFlow,
    next: TcpConnectFlow,
    action: TcpConnectAction,
    endpoints: Vec<Endpoint>,
    after: TcpConnectFlow,
    action2: TcpConnectAction,
)
    requires
        flow.state == TcpConnectState::SelectingEncryption,
        tcp_connect_step(flow, TcpConnectEvent::EncryptionSelected, next, action),
    ensures
        flow.target_address matches NetAddress::IpV4 { ip, port } ==> next.state == TcpConnectState::Connecting
            && action is Connect && action->endpoints@ == seq![Endpoint::V4 { ip, port }]
            && action->so_linger_seconds == flow.target_stream_so_linger,
        flow.target_address matches NetAddress::IpV6 { ip, port } ==> next.state == TcpConnectState::Connecting
            && action is Connect && action->endpoints@ == seq![Endpoint::V6 { ip, port }]
            && action->so_linger_seconds == flow.target_stream_so_linger,
        flow.target_address matches NetAddress::Domain { host, port } ==> next.state == TcpConnectState::ResolvingTarget
            && action == (TcpConnectAction::ResolveTarget { host, port }),
        flow.target_address is Domain && tcp_connect_step(next, TcpConnectEvent::TargetResolved(endpoints), after, action2)
            ==> action2 == (TcpConnectAction::Connect { endpoints, so_linger_seconds: flow.target_stream_so_linger }),
{
}

/// The agent hears of success only after the target accepted: a step that
/// writes a connect success is the step on `Connected` from `Connecting`,
/// and one that writes a connect failure is the step on `ConnectFailed`.
/// Either report names both of the request's addresses and refers to it.
pub proof fn lemma_reports_follow_connect_outcome(
    flow: TcpConnectFlow,
    event: TcpConnectEvent,
    next: TcpConnectFlow,
    action: TcpConnectAction,
)
    requires
        tcp_connect_step(flow, event, next, action),
        action is WriteToAgent,
    ensures
        flow.state == TcpConnectState::Connecting,
        action->payload.source_address == Some(flow.source_address),
        action->payload.target_address == Some(flow.target_address),
        action->ref_id == flow.message_id,
        action->WriteToAgent_connection_id == flow.connection_id,
        action->payload.payload_type == PayloadType::ProxyPayload(ProxyMessagePayloadTypeValue::TcpConnectSuccess)
            <==> event is Connected,
        action->payload.payload_type == PayloadType::ProxyPayload(ProxyMessagePayloadTypeValue::TcpConnectFail)
            <==> event is ConnectFailed,
{
}

/// The flow ends well only by writing the success report: `Done` is reached
/// from `ReportingSuccess` on `Written` and from nowhere else.
pub proof fn lemma_done_only_after_success_report(
    flow: TcpConnectFlow,
    event: TcpConnectEvent,
    next: TcpConnectFlow,
    action: TcpConnectAction,
)
    requires
        tcp_connect_step(flow, event, next, action),
        next.state == TcpConnectState::Done,
        flow.state != TcpConnectState::Done,
    ensures
        flow.state == TcpConnectState::ReportingSuccess,
        event is Written,
{
}

/// A refused connection ends in the connect error, with the refusal as its
/// cause, once the failure report is written and the agent's writer closed.
pub proof fn lemma_refused_connection_fails(
    flow: TcpConnectFlow,
    cause: String,
    f1: TcpConnectFlow,
    a1: TcpConnectAction,
    f2: TcpConnectFlow,
    a2: TcpConnectAction,
    f3: TcpConnectFlow,
    a3: TcpConnectAction,
)
    requires
        flow.state == TcpConnectState::Connecting,
        tcp_connect_step(flow, TcpConnectEvent::ConnectFailed(cause), f1, a1),
        tcp_connect_step(f1, TcpConnectEvent::Written, f2, a2),
        tcp_connect_step(f2, TcpConnectEvent::Closed, f3, a3),
    ensures
        a1 == connect_report(flow, ProxyMessagePayloadTypeValue::TcpConnectFail),
        a2 == TcpConnectAction::CloseAgentWriter,
        f3.state == TcpConnectState::Failed(
            TcpConnectFailure { step: TcpConnectError::ConnectFailed, cause: cause },
        ),
{
}

} // verus!
