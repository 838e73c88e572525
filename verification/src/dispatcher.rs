use vstd::prelude::*;

use crate::message::{AgentMessagePayloadTypeValue, MessagePayload, PayloadType};
use crate::tunnel::TcpTunnel;

verus! {

/// Why a message could not be dispatched.
#[derive(Clone, Copy, Debug, PartialEq, Eq, Structural)]
pub enum DispatchError {
    /// The message has no payload, or one that no service takes.
    CodecError,
    /// The payload bytes could not be decoded.
    PayloadDecodeFailed,
}

/// A message from the agent, with its payload already decoded when the
/// decoding worked.
pub struct Message {
    pub id: String,
    pub ref_id: String,
    pub connection_id: String,
    pub user_token: String,
    pub payload: Option<Result<MessagePayload, DispatchError>>,
}

pub struct TunnelDispatcherRequest {
    pub agent_message: Message,
    pub agent_tcp_tunnel: TcpTunnel,
}

pub struct TunnelDispatcherResponse;

/// Hands each agent message to the service for its payload type.
pub struct TunnelDispatcherService;

/// The payload types that no service serves yet: dispatching one of them
/// is not defined.
pub open spec fn unserved_payload_type(payload_type: PayloadType) -> bool {
    ||| payload_type == PayloadType::AgentPayload(AgentMessagePayloadTypeValue::DomainResolve)
    ||| payload_type == PayloadType::AgentPayload(AgentMessagePayloadTypeValue::Heartbeat)
    ||| payload_type == PayloadType::AgentPayload(AgentMessagePayloadTypeValue::UdpAssociate)
}

/// Whether a message is one that can be dispatched.
pub open spec fn dispatchable(message: Message) -> bool {
    match message.payload {
        Some(Ok(payload)) => !unserved_payload_type(payload.payload_type),
        _ => true,
    }
}

/// What dispatching a message answers: a TCP connect goes to the TCP
/// service; a message without a payload, or with a payload of any other
/// type, is a codec error; a payload that could not be decoded is answered
/// with the error its decoding gave.
pub open spec fn dispatch_result(message: Message) -> Result<(), DispatchError> {
    match message.payload {
        None => Err(DispatchError::CodecError),
        Some(Err(error)) => Err(error),
        Some(Ok(payload)) => if payload.payload_type == PayloadType::AgentPayload(
            AgentMessagePayloadTypeValue::TcpConnect,
        ) {
            Ok(())
        } else {
            Err(DispatchError::CodecError)
        },
    }
}

impl TunnelDispatcherService {
    /// Whether the payload of `message` is of a type that no service serves.
    pub fn is_unserved(message: &Message) -> (res: bool)
        ensures
            res == !dispatchable(*message),
    {
        match &message.payload {
            Some(Ok(payload)) => {
                payload.payload_type == PayloadType::AgentPayload(AgentMessagePayloadTypeValue::DomainResolve)
                    || payload.payload_type == PayloadType::AgentPayload(AgentMessagePayloadTypeValue::Heartbeat)
                    || payload.payload_type == PayloadType::AgentPayload(AgentMessagePayloadTypeValue::UdpAssociate)
            },
            _ => false,
        }
    }

    /// Dispatches one agent message.
    pub fn call(&mut self, request: TunnelDispatcherRequest) -> (res: Result<TunnelDispatcherResponse, DispatchError>)
        requires
            dispatchable(request.agent_message),
        ensures
            res is Ok <==> dispatch_result(request.agent_message) is Ok,
            res is Err ==> dispatch_result(request.agent_message) == Err::<(), DispatchError>(res->Err_0),
    {
        let payload = match request.agent_message.payload {
            None => return Err(DispatchError::CodecError),
            Some(Err(error)) => return Err(error),
            Some(Ok(payload)) => payload,
        };
        if payload.payload_type == PayloadType::AgentPayload(AgentMessagePayloadTypeValue::TcpConnect) {
            Ok(TunnelDispatcherResponse)
        } else {
            Err(DispatchError::CodecError)
        }
    }
}

/// How messages are answered: a decoded TCP connect is accepted, a message
/// without a payload is a codec error, a payload that failed to decode is
/// answered with its own decoding error, and a decoded payload of any other
/// served type is a codec error.
pub proof fn lemma_dispatch_answers(message: Message)
    ensures
        message.payload is None ==> dispatch_result(message) == Err::<(), DispatchError>(DispatchError::CodecError),
        message.payload matches Some(Err(error)) ==> dispatch_result(message) == Err::<(), DispatchError>(error),
        message.payload matches Some(Ok(payload)) ==> (dispatch_result(message) is Ok <==> payload.payload_type
            == PayloadType::AgentPayload(AgentMessagePayloadTypeValue::TcpConnect)),
        message.payload matches Some(Ok(payload)) && payload.payload_type != PayloadType::AgentPayload(
            AgentMessagePayloadTypeValue::TcpConnect,
        ) ==> dispatch_result(message) == Err::<(), DispatchError>(DispatchError::CodecError),
{
}

/// The service for TCP tunnels.
pub struct TcpService;

impl TcpService {
    pub fn new() -> (res: TcpService)
        ensures
            res == TcpService,
    {
        TcpService {}
    }
}

} // verus!
