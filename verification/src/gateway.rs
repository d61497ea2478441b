//! The call gateway's data model.
//!
//! A façade operation builds a [`PreparedCall`]: the service address, the
//! encoded request body, an optional out-of-band blob, and the fixed timeout.
//! The embedding program performs the send and the synchronous wait, and
//! reports back a [`CallOutcome`]: either the correlated raw response (body
//! plus optional blob) or the way the transport failed. Resolving an outcome
//! into a typed result is verified code in the service modules.

use crate::addr::Address;
use crate::addr::AddressV;
use vstd::prelude::*;

verus! {

/// Every call waits this long for its correlated response before failing
/// with [`TransportError::Timeout`].
pub const CALL_TIMEOUT_SECS: u64 = 5;

/// How a call failed before any response could be interpreted. Distinct from
/// every business error a service reports: a timeout or a failed send is
/// never presented as, say, a missing key.
#[derive(Debug, PartialEq, Eq)]
pub enum TransportError {
    /// The send itself failed: destination unreachable or refused at the
    /// transport layer. Surfaced immediately, without consuming the timeout.
    SendFailed { info: String },
    /// No correlated response arrived within the timeout.
    Timeout,
    /// Something other than a response to this call was delivered.
    UnexpectedMessage,
}

pub enum TransportErrorV {
    SendFailed { info: Seq<char> },
    Timeout,
    UnexpectedMessage,
}

impl View for TransportError {
    type V = TransportErrorV;

    open spec fn view(&self) -> TransportErrorV {
        match self {
            TransportError::SendFailed { info } => TransportErrorV::SendFailed { info: info@ },
            TransportError::Timeout => TransportErrorV::Timeout,
            TransportError::UnexpectedMessage => TransportErrorV::UnexpectedMessage,
        }
    }
}

/// A protocol violation: the response arrived but does not fit what the call
/// site is owed. Never coerced into a default value or an empty success.
#[derive(Debug, PartialEq, Eq, Clone, Copy, Structural)]
pub enum ProtocolError {
    /// The response body failed structural decoding.
    MalformedResponse,
    /// The response decoded to a variant the originating call never yields.
    UnexpectedVariant,
    /// The response signals an attached blob, but none was delivered.
    MissingBlob,
    /// The attached blob failed to parse into the expected payload shape.
    MalformedBlob,
}

impl View for ProtocolError {
    type V = ProtocolError;

    open spec fn view(&self) -> ProtocolError {
        *self
    }
}

/// Everything a façade call can fail with: a transport failure, a protocol
/// violation, or a typed business error `E` reported by the service itself.
#[derive(Debug, PartialEq, Eq)]
pub enum CallError<E> {
    Transport(TransportError),
    Protocol(ProtocolError),
    Service(E),
}

pub enum CallErrorV<EV> {
    Transport(TransportErrorV),
    Protocol(ProtocolError),
    Service(EV),
}

impl<E: View> View for CallError<E> {
    type V = CallErrorV<E::V>;

    open spec fn view(&self) -> CallErrorV<E::V> {
        match self {
            CallError::Transport(t) => CallErrorV::Transport(t@),
            CallError::Protocol(p) => CallErrorV::Protocol(*p),
            CallError::Service(e) => CallErrorV::Service(e@),
        }
    }
}

/// A request ready to be dispatched: where to send it, the encoded envelope,
/// the optional bulk payload, and the wait budget.
pub struct PreparedCall {
    pub target: Address,
    pub body: Vec<u8>,
    pub blob: Option<Vec<u8>>,
    pub timeout_secs: u64,
}

pub struct PreparedCallV {
    pub target: AddressV,
    pub body: Seq<u8>,
    pub blob: Option<Seq<u8>>,
    pub timeout_secs: u64,
}

impl View for PreparedCall {
    type V = PreparedCallV;

    open spec fn view(&self) -> PreparedCallV {
        PreparedCallV {
            target: self.target@,
            body: self.body@,
            blob: match &self.blob {
                Some(b) => Some(b@),
                None => None,
            },
            timeout_secs: self.timeout_secs,
        }
    }
}

/// What the transport hands back for one dispatched call.
#[derive(Debug, PartialEq, Eq)]
pub enum CallOutcome {
    /// The correlated response arrived: its envelope body, and the blob that
    /// accompanied it, if any.
    Response { body: Vec<u8>, blob: Option<Vec<u8>> },
    /// The send failed outright.
    SendFailed { info: String },
    /// The wait elapsed with no correlated response.
    Timeout,
    /// Something other than a response to this call was delivered.
    UnexpectedMessage,
}

pub enum CallOutcomeV {
    Response { body: Seq<u8>, blob: Option<Seq<u8>> },
    SendFailed { info: Seq<char> },
    Timeout,
    UnexpectedMessage,
}

impl View for CallOutcome {
    type V = CallOutcomeV;

    open spec fn view(&self) -> CallOutcomeV {
        match self {
            CallOutcome::Response { body, blob } => CallOutcomeV::Response {
                body: body@,
                blob: match blob {
                    Some(b) => Some(b@),
                    None => None,
                },
            },
            CallOutcome::SendFailed { info } => CallOutcomeV::SendFailed { info: info@ },
            CallOutcome::Timeout => CallOutcomeV::Timeout,
            CallOutcome::UnexpectedMessage => CallOutcomeV::UnexpectedMessage,
        }
    }
}

/// The transport layer of resolution: a delivered response passes through,
/// every transport failure becomes the matching [`TransportErrorV`]. A
/// timeout or failed send can never reach the business-error path.
pub open spec fn spec_transport(o: CallOutcomeV) -> Result<
    (Seq<u8>, Option<Seq<u8>>),
    TransportErrorV,
> {
    match o {
        CallOutcomeV::Response { body, blob } => Ok((body, blob)),
        CallOutcomeV::SendFailed { info } => Err(TransportErrorV::SendFailed { info }),
        CallOutcomeV::Timeout => Err(TransportErrorV::Timeout),
        CallOutcomeV::UnexpectedMessage => Err(TransportErrorV::UnexpectedMessage),
    }
}

/// Splits an outcome into the delivered response or the transport failure.
pub fn transport_result(o: CallOutcome) -> (r: Result<(Vec<u8>, Option<Vec<u8>>), TransportError>)
    ensures
        match spec_transport(o@) {
            Ok((body, blob)) => r matches Ok(p) && p.0@ == body && (match (p.1, blob) {
                (Some(b), Some(sb)) => b@ == sb,
                (None, None) => true,
                _ => false,
            }),
            Err(e) => r matches Err(t) && t@ == e,
        },
{
    match o {
        CallOutcome::Response { body, blob } => Ok((body, blob)),
        CallOutcome::SendFailed { info } => Err(TransportError::SendFailed { info }),
        CallOutcome::Timeout => Err(TransportError::Timeout),
        CallOutcome::UnexpectedMessage => Err(TransportError::UnexpectedMessage),
    }
}

} // verus!

