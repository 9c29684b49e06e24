//! Actuator payloads, actuation requests and the taxonomy of their outcomes.
use vstd::prelude::*;
use crate::text::{decimal, signed_decimal, u64_text, i64_text};

verus! {

/// The payload a caller sends to an actuator; its meaning is up to the device.
#[derive(Debug)]
pub enum ActuatorValue {
    Signal,
    Unsigned(u64),
    Signed(i64),
    /// A double, as its IEEE-754 bit pattern.
    Double(u64),
    String(String),
}

impl Clone for ActuatorValue {
    fn clone(&self) -> (r: Self)
        ensures
            r == *self,
    {
        match self {
            ActuatorValue::Signal => ActuatorValue::Signal,
            ActuatorValue::Unsigned(v) => ActuatorValue::Unsigned(*v),
            ActuatorValue::Signed(v) => ActuatorValue::Signed(*v),
            ActuatorValue::Double(v) => ActuatorValue::Double(*v),
            ActuatorValue::String(s) => ActuatorValue::String(s.clone()),
        }
    }
}

/// How a value is shown to people. Doubles are left to the caller, whose
/// float formatting decides their decimal form.
pub open spec fn plain_text_of(v: ActuatorValue) -> Option<Seq<char>> {
    match v {
        ActuatorValue::Signal => Some("<signal>"@),
        ActuatorValue::Unsigned(n) => Some(decimal(n as nat)),
        ActuatorValue::Signed(n) => Some(signed_decimal(n as int)),
        ActuatorValue::Double(_) => None,
        ActuatorValue::String(s) => Some(s@),
    }
}

impl ActuatorValue {
    /// The text of the value, for every variant but `Double`.
    pub fn plain_text(&self) -> (r: Option<String>)
        ensures
            r is None <==> plain_text_of(*self) is None,
            r matches Some(t) ==> plain_text_of(*self) == Some(t@),
    {
        match self {
            ActuatorValue::Signal => Some(String::from_str("<signal>")),
            ActuatorValue::Unsigned(n) => Some(u64_text(*n)),
            ActuatorValue::Signed(n) => Some(i64_text(*n)),
            ActuatorValue::Double(_) => None,
            ActuatorValue::String(s) => Some(s.clone()),
        }
    }
}

/// Every outcome an actuation can have; a device answers each request with
/// exactly one of these.
#[derive(Debug, PartialEq, Eq)]
pub enum ActuationResult {
    Success,
    Ignored,
    NoResponse,
    BadRequest { reason: String },
    ActuatorError { error_code: i64, error_description: String },
}

impl Clone for ActuationResult {
    fn clone(&self) -> (r: Self)
        ensures
            r == *self,
    {
        match self {
            ActuationResult::Success => ActuationResult::Success,
            ActuationResult::Ignored => ActuationResult::Ignored,
            ActuationResult::NoResponse => ActuationResult::NoResponse,
            ActuationResult::BadRequest { reason } => ActuationResult::BadRequest {
                reason: reason.clone(),
            },
            ActuationResult::ActuatorError { error_code, error_description } => {
                ActuationResult::ActuatorError {
                    error_code: *error_code,
                    error_description: error_description.clone(),
                }
            },
        }
    }
}

/// The wire form of an [`ActuationResult`]: the same information, in the
/// shape that the binary codec can carry.
#[derive(Debug, PartialEq, Eq)]
pub enum RemoteActuationResponse {
    Success,
    Ignored,
    NoResponse,
    BadRequest { reason: String },
    ActuatorError { error_code: i64, error_description: String },
}

impl Clone for RemoteActuationResponse {
    fn clone(&self) -> (r: Self)
        ensures
            r == *self,
    {
        match self {
            RemoteActuationResponse::Success => RemoteActuationResponse::Success,
            RemoteActuationResponse::Ignored => RemoteActuationResponse::Ignored,
            RemoteActuationResponse::NoResponse => RemoteActuationResponse::NoResponse,
            RemoteActuationResponse::BadRequest { reason } => RemoteActuationResponse::BadRequest {
                reason: reason.clone(),
            },
            RemoteActuationResponse::ActuatorError { error_code, error_description } => {
                RemoteActuationResponse::ActuatorError {
                    error_code: *error_code,
                    error_description: error_description.clone(),
                }
            },
        }
    }
}

pub open spec fn result_of_remote(r: RemoteActuationResponse) -> ActuationResult {
    match r {
        RemoteActuationResponse::Success => ActuationResult::Success,
        RemoteActuationResponse::Ignored => ActuationResult::Ignored,
        RemoteActuationResponse::NoResponse => ActuationResult::NoResponse,
        RemoteActuationResponse::BadRequest { reason } => ActuationResult::BadRequest { reason },
        RemoteActuationResponse::ActuatorError { error_code, error_description } => {
            ActuationResult::ActuatorError { error_code, error_description }
        },
    }
}

pub open spec fn remote_of_result(r: ActuationResult) -> RemoteActuationResponse {
    match r {
        ActuationResult::Success => RemoteActuationResponse::Success,
        ActuationResult::Ignored => RemoteActuationResponse::Ignored,
        ActuationResult::NoResponse => RemoteActuationResponse::NoResponse,
        ActuationResult::BadRequest { reason } => RemoteActuationResponse::BadRequest { reason },
        ActuationResult::ActuatorError { error_code, error_description } => {
            RemoteActuationResponse::ActuatorError { error_code, error_description }
        },
    }
}

impl From<RemoteActuationResponse> for ActuationResult {
    fn from(remote: RemoteActuationResponse) -> (r: Self)
        ensures
            r == result_of_remote(remote),
    {
        match remote {
            RemoteActuationResponse::Success => ActuationResult::Success,
            RemoteActuationResponse::Ignored => ActuationResult::Ignored,
            RemoteActuationResponse::NoResponse => ActuationResult::NoResponse,
            RemoteActuationResponse::BadRequest { reason } => ActuationResult::BadRequest { reason },
            RemoteActuationResponse::ActuatorError { error_code, error_description } => {
                ActuationResult::ActuatorError { error_code, error_description }
            },
        }
    }
}

impl vstd::std_specs::convert::FromSpecImpl<RemoteActuationResponse> for ActuationResult {
    open spec fn obeys_from_spec() -> bool {
        true
    }

    open spec fn from_spec(v: RemoteActuationResponse) -> Self {
        result_of_remote(v)
    }
}

impl From<ActuationResult> for RemoteActuationResponse {
    fn from(local: ActuationResult) -> (r: Self)
        ensures
            r == remote_of_result(local),
    {
        match local {
            ActuationResult::Success => RemoteActuationResponse::Success,
            ActuationResult::Ignored => RemoteActuationResponse::Ignored,
            ActuationResult::NoResponse => RemoteActuationResponse::NoResponse,
            ActuationResult::BadRequest { reason } => RemoteActuationResponse::BadRequest { reason },
            ActuationResult::ActuatorError { error_code, error_description } => {
                RemoteActuationResponse::ActuatorError { error_code, error_description }
            },
        }
    }
}

impl vstd::std_specs::convert::FromSpecImpl<ActuationResult> for RemoteActuationResponse {
    open spec fn obeys_from_spec() -> bool {
        true
    }

    open spec fn from_spec(v: ActuationResult) -> Self {
        remote_of_result(v)
    }
}

/// The two conversions between [`ActuationResult`] and its wire form are
/// inverse to each other: no outcome is lost or altered on the network.
pub proof fn lemma_wire_round_trip(local: ActuationResult, remote: RemoteActuationResponse)
    ensures
        result_of_remote(remote_of_result(local)) == local,
        remote_of_result(result_of_remote(remote)) == remote,
{
}

/// Where the answer to one actuation request goes. Sending consumes the
/// channel, so each request is answered at most once.
pub trait ActuatorResponseChannel: Sized {
    fn send(self, response: ActuationResult);
}

/// A request on its way to a device, with the channel its answer goes to.
pub struct ActuationRequest<O: ActuatorResponseChannel> {
    data: ActuationRequestData,
    out_chan: O,
}

impl<O: ActuatorResponseChannel> ActuationRequest<O> {
    pub fn new(data: ActuationRequestData, out_chan: O) -> (r: Self)
        ensures
            r.request() == data,
    {
        ActuationRequest { data, out_chan }
    }

    pub closed spec fn request(&self) -> ActuationRequestData {
        self.data
    }

    /// What the device is asked to do.
    pub fn data(&self) -> (r: &ActuationRequestData)
        ensures
            *r == self.request(),
    {
        &self.data
    }

    /// Answers the request, consuming it.
    pub fn send_answer(self, response: ActuationResult) {
        self.out_chan.send(response);
    }
}

/// What a device is asked to do: one named actuator, one payload.
#[derive(Debug)]
pub struct ActuationRequestData {
    pub actuator_name: String,
    pub data: ActuatorValue,
}

impl ActuationRequestData {
    pub fn new(actuator_name: String, data: ActuatorValue) -> (r: Self)
        ensures
            r.actuator_name == actuator_name,
            r.data == data,
    {
        ActuationRequestData { actuator_name, data }
    }

    pub fn actuator_name(&self) -> (r: &str)
        ensures
            r@ == self.actuator_name@,
    {
        self.actuator_name.as_str()
    }

    pub fn data(&self) -> (r: &ActuatorValue)
        ensures
            *r == self.data,
    {
        &self.data
    }
}

} // verus!
