//! The response slot of a request sent through the buffer callback of the application
//! (LoRaWAN or another connection managed by the application).
//!
//! The sensor has one transaction at a time: a request opens the slot, the application
//! resolves the request by handing the response to the library, the library takes the
//! response out of the slot, and the slot is closed again. The slot holds at most one
//! response.
use vstd::prelude::*;
use crate::api_types::{LoRaWanError, StreamsError};

verus! {

/// Why a request through the buffer callback failed.
#[derive(PartialEq, Eq, Structural, Clone, Copy, Debug)]
pub enum RequestError {
    /// A request is pending already: only one transaction at a time is allowed.
    OverlappingRequests,
    /// No request is pending: a response came without one, or twice for one request.
    NoPendingRequest,
    /// The send callback reported `LORAWAN_NO_CONNECTION`.
    NoConnection,
    /// The send callback reported `LORAWAN_IOTA_BRIDGE_CONNECTOR_ERROR`.
    IotaBridgeConnectorError,
    /// The send callback asked the sensor manager to exit.
    ExitSensorManager,
    /// The response had no bytes: the connection has been shut down.
    EmptyResponse,
}

/// The message of each request error.
pub open spec fn request_error_text(e: RequestError) -> Seq<char> {
    match e {
        RequestError::OverlappingRequests =>
            "Attempt to send multiple overlapping requests at time. Only one transaction at time allowed."@,
        RequestError::NoPendingRequest =>
            "Attempt to response before sending a request or echoed (doubled) response for a previous request."@,
        RequestError::NoConnection => "lorawan_send_callback returned error LORAWAN_NO_CONNECTION"@,
        RequestError::IotaBridgeConnectorError =>
            "lorawan_send_callback returned error LORAWAN_IOTA_BRIDGE_CONNECTOR_ERROR"@,
        RequestError::ExitSensorManager =>
            "lorawan_send_callback returned error EXIT_SENSOR_MANAGER - clean shutdown of the sensor_manager is missing"@,
        RequestError::EmptyResponse =>
            "Received 0 bytes response from server. Connection has been shut down (shutdown(Write))."@,
    }
}

impl RequestError {
    /// The message of this error.
    pub fn to_text(&self) -> (r: String)
        ensures
            r@ == request_error_text(*self),
    {
        match self {
            RequestError::OverlappingRequests => String::from_str(
                "Attempt to send multiple overlapping requests at time. Only one transaction at time allowed.",
            ),
            RequestError::NoPendingRequest => String::from_str(
                "Attempt to response before sending a request or echoed (doubled) response for a previous request.",
            ),
            RequestError::NoConnection => String::from_str("lorawan_send_callback returned error LORAWAN_NO_CONNECTION"),
            RequestError::IotaBridgeConnectorError => String::from_str(
                "lorawan_send_callback returned error LORAWAN_IOTA_BRIDGE_CONNECTOR_ERROR",
            ),
            RequestError::ExitSensorManager => String::from_str(
                "lorawan_send_callback returned error EXIT_SENSOR_MANAGER - clean shutdown of the sensor_manager is missing",
            ),
            RequestError::EmptyResponse => String::from_str(
                "Received 0 bytes response from server. Connection has been shut down (shutdown(Write)).",
            ),
        }
    }
}

/// What the slot holds: `None` when no request is pending; for a pending request, the
/// response once it came.
pub type SlotView = Option<Option<Seq<u8>>>;

/// The result of opening the slot for a new request.
pub open spec fn open_result(v: SlotView) -> Result<(), RequestError> {
    if v is None { Ok(()) } else { Err(RequestError::OverlappingRequests) }
}

/// The slot after opening it for a new request.
pub open spec fn open_next(v: SlotView) -> SlotView {
    if v is None { Some(None) } else { v }
}

/// What the library answers when the application resolves a request with a response.
pub open spec fn deliver_result(v: SlotView) -> StreamsError {
    if v is None {
        StreamsError::STREAMS_RESPONSE_RESOLVED_WITHOUT_REQUEST
    } else {
        StreamsError::STREAMS_OK
    }
}

/// The slot after the application resolved a request with `data`.
pub open spec fn deliver_next(v: SlotView, data: Seq<u8>) -> SlotView {
    if v is None { v } else { Some(Some(data)) }
}

/// What taking the response gives: an error without pending request, `None` while the
/// response has not come yet.
pub open spec fn take_result(v: SlotView) -> Result<Option<Seq<u8>>, RequestError> {
    match v {
        None => Err(RequestError::NoPendingRequest),
        Some(r) => Ok(r),
    }
}

/// The slot after taking the response.
pub open spec fn take_next(v: SlotView) -> SlotView {
    if v is None { v } else { Some(None) }
}

/// The outcome of the send callback.
pub open spec fn send_outcome(e: LoRaWanError) -> Result<(), RequestError> {
    match e {
        LoRaWanError::LORAWAN_OK => Ok(()),
        LoRaWanError::LORAWAN_NO_CONNECTION => Err(RequestError::NoConnection),
        LoRaWanError::LORAWAN_IOTA_BRIDGE_CONNECTOR_ERROR => Err(RequestError::IotaBridgeConnectorError),
        LoRaWanError::LORAWAN_EXIT_SENSOR_MANAGER => Err(RequestError::ExitSensorManager),
    }
}

/// The response of one pending request, held until it is taken.
pub struct ResponseCallbackScope {
    pending: Option<Vec<u8>>,
}

/// The single slot for the response of the one pending request.
pub struct ResponseSlot {
    scope: Option<ResponseCallbackScope>,
}

impl View for ResponseSlot {
    type V = SlotView;

    closed spec fn view(&self) -> SlotView {
        match self.scope {
            None => None,
            Some(s) => Some(
                match s.pending {
                    None => None,
                    Some(d) => Some(d@),
                },
            ),
        }
    }
}

impl ResponseSlot {
    /// A closed slot: no request is pending.
    pub fn new() -> (r: ResponseSlot)
        ensures
            r@ is None,
    {
        ResponseSlot { scope: None }
    }

    /// Whether a request is pending.
    pub fn is_open(&self) -> (r: bool)
        ensures
            r == (self@ is Some),
    {
        self.scope.is_some()
    }

    /// Whether the response of the pending request has come and not been taken yet.
    pub fn has_response(&self) -> (r: bool)
        ensures
            r == (self@ matches Some(Some(_))),
    {
        match &self.scope {
            Some(s) => s.pending.is_some(),
            None => false,
        }
    }

    /// Opens the slot for a new request; fails while another request is pending.
    pub fn open_scope(&mut self) -> (r: Result<(), RequestError>)
        ensures
            r == open_result(old(self)@),
            final(self)@ == open_next(old(self)@),
    {
        if self.scope.is_none() {
            self.scope = Some(ResponseCallbackScope { pending: None });
            Ok(())
        } else {
            Err(RequestError::OverlappingRequests)
        }
    }

    /// Closes the slot at the end of a request. Returns whether a request was pending.
    pub fn close_scope(&mut self) -> (r: bool)
        ensures
            r == (old(self)@ is Some),
            final(self)@ is None,
    {
        if self.scope.is_some() {
            self.scope = None;
            true
        } else {
            false
        }
    }

    /// The application resolves the pending request with `response_data`. The slot holds
    /// one response: a second one is only accepted once the first was taken.
    pub fn receive_response(&mut self, response_data: Vec<u8>) -> (r: StreamsError)
        requires
            !(old(self)@ matches Some(Some(_))),
        ensures
            r == deliver_result(old(self)@),
            final(self)@ == deliver_next(old(self)@, response_data@),
    {
        match &mut self.scope {
            Some(s) => {
                s.pending = Some(response_data);
                StreamsError::STREAMS_OK
            },
            None => StreamsError::STREAMS_RESPONSE_RESOLVED_WITHOUT_REQUEST,
        }
    }

    /// Takes the response of the pending request out of the slot; `None` while it has not
    /// come yet.
    pub fn take_response(&mut self) -> (r: Result<Option<Vec<u8>>, RequestError>)
        ensures
            match take_result(old(self)@) {
                Ok(Some(d)) => r matches Ok(Some(v)) && v@ == d,
                Ok(None) => r matches Ok(None),
                Err(e) => r == Err::<Option<Vec<u8>>, RequestError>(e),
            },
            final(self)@ == take_next(old(self)@),
    {
        match &mut self.scope {
            Some(s) => {
                let taken = s.pending.take();
                Ok(taken)
            },
            None => Err(RequestError::NoPendingRequest),
        }
    }
}

/// The outcome of the send callback of the application.
pub fn send_result_outcome(send_result: LoRaWanError) -> (r: Result<(), RequestError>)
    ensures
        r == send_outcome(send_result),
{
    match send_result {
        LoRaWanError::LORAWAN_OK => Ok(()),
        LoRaWanError::LORAWAN_NO_CONNECTION => Err(RequestError::NoConnection),
        LoRaWanError::LORAWAN_IOTA_BRIDGE_CONNECTOR_ERROR => Err(RequestError::IotaBridgeConnectorError),
        LoRaWanError::LORAWAN_EXIT_SENSOR_MANAGER => Err(RequestError::ExitSensorManager),
    }
}

/// The step of a request after the send callback returned.
#[derive(PartialEq, Eq, Debug)]
pub enum RequestStep {
    /// The response has not come yet: wait for it and try again.
    Pending,
    /// The request is done with this response.
    Response(Vec<u8>),
    /// The request failed.
    Failed(RequestError),
}

/// Continues a request after the send callback returned `send_result`. `opened` tells
/// whether this request opened the slot; such a request closes it again once it is done.
/// A response without bytes means that the connection has been shut down.
pub fn complete_request(slot: &mut ResponseSlot, opened: bool, send_result: LoRaWanError) -> (r: RequestStep)
    requires
        opened ==> old(slot)@ is Some,
    ensures
        match send_outcome(send_result) {
            Err(e) => r == RequestStep::Failed(e) && (if opened {
                final(slot)@ is None
            } else {
                final(slot)@ == old(slot)@
            }),
            Ok(()) => match take_result(old(slot)@) {
                Err(e) => r == RequestStep::Failed(e) && final(slot)@ == old(slot)@,
                Ok(None) => r == RequestStep::Pending && final(slot)@ == old(slot)@,
                Ok(Some(d)) => (if opened {
                    final(slot)@ is None
                } else {
                    final(slot)@ == take_next(old(slot)@)
                }) && (if d.len() == 0 {
                    r == RequestStep::Failed(RequestError::EmptyResponse)
                } else {
                    r matches RequestStep::Response(v) && v@ == d
                }),
            },
        },
{
    match send_result_outcome(send_result) {
        Err(e) => {
            if opened {
                slot.close_scope();
            }
            RequestStep::Failed(e)
        },
        Ok(()) => {
            match slot.take_response() {
                Err(e) => RequestStep::Failed(e),
                Ok(None) => RequestStep::Pending,
                Ok(Some(response)) => {
                    if opened {
                        slot.close_scope();
                    }
                    if response.len() > 0 {
                        RequestStep::Response(response)
                    } else {
                        RequestStep::Failed(RequestError::EmptyResponse)
                    }
                },
            }
        },
    }
}

/// The response that the application resolves a pending request with is the response that
/// the library takes out of the slot, and the slot is then ready for the next response.
pub proof fn lemma_take_gives_delivered_response(v: SlotView, data: Seq<u8>)
    requires
        v matches Some(None),
    ensures
        deliver_result(v) == StreamsError::STREAMS_OK,
        take_result(deliver_next(v, data)) == Ok::<Option<Seq<u8>>, RequestError>(Some(data)),
        take_next(deliver_next(v, data)) == v,
{
}

/// A response without a pending request is refused and changes nothing.
pub proof fn lemma_response_without_request_is_refused(data: Seq<u8>)
    ensures
        deliver_result(None) == StreamsError::STREAMS_RESPONSE_RESOLVED_WITHOUT_REQUEST,
        deliver_next(None, data) == None::<Option<Seq<u8>>>,
        take_result(None) == Err::<Option<Seq<u8>>, RequestError>(RequestError::NoPendingRequest),
{
}

/// Only one transaction at a time: opening the slot while a request is pending fails and
/// changes nothing; opening a closed slot always succeeds.
pub proof fn lemma_one_transaction_at_a_time(v: SlotView)
    ensures
        v is Some ==> open_result(v) == Err::<(), RequestError>(RequestError::OverlappingRequests)
            && open_next(v) == v,
        v is None ==> open_result(v) == Ok::<(), RequestError>(()) && open_next(v) == Some(None::<Seq<u8>>),
{
}

} // verus!
