//! The compressed-message protocol of the Streams transports of the sensor.
//!
//! A sensor sends uncompressed messages until the iota-bridge answers with status 208
//! (already reported): from then on the bridge knows all it needs and compressed messages
//! are used. The LoRaWAN transport also handles status 422 (unprocessable entity): the
//! bridge lost the data it needs, the request is retransmitted uncompressed, and unless
//! that retransmission is answered with 208 the sensor goes back to uncompressed messages.
use vstd::prelude::*;

verus! {

/// HTTP status 100, continue.
pub const STATUS_CONTINUE: u16 = 100;
/// HTTP status 208, already reported.
pub const STATUS_ALREADY_REPORTED: u16 = 208;
/// HTTP status 422, unprocessable entity.
pub const STATUS_UNPROCESSABLE_ENTITY: u16 = 422;

/// What to do after a response of the LoRaWAN transport.
#[derive(PartialEq, Eq, Structural, Clone, Copy, Debug)]
pub enum ResponseAction {
    /// The response is final.
    Done,
    /// The bridge asks for the request to be retransmitted.
    Retransmit,
}

/// The endpoint a message is sent to.
#[derive(PartialEq, Eq, Structural, Clone, Copy, Debug)]
pub enum SendEndpoint {
    SendMessage,
    SendCompressedMessage,
}

/// The endpoint a message is received from.
#[derive(PartialEq, Eq, Structural, Clone, Copy, Debug)]
pub enum ReceiveEndpoint {
    ReceiveMessageFromAddress,
    ReceiveCompressedMessageFromAddress,
}

/// The state after a response of the socket transport: status 208 switches compressed
/// messages on, anything else keeps the state.
pub open spec fn after_socket_response(use_compressed: bool, status: u16) -> bool {
    if status == STATUS_ALREADY_REPORTED { true } else { use_compressed }
}

/// The state after a response of the LoRaWAN transport, before any retransmission.
pub open spec fn after_response(use_compressed: bool, status: u16) -> bool {
    if status == STATUS_ALREADY_REPORTED { true } else { use_compressed }
}

/// The action after a response of the LoRaWAN transport.
pub open spec fn action_for(status: u16) -> ResponseAction {
    if status == STATUS_UNPROCESSABLE_ENTITY { ResponseAction::Retransmit } else { ResponseAction::Done }
}

/// The state after the response to a retransmission: anything but 208 switches compressed
/// messages off.
pub open spec fn after_retransmit_response(use_compressed: bool, status: u16) -> bool {
    if status != STATUS_ALREADY_REPORTED { false } else { use_compressed }
}

/// The outcome of a receive request for its response status: success (2xx) gives the
/// message, anything else is an error carrying the status.
pub open spec fn receive_outcome(status: u16) -> Result<(), u16> {
    if 200 <= status < 300 { Ok(()) } else { Err(status) }
}

/// Whether a transport sends compressed messages.
pub struct CompressedState {
    use_compressed_msg: bool,
}

impl View for CompressedState {
    type V = bool;

    closed spec fn view(&self) -> bool {
        self.use_compressed_msg
    }
}

impl CompressedState {
    /// A new transport sends uncompressed messages.
    pub fn new() -> (r: CompressedState)
        ensures
            !r@,
    {
        CompressedState { use_compressed_msg: false }
    }

    /// Sets the state that a transport starts with.
    pub fn set_initial_use_compressed_msg_state(&mut self, use_compressed_msg: bool)
        ensures
            final(self)@ == use_compressed_msg,
    {
        self.use_compressed_msg = use_compressed_msg;
    }

    /// Whether compressed messages are sent.
    pub fn get_use_compressed_msg(&self) -> (r: bool)
        ensures
            r == self@,
    {
        self.use_compressed_msg
    }

    /// The endpoint for sending a message.
    pub fn send_endpoint(&self) -> (r: SendEndpoint)
        ensures
            r == (if self@ { SendEndpoint::SendCompressedMessage } else { SendEndpoint::SendMessage }),
    {
        if self.use_compressed_msg {
            SendEndpoint::SendCompressedMessage
        } else {
            SendEndpoint::SendMessage
        }
    }

    /// The endpoint for receiving a message.
    pub fn receive_endpoint(&self) -> (r: ReceiveEndpoint)
        ensures
            r == (if self@ {
                ReceiveEndpoint::ReceiveCompressedMessageFromAddress
            } else {
                ReceiveEndpoint::ReceiveMessageFromAddress
            }),
    {
        if self.use_compressed_msg {
            ReceiveEndpoint::ReceiveCompressedMessageFromAddress
        } else {
            ReceiveEndpoint::ReceiveMessageFromAddress
        }
    }

    /// Takes note of the status of a response of the socket transport.
    pub fn on_socket_response(&mut self, status: u16)
        ensures
            final(self)@ == after_socket_response(old(self)@, status),
    {
        if status == STATUS_ALREADY_REPORTED {
            self.use_compressed_msg = true;
        }
    }

    /// Takes note of the status of a response of the LoRaWAN transport and says whether
    /// the request has to be retransmitted.
    pub fn on_response(&mut self, status: u16) -> (r: ResponseAction)
        ensures
            final(self)@ == after_response(old(self)@, status),
            r == action_for(status),
    {
        if status == STATUS_ALREADY_REPORTED {
            self.use_compressed_msg = true;
        }
        if status == STATUS_UNPROCESSABLE_ENTITY {
            ResponseAction::Retransmit
        } else {
            ResponseAction::Done
        }
    }

    /// Takes note of the status of the response to a retransmitted request.
    pub fn on_retransmit_response(&mut self, status: u16)
        ensures
            final(self)@ == after_retransmit_response(old(self)@, status),
    {
        if status != STATUS_ALREADY_REPORTED {
            self.use_compressed_msg = false;
        }
    }
}

/// The outcome of a receive request for the status of its response.
pub fn manage_response_status(status: u16) -> (r: Result<(), u16>)
    ensures
        r == receive_outcome(status),
{
    if 200 <= status && status < 300 {
        Ok(())
    } else {
        Err(status)
    }
}

/// Whether a response of a receive request is status 100 (continue), which the transports
/// do not retry and only report.
pub fn is_continue_status(status: u16) -> (r: bool)
    ensures
        r == (status == STATUS_CONTINUE),
{
    status == STATUS_CONTINUE
}

/// Status 208 always switches compressed messages on, and no response that asks for no
/// retransmission switches them off.
pub proof fn lemma_compression_is_kept_without_retransmit(use_compressed: bool, status: u16)
    ensures
        status == STATUS_ALREADY_REPORTED ==> after_response(use_compressed, status),
        action_for(status) == ResponseAction::Done && use_compressed ==> after_response(use_compressed, status),
        use_compressed ==> after_socket_response(use_compressed, status),
{
}

/// After a retransmission the sensor sends compressed messages only if the retransmission
/// was answered with 208 and it sent them before.
pub proof fn lemma_retransmit_switches_off_unless_reported(use_compressed: bool, status: u16)
    ensures
        after_retransmit_response(use_compressed, status) == (use_compressed && status == STATUS_ALREADY_REPORTED),
{
}

/// A request answered with 422 leaves the state as it was until the retransmission is
/// answered.
pub proof fn lemma_unprocessable_keeps_state(use_compressed: bool)
    ensures
        action_for(STATUS_UNPROCESSABLE_ENTITY) == ResponseAction::Retransmit,
        after_response(use_compressed, STATUS_UNPROCESSABLE_ENTITY) == use_compressed,
{
}

/// Only status 208 changes the state of a transport after a response: any other status,
/// successful or not, leaves it as it was, and 208 always switches compressed messages on.
pub proof fn lemma_only_already_reported_switches_on(use_compressed: bool, status: u16)
    ensures
        status != STATUS_ALREADY_REPORTED ==> after_socket_response(use_compressed, status) == use_compressed,
        status != STATUS_ALREADY_REPORTED ==> after_response(use_compressed, status) == use_compressed,
        after_socket_response(use_compressed, STATUS_ALREADY_REPORTED),
        after_response(use_compressed, STATUS_ALREADY_REPORTED),
        !after_socket_response(false, status) ==> status != STATUS_ALREADY_REPORTED,
{
}

} // verus!
