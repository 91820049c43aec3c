//! The decisions of the LoRaWAN application server mock: it receives binary requests of a
//! sensor over TCP, forwards them to the iota-bridge, and answers with what the bridge
//! answered.
use vstd::prelude::*;
use crate::text::{decimal_digits, u64_to_decimal};
use vstd::utf8::encode_utf8;

verus! {

/// The size of the buffer that a request is read into.
pub const RECEIVE_IOTA_BRIDGE_REQUEST_BUFFER_SIZE: usize = 2048;

/// The options of the LoRaWAN REST client: the URL of the iota-bridge.
#[derive(Clone, Copy)]
pub struct LoraWanRestClientOptions<'a> {
    pub iota_bridge_url: &'a str,
}

impl<'a> LoraWanRestClientOptions<'a> {
    /// Options for the iota-bridge at `iota_bridge_url`.
    pub fn new(iota_bridge_url: &'a str) -> (r: LoraWanRestClientOptions<'a>)
        ensures
            r.iota_bridge_url@ == iota_bridge_url@,
    {
        LoraWanRestClientOptions { iota_bridge_url }
    }

    /// How the options are displayed.
    pub fn to_text(&self) -> (r: String)
        ensures
            r@ == "LoraWanRestClientOptions:\n   http_url: "@ + self.iota_bridge_url@ + "\n"@,
    {
        "LoraWanRestClientOptions:\n   http_url: ".to_string().concat(self.iota_bridge_url).concat("\n")
    }
}

/// The reason phrase that `http::StatusCode::canonical_reason` gives for a status code.
pub uninterp spec fn canonical_reason_of(code: u16) -> Option<Seq<char>>;

/// `http::StatusCode::canonical_reason` of the status code `code` (from 100 to 999): its
/// registered reason phrase, if it has one.
#[verifier::external_body]
fn canonical_reason(code: u16) -> (r: Option<&'static str>)
    requires
        100 <= code < 1000,
    ensures
        match r {
            Some(s) => canonical_reason_of(code) == Some(s@),
            None => canonical_reason_of(code) is None,
        },
{
    match hyper::http::StatusCode::from_u16(code) {
        Ok(status) => status.canonical_reason(),
        Err(_) => None,
    }
}

/// What `http::StatusCode` displays: the number and the reason phrase, or a note that the
/// code is unknown.
pub open spec fn status_display(code: u16, reason: Option<Seq<char>>) -> Seq<char> {
    decimal_digits(code as nat) + " "@ + match reason {
        Some(t) => t,
        None => "<unknown status code>"@,
    }
}

/// The text the mock answers with when the iota-bridge answered with an error status.
pub open spec fn bridge_error_text(code: u16, reason: Option<Seq<char>>) -> Seq<char> {
    "Received Error "@ + status_display(code, reason) + " from Iota-Bridge"@
}

/// The text the mock answers with for an error status `code` of the iota-bridge, given the
/// reason phrase of that status.
pub fn bridge_error_text_for(code: u16, reason: Option<&str>) -> (r: String)
    ensures
        r@ == bridge_error_text(code, match reason {
            Some(s) => Some(s@),
            None => None,
        }),
{
    let phrase = match reason {
        Some(s) => s.to_string(),
        None => "<unknown status code>".to_string(),
    };
    "Received Error ".to_string().concat(u64_to_decimal(code as u64).as_str()).concat(" ").concat(
        phrase.as_str(),
    ).concat(" from Iota-Bridge")
}

/// The text the mock answers with for an error status `code` (a status code, 100 to 999)
/// of the iota-bridge.
pub fn iota_bridge_error_text(code: u16) -> (r: String)
    requires
        100 <= code < 1000,
    ensures
        r@ == bridge_error_text(code, canonical_reason_of(code)),
{
    let reason = canonical_reason(code);
    bridge_error_text_for(code, reason)
}

/// The bytes the mock answers the sensor with for a response of the iota-bridge: the body
/// for status 200, otherwise the UTF-8 bytes of the error text.
pub fn post_binary_request_response_bytes(status: u16, body: Vec<u8>) -> (r: Vec<u8>)
    requires
        100 <= status < 1000,
    ensures
        status == 200 ==> r@ == body@,
        status != 200 ==> r@ == encode_utf8(bridge_error_text(status, canonical_reason_of(status))),
{
    if status == 200 {
        body
    } else {
        let text = iota_bridge_error_text(status);
        text.as_str().as_bytes_vec()
    }
}

/// Why a request of the sensor could not be read.
#[derive(PartialEq, Eq, Structural, Clone, Copy, Debug)]
pub enum ReceiveError {
    /// The request is longer than the receive buffer.
    RequestTooLong,
    /// Fewer bytes came than the request announced.
    IncompleteRequest,
}

/// Whether a request of `request_length` bytes fits into the receive buffer.
pub fn request_fits_buffer(request_length: usize) -> (r: Result<(), ReceiveError>)
    ensures
        r == (if request_length <= RECEIVE_IOTA_BRIDGE_REQUEST_BUFFER_SIZE {
            Ok::<(), ReceiveError>(())
        } else {
            Err::<(), ReceiveError>(ReceiveError::RequestTooLong)
        }),
{
    if request_length > RECEIVE_IOTA_BRIDGE_REQUEST_BUFFER_SIZE {
        Err(ReceiveError::RequestTooLong)
    } else {
        Ok(())
    }
}

/// Whether the bytes read complete the request.
pub fn check_received_size(request_length: usize, data_size: usize) -> (r: Result<(), ReceiveError>)
    ensures
        r == (if request_length == data_size {
            Ok::<(), ReceiveError>(())
        } else {
            Err::<(), ReceiveError>(ReceiveError::IncompleteRequest)
        }),
{
    if request_length != data_size {
        Err(ReceiveError::IncompleteRequest)
    } else {
        Ok(())
    }
}

/// Whether a peek at the connection found the full length prefix of a request, so that the
/// request can be read; otherwise the connection is done.
pub fn length_prefix_complete(bytes_received: usize, length_prefix_size: usize) -> (r: bool)
    ensures
        r == (bytes_received == length_prefix_size),
{
    bytes_received == length_prefix_size
}

} // verus!
