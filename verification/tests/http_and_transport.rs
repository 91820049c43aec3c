use sensor_lib::compressed_transport::{
    is_continue_status, manage_response_status, CompressedState, ReceiveEndpoint, ResponseAction, SendEndpoint,
};
use sensor_lib::http_tools::{
    body_must_be_written, get_svc_http_method, is_http_status_success, recv_message_body_length, simple_http_response,
    Esp32HttpHeaderTool, HttpToolError, RecvMessageError, StreamBuffer, StreamsTransportSocketEspRsOptions, SvcHttpMethod,
    UserAgentName, READ_STREAM_SUB_BUFFER_CAPACITY_SIZE,
};

#[test]
fn user_agent_values() {
    assert_eq!(UserAgentName::Main.value(), "sensor/main");
    assert_eq!(UserAgentName::CommandFetcher.value(), "sensor/command-fetcher");
    assert_eq!(UserAgentName::LoraWanRestClient.value(), "sensor/lorawan-rest-client");
}

#[test]
fn esp32_headers() {
    let headers = Esp32HttpHeaderTool::create_esp32_http_headers(&UserAgentName::CommandFetcher, "42");
    assert_eq!(
        headers,
        vec![
            ("user-agent", "sensor/command-fetcher"),
            ("content-type", "application/octet-stream"),
            ("content-length", "42"),
            ("connection", "close"),
        ]
    );
}

#[test]
fn content_length_only_for_post() {
    assert_eq!(Esp32HttpHeaderTool::get_content_len_string(&SvcHttpMethod::Post, 1234), "1234");
    assert_eq!(Esp32HttpHeaderTool::get_content_len_string(&SvcHttpMethod::Post, 0), "0");
    assert_eq!(Esp32HttpHeaderTool::get_content_len_string(&SvcHttpMethod::Get, 1234), "0");
    assert_eq!(Esp32HttpHeaderTool::get_content_len_string(&SvcHttpMethod::Unbind, 7), "0");
}

#[test]
fn svc_methods() {
    assert_eq!(get_svc_http_method("POST"), SvcHttpMethod::Post);
    assert_eq!(get_svc_http_method("GET"), SvcHttpMethod::Get);
    assert_eq!(get_svc_http_method("PUT"), SvcHttpMethod::Unbind);
    assert_eq!(body_must_be_written(SvcHttpMethod::Post), Ok(true));
    assert_eq!(body_must_be_written(SvcHttpMethod::Get), Ok(false));
    assert_eq!(body_must_be_written(SvcHttpMethod::Unbind), Err(HttpToolError::UnsupportedMethod));
}

#[test]
fn status_success_range() {
    assert!(!is_http_status_success(199));
    assert!(is_http_status_success(200));
    assert!(is_http_status_success(208));
    assert!(is_http_status_success(299));
    assert!(!is_http_status_success(300));
}

#[test]
fn simple_response_needs_status_code() {
    let r = simple_http_response(404, vec![1, 2]).unwrap();
    assert_eq!(r.status, 404);
    assert_eq!(r.body, vec![1, 2]);
    assert!(matches!(simple_http_response(99, Vec::new()), Err(HttpToolError::InvalidStatusCode)));
    assert!(matches!(simple_http_response(1000, Vec::new()), Err(HttpToolError::InvalidStatusCode)));
    assert!(simple_http_response(100, Vec::new()).is_ok());
    assert!(simple_http_response(999, Vec::new()).is_ok());
}

#[test]
fn stream_buffer_collects_chunks() {
    let mut b = StreamBuffer::new();
    let full = vec![5u8; READ_STREAM_SUB_BUFFER_CAPACITY_SIZE];
    assert!(b.push_chunk(&full));
    assert!(!b.is_finished());
    assert!(!b.push_chunk(&[1, 2, 3]));
    assert!(b.is_finished());
    let (body, size) = b.into_body();
    assert_eq!(size, 259);
    assert_eq!(&body[..256], &full[..]);
    assert_eq!(&body[256..], &[1, 2, 3]);
}

#[test]
fn stream_buffer_empty_read_ends() {
    let mut b = StreamBuffer::new();
    assert!(!b.push_chunk(&[]));
    assert_eq!(b.into_body(), (Vec::new(), 0));
}

#[test]
fn recv_body_length() {
    assert_eq!(recv_message_body_length(200, Some(17)), Ok(17));
    assert_eq!(recv_message_body_length(200, None), Err(RecvMessageError::HttpStatus(200)));
    assert_eq!(recv_message_body_length(404, Some(3)), Err(RecvMessageError::HttpStatus(404)));
    assert_eq!(recv_message_body_length(42, Some(3)), Err(RecvMessageError::InvalidStatusCode));
}

#[test]
fn socket_transport_options() {
    let o = StreamsTransportSocketEspRsOptions::new("http://192.168.0.100:50000");
    assert_eq!(o.http_url, "http://192.168.0.100:50000");
}

#[test]
fn compressed_state_switches_on_with_208() {
    let mut c = CompressedState::new();
    assert!(!c.get_use_compressed_msg());
    assert_eq!(c.send_endpoint(), SendEndpoint::SendMessage);
    assert_eq!(c.receive_endpoint(), ReceiveEndpoint::ReceiveMessageFromAddress);
    assert_eq!(c.on_response(200), ResponseAction::Done);
    assert!(!c.get_use_compressed_msg());
    assert_eq!(c.on_response(208), ResponseAction::Done);
    assert!(c.get_use_compressed_msg());
    assert_eq!(c.send_endpoint(), SendEndpoint::SendCompressedMessage);
    assert_eq!(c.receive_endpoint(), ReceiveEndpoint::ReceiveCompressedMessageFromAddress);
    assert_eq!(c.on_response(404), ResponseAction::Done);
    assert!(c.get_use_compressed_msg());
}

#[test]
fn compressed_state_retransmit() {
    let mut c = CompressedState::new();
    c.set_initial_use_compressed_msg_state(true);
    assert_eq!(c.on_response(422), ResponseAction::Retransmit);
    assert!(c.get_use_compressed_msg());
    c.on_retransmit_response(208);
    assert!(c.get_use_compressed_msg());
    c.on_retransmit_response(200);
    assert!(!c.get_use_compressed_msg());
}

#[test]
fn socket_transport_response() {
    let mut c = CompressedState::new();
    c.on_socket_response(422);
    assert!(!c.get_use_compressed_msg());
    c.on_socket_response(208);
    assert!(c.get_use_compressed_msg());
}

#[test]
fn receive_status_outcome() {
    assert_eq!(manage_response_status(200), Ok(()));
    assert_eq!(manage_response_status(208), Ok(()));
    assert_eq!(manage_response_status(404), Err(404));
    assert_eq!(manage_response_status(100), Err(100));
    assert!(is_continue_status(100));
    assert!(!is_continue_status(200));
}
