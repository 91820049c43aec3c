use sensor_lib::api_types::{LoRaWanError, StreamsError};
use sensor_lib::response_slot::{complete_request, send_result_outcome, RequestError, RequestStep, ResponseSlot};

#[test]
fn test_response_callback_scope_manager() {
    let data_to_send: Vec<u8> = vec![0, 1, 2, 3, 4, 5, 6, 7];
    let mut received_data: Option<Vec<u8>> = None;
    let mut slot = ResponseSlot::new();
    {
        assert_eq!(slot.open_scope(), Ok(()));
        assert_eq!(slot.is_open(), true);

        assert_eq!(slot.receive_response(data_to_send.clone()), StreamsError::STREAMS_OK);

        match slot.take_response() {
            Ok(Some(response)) => {
                received_data = Some(data_to_send.clone());
                assert_eq!(response, data_to_send)
            }
            other => panic!("Response receiver.recv() failed: {:?}", other),
        }
        assert_eq!(slot.close_scope(), true);
    }

    assert_eq!(slot.is_open(), false);

    assert_eq!(received_data.is_some(), true);

    if let Some(rcved_data) = received_data {
        assert_eq!(rcved_data, data_to_send);
    }
}

#[test]
fn response_without_request_is_refused() {
    let mut slot = ResponseSlot::new();
    assert_eq!(slot.receive_response(vec![1, 2, 3]), StreamsError::STREAMS_RESPONSE_RESOLVED_WITHOUT_REQUEST);
    assert_eq!(slot.is_open(), false);
    assert_eq!(slot.take_response(), Err(RequestError::NoPendingRequest));
    assert_eq!(slot.close_scope(), false);
}

#[test]
fn only_one_transaction_at_a_time() {
    let mut slot = ResponseSlot::new();
    assert_eq!(slot.open_scope(), Ok(()));
    assert_eq!(slot.open_scope(), Err(RequestError::OverlappingRequests));
    assert!(slot.is_open());
    assert!(!slot.has_response());
    assert_eq!(slot.take_response(), Ok(None));
}

#[test]
fn slot_takes_a_second_response_after_the_first_was_taken() {
    let mut slot = ResponseSlot::new();
    slot.open_scope().unwrap();
    assert_eq!(slot.receive_response(vec![1]), StreamsError::STREAMS_OK);
    assert!(slot.has_response());
    assert_eq!(slot.take_response(), Ok(Some(vec![1])));
    assert_eq!(slot.receive_response(vec![2, 2]), StreamsError::STREAMS_OK);
    assert_eq!(slot.take_response(), Ok(Some(vec![2, 2])));
}

#[test]
fn send_results_map_to_request_errors() {
    assert_eq!(send_result_outcome(LoRaWanError::LORAWAN_OK), Ok(()));
    assert_eq!(send_result_outcome(LoRaWanError::LORAWAN_NO_CONNECTION), Err(RequestError::NoConnection));
    assert_eq!(
        send_result_outcome(LoRaWanError::LORAWAN_IOTA_BRIDGE_CONNECTOR_ERROR),
        Err(RequestError::IotaBridgeConnectorError)
    );
    assert_eq!(send_result_outcome(LoRaWanError::LORAWAN_EXIT_SENSOR_MANAGER), Err(RequestError::ExitSensorManager));
}

#[test]
fn complete_request_returns_response_and_closes_slot() {
    let mut slot = ResponseSlot::new();
    let opened = slot.open_scope().is_ok();
    assert_eq!(slot.receive_response(b"This is the reponse".to_vec()), StreamsError::STREAMS_OK);
    let step = complete_request(&mut slot, opened, LoRaWanError::LORAWAN_OK);
    assert_eq!(step, RequestStep::Response(b"This is the reponse".to_vec()));
    assert!(!slot.is_open());
}

#[test]
fn complete_request_waits_for_missing_response() {
    let mut slot = ResponseSlot::new();
    let opened = slot.open_scope().is_ok();
    assert_eq!(complete_request(&mut slot, opened, LoRaWanError::LORAWAN_OK), RequestStep::Pending);
    assert!(slot.is_open());
}

#[test]
fn complete_request_reports_empty_response() {
    let mut slot = ResponseSlot::new();
    let opened = slot.open_scope().is_ok();
    slot.receive_response(Vec::new());
    assert_eq!(
        complete_request(&mut slot, opened, LoRaWanError::LORAWAN_OK),
        RequestStep::Failed(RequestError::EmptyResponse)
    );
    assert!(!slot.is_open());
}

#[test]
fn complete_request_reports_send_failure_and_closes_slot() {
    let mut slot = ResponseSlot::new();
    let opened = slot.open_scope().is_ok();
    assert_eq!(
        complete_request(&mut slot, opened, LoRaWanError::LORAWAN_NO_CONNECTION),
        RequestStep::Failed(RequestError::NoConnection)
    );
    assert!(!slot.is_open());
}

#[test]
fn complete_request_without_scope_fails() {
    let mut slot = ResponseSlot::new();
    assert_eq!(
        complete_request(&mut slot, false, LoRaWanError::LORAWAN_OK),
        RequestStep::Failed(RequestError::NoPendingRequest)
    );
}

#[test]
fn request_error_texts() {
    assert_eq!(
        RequestError::NoConnection.to_text(),
        "lorawan_send_callback returned error LORAWAN_NO_CONNECTION"
    );
    assert_eq!(
        RequestError::EmptyResponse.to_text(),
        "Received 0 bytes response from server. Connection has been shut down (shutdown(Write))."
    );
    assert_eq!(
        RequestError::OverlappingRequests.to_text(),
        "Attempt to send multiple overlapping requests at time. Only one transaction at time allowed."
    );
}
