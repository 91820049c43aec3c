use sensor_lib::api_types::{LoRaWanError, StreamsError};
use sensor_lib::command_fetch::{
    command_after_dev_eui_check, confirmation_result, confirmation_result_ok_only, deserialize_command,
    handle_fetch_response, handle_response, should_fetch_next_command, CommandFetcherOptions,
    CommandFetcherSocketOptions, FetchOutcome,
};
use sensor_lib::esp_sensor::{
    access_point_channel, find_access_point_channel, lwip_options, ping_result, wifi_credentials, ArgKeys,
    ProcessingArgs, WifiError,
};
use sensor_lib::esp_sensor::CommandFetcherOptions as EspCommandFetcherOptions;
use sensor_lib::lora_mock::{
    bridge_error_text_for, check_received_size, iota_bridge_error_text, post_binary_request_response_bytes,
    length_prefix_complete, request_fits_buffer, LoraWanRestClientOptions, ReceiveError,
};
use sensor_lib::management::{
    channel_starts_with_arg, create_remote_sensor_options, decode_public_key, initialization_count_exhausted,
    select_console_action, ConsoleAction, ConsoleArgs, ConsoleError,
};
use sensor_lib::seed::{create_seed, seed_from_indices, ALPH9};
use sensor_lib::sensor_cli::{
    exceeds_max_random_message_size, iota_bridge_url_or, manage_mocked_lorawan_dev_eui, mocked_lorawan_dev_eui,
    plan_local_sensor, plan_remote_control, select_mode, trimmed_link, LocalSensorStep, RemoteControlStep,
    RemoteManagerOptions, SensorArgs, SensorMode,
};
use sensor_lib::sensor_manager::{esp_subscriber_status, EspSubscriberStatus, SensorManager, SensorManagerError};
use sensor_lib::text::{parse_usize, u64_to_decimal};

fn no_args() -> SensorArgs {
    SensorArgs {
        act_as_remote_control: false,
        act_as_remote_controlled_sensor: false,
        subscribe_announcement_link: None,
        files_to_send: None,
        random_msg_of_size: None,
        register_keyload_msg: None,
        clear_client_state: false,
        println_subscriber_status: false,
        iota_bridge_url: None,
        dev_eui: None,
        use_lorawan_rest_api: false,
        exit_after_successful_initialization: false,
    }
}

#[test]
fn streams_error_codes_and_names() {
    assert_eq!(StreamsError::STREAMS_RESPONSE_INTERNAL_CHANNEL_ERR.code(), -6);
    assert_eq!(StreamsError::from_code(-5), Some(StreamsError::STREAMS_RESPONSE_RESOLVED_WITHOUT_REQUEST));
    assert_eq!(StreamsError::from_code(0), None);
    assert_eq!(StreamsError::STREAMS_OK.to_text(), "STREAMS_OK");
    assert_eq!(LoRaWanError::from_code(-100), Some(LoRaWanError::LORAWAN_EXIT_SENSOR_MANAGER));
    assert_eq!(LoRaWanError::from_code(2), None);
}

#[test]
fn mode_selection() {
    let mut a = no_args();
    assert_eq!(select_mode(&a), SensorMode::LocalSensor);
    a.act_as_remote_controlled_sensor = true;
    assert_eq!(select_mode(&a), SensorMode::RemoteControlledSensor);
    a.act_as_remote_control = true;
    assert_eq!(select_mode(&a), SensorMode::RemoteControl);
}

#[test]
fn local_sensor_prints_status_without_other_steps() {
    assert_eq!(plan_local_sensor(&no_args()), vec![LocalSensorStep::PrintlnSubscriberStatus]);
}

#[test]
fn local_sensor_steps_in_order() {
    let mut a = no_args();
    a.subscribe_announcement_link = Some(" link ".to_string());
    a.files_to_send = Some(vec!["a.json".to_string()]);
    a.random_msg_of_size = Some("+512".to_string());
    a.register_keyload_msg = Some(" k\n".to_string());
    a.clear_client_state = true;
    assert_eq!(
        plan_local_sensor(&a),
        vec![
            LocalSensorStep::SubscribeToChannel("link".to_string()),
            LocalSensorStep::SendMessagesInEndlessLoop,
            LocalSensorStep::SendRandomMessageInEndlessLoop(512),
            LocalSensorStep::RegisterKeyloadMsg("k".to_string()),
            LocalSensorStep::ClearClientState,
        ]
    );
}

#[test]
fn local_sensor_invalid_random_size_ends_steps() {
    let mut a = no_args();
    a.files_to_send = Some(vec!["a.json".to_string()]);
    a.random_msg_of_size = Some("12x".to_string());
    a.clear_client_state = true;
    assert_eq!(
        plan_local_sensor(&a),
        vec![LocalSensorStep::SendMessagesInEndlessLoop, LocalSensorStep::InvalidRandomMessageSize]
    );
}

#[test]
fn random_message_size_limit() {
    assert!(!exceeds_max_random_message_size(4096));
    assert!(exceeds_max_random_message_size(4097));
    assert_eq!(SensorManager::random_message(100).len(), 100);
    assert_eq!(SensorManager::random_message(0).len(), 0);
}

#[test]
fn remote_control_steps() {
    let mut a = no_args();
    a.println_subscriber_status = true;
    a.clear_client_state = true;
    a.files_to_send = Some(Vec::new());
    assert_eq!(
        plan_remote_control(&a),
        vec![
            RemoteControlStep::NoMessageFile,
            RemoteControlStep::ClearClientState,
            RemoteControlStep::PrintlnSubscriberStatus,
        ]
    );
    a.subscribe_announcement_link = Some(" l\t".to_string());
    a.files_to_send = Some(vec!["f".to_string(), "g".to_string()]);
    a.register_keyload_msg = Some("\u{3000}key ".to_string());
    assert_eq!(
        plan_remote_control(&a),
        vec![
            RemoteControlStep::SubscribeToChannel("l".to_string()),
            RemoteControlStep::SendMessagesInEndlessLoop("f".to_string()),
            RemoteControlStep::RegisterKeyloadMsg("key".to_string()),
            RemoteControlStep::ClearClientState,
        ]
    );
}

#[test]
fn links_are_trimmed() {
    assert_eq!(trimmed_link(&"  abc:def \n".to_string()), "abc:def");
    assert_eq!(trimmed_link(&"\u{3000}\u{85}a b\u{2029}".to_string()), "a b");
    assert_eq!(trimmed_link(&"\u{200b}x\u{200b}".to_string()), "\u{200b}x\u{200b}");
}

#[test]
fn bridge_url_choice() {
    assert_eq!(iota_bridge_url_or(&None, "http://localhost:50000"), "http://localhost:50000");
    assert_eq!(iota_bridge_url_or(&Some("http://x:1".to_string()), "http://localhost:50000"), "http://x:1");
}

#[test]
fn mocked_dev_eui_choice() {
    assert_eq!(mocked_lorawan_dev_eui(&"1234".to_string(), &None, 5), ("1234".to_string(), false));
    assert_eq!(mocked_lorawan_dev_eui(&String::new(), &Some("abc".to_string()), 5), ("abc".to_string(), true));
    assert_eq!(mocked_lorawan_dev_eui(&String::new(), &None, 987654321), ("987654321".to_string(), true));
    let (eui, new) = manage_mocked_lorawan_dev_eui(&String::new(), &None);
    assert!(new);
    assert!(!eui.is_empty());
    assert!(eui.chars().all(|c| c.is_ascii_digit()));
    assert_eq!(manage_mocked_lorawan_dev_eui(&"77".to_string(), &None), ("77".to_string(), false));
}

#[test]
fn decimal_text() {
    assert_eq!(u64_to_decimal(0), "0");
    assert_eq!(u64_to_decimal(18446744073709551615), "18446744073709551615");
    assert_eq!(parse_usize("4096"), Some(4096));
    assert_eq!(parse_usize("+7"), Some(7));
    assert_eq!(parse_usize("+"), None);
    assert_eq!(parse_usize(""), None);
    assert_eq!(parse_usize("-1"), None);
    assert_eq!(parse_usize("99999999999999999999999"), None);
}

#[test]
fn seeds() {
    let seed = create_seed();
    assert_eq!(seed.len(), 81);
    assert!(seed.chars().all(|c| ALPH9.contains(c)));
    assert_eq!(seed_from_indices(&vec![0, 1, 25, 26]), "ABZ9");
}

#[test]
fn command_fetch_decisions() {
    assert_eq!(deserialize_command(vec![1, 2, 3], 3), FetchOutcome::Command(vec![1, 2, 3]));
    assert_eq!(deserialize_command(vec![1, 2], 3), FetchOutcome::NoCommand);
    assert_eq!(handle_fetch_response(204, vec![1]), FetchOutcome::Command(vec![1]));
    assert_eq!(handle_fetch_response(500, vec![1]), FetchOutcome::NoCommand);
    assert_eq!(handle_response(200, Some(vec![1, 2]), 2), FetchOutcome::Command(vec![1, 2]));
    assert_eq!(handle_response(200, Some(vec![1]), 2), FetchOutcome::NoCommand);
    assert_eq!(handle_response(200, None, 2), FetchOutcome::NoCommand);
    assert_eq!(handle_response(204, Some(vec![1, 2]), 2), FetchOutcome::NoCommand);
    assert_eq!(command_after_dev_eui_check(FetchOutcome::Command(vec![1]), false), FetchOutcome::NoCommand);
    assert_eq!(command_after_dev_eui_check(FetchOutcome::Command(vec![1]), true), FetchOutcome::Command(vec![1]));
    assert_eq!(confirmation_result(201), Ok(()));
    assert_eq!(confirmation_result(400), Err(400));
    assert_eq!(confirmation_result_ok_only(201), Err(201));
    assert_eq!(confirmation_result_ok_only(200), Ok(()));
    assert!(should_fetch_next_command(false, true));
    assert!(should_fetch_next_command(true, false));
    assert!(!should_fetch_next_command(true, true));
}

#[test]
fn fetcher_options() {
    let o = CommandFetcherOptions::new("http://a", true, "eui");
    assert_eq!((o.http_url.as_str(), o.dev_eui_handshake_first, o.dev_eui.as_str()), ("http://a", true, "eui"));
    let s = CommandFetcherSocketOptions::new("http://b", false, "e2");
    assert_eq!(s.get_iota_bridge_url(), Some("http://b".to_string()));
    let e = EspCommandFetcherOptions::new("http://c:50000");
    assert_eq!(e.fetch_next_command_url("/command/next"), "http://c:50000/command/next");
    let r = RemoteManagerOptions::new("http://d");
    assert_eq!(r.get_proxy_url(), "http://d");
    let l = LoraWanRestClientOptions::new("http://e");
    assert_eq!(l.iota_bridge_url, "http://e");
}

#[test]
fn esp_processing_args_and_wifi() {
    assert!(ProcessingArgs::contains_key(ArgKeys::CONTENT_TO_SEND));
    assert!(!ProcessingArgs::contains_key(ArgKeys::REGISTER_KEYLOAD_MSG));
    assert_eq!(ProcessingArgs::get(ArgKeys::SUBSCRIBE_ANNOUNCEMENT_LINK), "");
    let (f, t) = lwip_options("http://b:5", "eui");
    assert!(f.dev_eui_handshake_first);
    assert_eq!(f.http_url, "http://b:5");
    assert_eq!(t.http_url, "http://b:5");
    assert_eq!(wifi_credentials(None, Some("p".to_string())), Ok(None));
    assert_eq!(wifi_credentials(Some("s".to_string()), None), Err(WifiError::MissingPassword));
    assert_eq!(
        wifi_credentials(Some("s".to_string()), Some("p".to_string())),
        Ok(Some(("s".to_string(), "p".to_string())))
    );
    let aps = vec![("other".to_string(), 3u8), ("Susee Demo".to_string(), 6u8), ("Susee Demo".to_string(), 11u8)];
    assert_eq!(find_access_point_channel(&aps, "Susee Demo"), Some(6));
    assert_eq!(find_access_point_channel(&aps, "missing"), None);
    assert_eq!(access_point_channel(Some(6)), 6);
    assert_eq!(access_point_channel(None), 1);
    assert_eq!(ping_result(4, 4), Ok(()));
    assert_eq!(ping_result(4, 3), Err(WifiError::PingTimeouts));
}

#[test]
fn lora_mock_answers() {
    assert_eq!(iota_bridge_error_text(404), "Received Error 404 Not Found from Iota-Bridge");
    assert_eq!(iota_bridge_error_text(599), "Received Error 599 <unknown status code> from Iota-Bridge");
    assert_eq!(bridge_error_text_for(500, Some("Oops")), "Received Error 500 Oops from Iota-Bridge");
    assert_eq!(post_binary_request_response_bytes(200, vec![1, 2]), vec![1, 2]);
    assert_eq!(
        post_binary_request_response_bytes(208, vec![1, 2]),
        b"Received Error 208 Already Reported from Iota-Bridge".to_vec()
    );
    assert_eq!(request_fits_buffer(2048), Ok(()));
    assert_eq!(request_fits_buffer(2049), Err(ReceiveError::RequestTooLong));
    assert_eq!(check_received_size(10, 9), Err(ReceiveError::IncompleteRequest));
    assert_eq!(check_received_size(10, 10), Ok(()));
    assert!(length_prefix_complete(8, 8));
    assert!(!length_prefix_complete(3, 8));
}

#[test]
fn management_console_decisions() {
    let none = ConsoleArgs {
        create_channel: false,
        subscription_link: false,
        println_channel_status: false,
        init_sensor: false,
        init_multiple_sensors: false,
        run_explorer_api_server: false,
    };
    assert_eq!(select_console_action(&none), ConsoleAction::PrintUsageHelp);
    let both = ConsoleArgs { init_sensor: true, init_multiple_sensors: true, ..none };
    assert_eq!(select_console_action(&both), ConsoleAction::InitSensor);
    let explorer = ConsoleArgs { run_explorer_api_server: true, ..none };
    assert_eq!(select_console_action(&explorer), ConsoleAction::RunExplorerApiServer);
    let create = ConsoleArgs { create_channel: true, subscription_link: true, ..none };
    assert_eq!(select_console_action(&create), ConsoleAction::CreateChannel);

    let o = create_remote_sensor_options("http://default", "NOT_DEFINED", 5, &None, &None, Some("hs".to_string()));
    assert_eq!((o.http_url.as_str(), o.dev_eui.as_str(), o.confirm_fetch_wait_sec), ("http://default", "hs", 5));
    let o = create_remote_sensor_options("http://default", "NOT_DEFINED", 5, &Some("http://u".to_string()), &Some("cli".to_string()), Some("hs".to_string()));
    assert_eq!((o.http_url.as_str(), o.dev_eui.as_str()), ("http://u", "cli"));
    let o = create_remote_sensor_options("http://default", "NOT_DEFINED", 5, &None, &None, None);
    assert_eq!(o.dev_eui, "NOT_DEFINED");

    assert_eq!(channel_starts_with_arg(None), Err(ConsoleError::MissingChannelStartsWith));
    assert_eq!(channel_starts_with_arg(Some("ab".to_string())), Ok("ab".to_string()));
    assert!(initialization_count_exhausted(255, 255));
    assert!(!initialization_count_exhausted(3, 255));
    assert_eq!(decode_public_key("00ffA1"), Ok(vec![0, 255, 161]));
    assert_eq!(decode_public_key("0f0"), Err(ConsoleError::InvalidPublicKey));
    assert_eq!(decode_public_key("zz"), Err(ConsoleError::InvalidPublicKey));
}

#[test]
fn sensor_manager_status() {
    assert_eq!(SensorManager::previous_message_link_text(None), "---");
    assert_eq!(SensorManager::previous_message_link_text(Some("x:y".to_string())), "x:y");
    assert_eq!(SensorManager::subscriber_status("---".to_string(), Some(3u8)), Ok(("---".to_string(), 3u8)));
    assert_eq!(
        SensorManager::subscriber_status::<u8>("---".to_string(), None),
        Err(SensorManagerError::NoExistingSubscription)
    );
    let files = vec!["a".to_string(), "b".to_string(), "c".to_string()];
    assert_eq!(SensorManager::missing_message_files(&files, &vec![true, false, false]), vec![1, 2]);
}

#[test]
fn options_texts() {
    let o = CommandFetcherOptions::new("http://a", true, "eui");
    assert_eq!(o.to_text(), "CommandFetcherOptions:\n   http_url: http://a\n   dev_eui_handshake_first: true\n   dev_eui: eui");
    let s = CommandFetcherSocketOptions::new("http://b", false, "e2");
    assert_eq!(s.to_text(), "CommandFetcherOptions:\n   http_url: http://b\n   dev_eui_handshake_first: false\n   dev_eui: e2");
    assert_eq!(EspCommandFetcherOptions::new("http://c").to_text(), "CommandFetcherOptions: http_url: http://c");
    assert_eq!(RemoteManagerOptions::new("http://d").to_text(), "RemoteManagerOptions: http_url: http://d");
    assert_eq!(LoraWanRestClientOptions::new("http://e").to_text(), "LoraWanRestClientOptions:\n   http_url: http://e\n");
    assert_eq!(
        sensor_lib::http_tools::StreamsTransportSocketEspRsOptions::new("http://f").to_text(),
        "HttpClientOptions: http_url: http://f"
    );
}

#[test]
fn esp_subscriber_status_choice() {
    assert_eq!(esp_subscriber_status(None, Some(4u8)), EspSubscriberStatus::Current(String::new(), 4u8));
    assert_eq!(
        esp_subscriber_status(Some("p:l".to_string()), Some(4u8)),
        EspSubscriberStatus::Current("p:l".to_string(), 4u8)
    );
    assert_eq!(esp_subscriber_status::<u8>(Some("p:l".to_string()), None), EspSubscriberStatus::Default);
}
