//! The decisions of the management console: which action it takes for its arguments, the
//! options it talks to a remote sensor with, and the public keys it reads.
use vstd::prelude::*;

verus! {

/// The actions of the management console.
#[derive(PartialEq, Eq, Structural, Clone, Copy, Debug)]
pub enum ConsoleAction {
    CreateChannel,
    SendKeyloadMessage,
    PrintlnChannelStatus,
    InitSensor,
    InitMultipleSensors,
    RunExplorerApiServer,
    PrintUsageHelp,
}

/// The arguments of the management console that select its action.
pub struct ConsoleArgs {
    pub create_channel: bool,
    pub subscription_link: bool,
    pub println_channel_status: bool,
    pub init_sensor: bool,
    pub init_multiple_sensors: bool,
    pub run_explorer_api_server: bool,
}

/// The action for the arguments, by the order of their priority; without any of them the
/// console prints how it is used.
pub open spec fn action_for(a: ConsoleArgs) -> ConsoleAction {
    if a.create_channel {
        ConsoleAction::CreateChannel
    } else if a.subscription_link {
        ConsoleAction::SendKeyloadMessage
    } else if a.println_channel_status {
        ConsoleAction::PrintlnChannelStatus
    } else if a.init_sensor {
        ConsoleAction::InitSensor
    } else if a.init_multiple_sensors {
        ConsoleAction::InitMultipleSensors
    } else if a.run_explorer_api_server {
        ConsoleAction::RunExplorerApiServer
    } else {
        ConsoleAction::PrintUsageHelp
    }
}

/// The action the console takes.
pub fn select_console_action(args: &ConsoleArgs) -> (r: ConsoleAction)
    ensures
        r == action_for(*args),
{
    if args.create_channel {
        ConsoleAction::CreateChannel
    } else if args.subscription_link {
        ConsoleAction::SendKeyloadMessage
    } else if args.println_channel_status {
        ConsoleAction::PrintlnChannelStatus
    } else if args.init_sensor {
        ConsoleAction::InitSensor
    } else if args.init_multiple_sensors {
        ConsoleAction::InitMultipleSensors
    } else if args.run_explorer_api_server {
        ConsoleAction::RunExplorerApiServer
    } else {
        ConsoleAction::PrintUsageHelp
    }
}

/// The options the console talks to a remote sensor with.
pub struct RemoteSensorSettings {
    pub http_url: String,
    pub confirm_fetch_wait_sec: u32,
    pub dev_eui: String,
}

/// The options for a remote sensor: the URL of the arguments or the default; the DevEUI of
/// the arguments, else the DevEUI of a handshake, else the default.
pub fn create_remote_sensor_options(
    default_url: &str,
    default_dev_eui: &str,
    confirm_fetch_wait_sec: u32,
    arg_iota_bridge_url: &Option<String>,
    arg_dev_eui: &Option<String>,
    opt_dev_eui: Option<String>,
) -> (r: RemoteSensorSettings)
    ensures
        r.confirm_fetch_wait_sec == confirm_fetch_wait_sec,
        r.http_url@ == (match arg_iota_bridge_url {
            Some(u) => u@,
            None => default_url@,
        }),
        r.dev_eui@ == (match arg_dev_eui {
            Some(d) => d@,
            None => match opt_dev_eui {
                Some(d) => d@,
                None => default_dev_eui@,
            },
        }),
{
    let http_url = match arg_iota_bridge_url {
        Some(u) => u.clone(),
        None => default_url.to_string(),
    };
    let dev_eui = match arg_dev_eui {
        Some(d) => d.clone(),
        None => match opt_dev_eui {
            Some(d) => d,
            None => default_dev_eui.to_string(),
        },
    };
    RemoteSensorSettings { http_url, confirm_fetch_wait_sec, dev_eui }
}

/// Why the console could not act.
#[derive(PartialEq, Eq, Structural, Clone, Copy, Debug)]
pub enum ConsoleError {
    /// The action needs the argument that gives the start of the channel ID.
    MissingChannelStartsWith,
    /// The public key is no hexadecimal text.
    InvalidPublicKey,
}

/// The start of the channel ID, which the action needs.
pub fn channel_starts_with_arg(channel_starts_with: Option<String>) -> (r: Result<String, ConsoleError>)
    ensures
        match channel_starts_with {
            Some(c) => r matches Ok(s) && s@ == c@,
            None => r == Err::<String, ConsoleError>(ConsoleError::MissingChannelStartsWith),
        },
{
    match channel_starts_with {
        Some(c) => Ok(c),
        None => Err(ConsoleError::MissingChannelStartsWith),
    }
}

/// Whether a confirmed subscription used up the initialization count of the sensor, which
/// the console warns of.
pub fn initialization_count_exhausted(initialization_cnt: u8, max_value: u8) -> (r: bool)
    ensures
        r == (initialization_cnt == max_value),
{
    initialization_cnt == max_value
}

/// The value of an ASCII hexadecimal digit.
pub open spec fn hex_digit_value(c: char) -> int {
    if '0' <= c && c <= '9' {
        c as int - 48
    } else if 'a' <= c && c <= 'f' {
        c as int - 87
    } else {
        c as int - 55
    }
}

/// Whether `c` is an ASCII hexadecimal digit, in either case.
pub open spec fn is_hex_digit(c: char) -> bool {
    ('0' <= c && c <= '9') || ('a' <= c && c <= 'f') || ('A' <= c && c <= 'F')
}

/// Whether a text is a sequence of byte values in hexadecimal: an even number of digits.
pub open spec fn is_hex_text(s: Seq<char>) -> bool {
    s.len() % 2 == 0 && forall|i: int| 0 <= i < s.len() ==> is_hex_digit(#[trigger] s[i])
}

/// The bytes a hexadecimal text stands for, two digits each, the high digit first.
pub open spec fn hex_bytes(s: Seq<char>) -> Seq<u8> {
    Seq::new(s.len() / 2, |i: int| (hex_digit_value(s[2 * i]) * 16 + hex_digit_value(s[2 * i + 1])) as u8)
}

/// The error of `hex::decode`, carried as an opaque value.
#[verifier::external_type_specification]
#[verifier::external_body]
pub struct ExFromHexError(hex::FromHexError);

/// `hex::decode` of a text: its bytes for a hexadecimal text of an even number of digits of
/// either case, two digits for each byte, the high digit first; an error for any other text.
#[verifier::external_body]
fn hex_decode(s: &str) -> (r: Result<Vec<u8>, hex::FromHexError>)
    ensures
        (r is Ok) == is_hex_text(s@),
        r matches Ok(v) ==> v@ == hex_bytes(s@),
{
    hex::decode(s)
}

/// The public key of a subscriber from its hexadecimal text.
pub fn decode_public_key(pub_key_str: &str) -> (r: Result<Vec<u8>, ConsoleError>)
    ensures
        (r is Ok) == is_hex_text(pub_key_str@),
        r matches Ok(v) ==> v@ == hex_bytes(pub_key_str@),
        r matches Err(e) ==> e == ConsoleError::InvalidPublicKey,
{
    match hex_decode(pub_key_str) {
        Ok(v) => Ok(v),
        Err(_) => Err(ConsoleError::InvalidPublicKey),
    }
}

/// Each argument selects its own action when no argument of higher priority is given: the
/// channel creation, then the keyload message for a subscription link, the channel status,
/// the initialization of one sensor, of many sensors, and the explorer server; without any
/// of them the console prints how it is used.
pub proof fn lemma_each_flag_selects_its_action(a: ConsoleArgs)
    ensures
        a.create_channel ==> action_for(a) == ConsoleAction::CreateChannel,
        !a.create_channel && a.subscription_link ==> action_for(a) == ConsoleAction::SendKeyloadMessage,
        !a.create_channel && !a.subscription_link && a.println_channel_status
            ==> action_for(a) == ConsoleAction::PrintlnChannelStatus,
        !a.create_channel && !a.subscription_link && !a.println_channel_status && a.init_sensor
            ==> action_for(a) == ConsoleAction::InitSensor,
        !a.create_channel && !a.subscription_link && !a.println_channel_status && !a.init_sensor
            && a.init_multiple_sensors ==> action_for(a) == ConsoleAction::InitMultipleSensors,
        !a.create_channel && !a.subscription_link && !a.println_channel_status && !a.init_sensor
            && !a.init_multiple_sensors && a.run_explorer_api_server
            ==> action_for(a) == ConsoleAction::RunExplorerApiServer,
        (action_for(a) == ConsoleAction::PrintUsageHelp) == (!a.create_channel && !a.subscription_link
            && !a.println_channel_status && !a.init_sensor && !a.init_multiple_sensors
            && !a.run_explorer_api_server),
{
}

} // verus!
