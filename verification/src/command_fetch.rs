//! The decisions of the command fetchers: the sensor polls the iota-bridge for the next
//! remote command, checks the response, and confirms each processed command.
use vstd::prelude::*;

verus! {

/// How a flag is displayed.
pub open spec fn bool_text(b: bool) -> Seq<char> {
    if b { "true"@ } else { "false"@ }
}

/// The display text of a flag.
pub fn bool_to_text(b: bool) -> (r: &'static str)
    ensures
        r@ == bool_text(b),
{
    if b { "true" } else { "false" }
}

/// How the options of a command fetcher are displayed.
pub open spec fn fetcher_options_text(http_url: Seq<char>, dev_eui_handshake_first: bool, dev_eui: Seq<char>) -> Seq<char> {
    "CommandFetcherOptions:\n   http_url: "@ + http_url + "\n   dev_eui_handshake_first: "@ + bool_text(dev_eui_handshake_first)
        + "\n   dev_eui: "@ + dev_eui
}

/// The display text of the options of a command fetcher.
fn fetcher_options_to_text(http_url: &String, dev_eui_handshake_first: bool, dev_eui: &String) -> (r: String)
    ensures
        r@ == fetcher_options_text(http_url@, dev_eui_handshake_first, dev_eui@),
{
    "CommandFetcherOptions:\n   http_url: ".to_string().concat(http_url.as_str()).concat(
        "\n   dev_eui_handshake_first: ",
    ).concat(bool_to_text(dev_eui_handshake_first)).concat("\n   dev_eui: ").concat(dev_eui.as_str())
}

/// Options of the command fetcher of the desktop sensor.
pub struct CommandFetcherOptions {
    /// The URL of the iota-bridge.
    pub http_url: String,
    /// Whether the fetcher starts with a DevEUI handshake.
    pub dev_eui_handshake_first: bool,
    /// The DevEUI of the sensor.
    pub dev_eui: String,
}

impl CommandFetcherOptions {
    /// Options with the given values.
    pub fn new(http_url: &str, dev_eui_handshake_first: bool, dev_eui: &str) -> (r: CommandFetcherOptions)
        ensures
            r.http_url@ == http_url@,
            r.dev_eui_handshake_first == dev_eui_handshake_first,
            r.dev_eui@ == dev_eui@,
    {
        CommandFetcherOptions {
            http_url: http_url.to_string(),
            dev_eui_handshake_first,
            dev_eui: dev_eui.to_string(),
        }
    }

    /// How the options are displayed.
    pub fn to_text(&self) -> (r: String)
        ensures
            r@ == fetcher_options_text(self.http_url@, self.dev_eui_handshake_first, self.dev_eui@),
    {
        fetcher_options_to_text(&self.http_url, self.dev_eui_handshake_first, &self.dev_eui)
    }
}

/// Options of the command fetcher of the ESP32 sensor that uses a socket connection.
pub struct CommandFetcherSocketOptions {
    /// The URL of the iota-bridge.
    pub http_url: String,
    /// Whether the fetcher starts with a DevEUI handshake.
    pub dev_eui_handshake_first: bool,
    /// The DevEUI of the sensor.
    pub dev_eui: String,
}

impl CommandFetcherSocketOptions {
    /// Options with the given values.
    pub fn new(http_url: &str, dev_eui_handshake_first: bool, dev_eui: &str) -> (r: CommandFetcherSocketOptions)
        ensures
            r.http_url@ == http_url@,
            r.dev_eui_handshake_first == dev_eui_handshake_first,
            r.dev_eui@ == dev_eui@,
    {
        CommandFetcherSocketOptions {
            http_url: http_url.to_string(),
            dev_eui_handshake_first,
            dev_eui: dev_eui.to_string(),
        }
    }

    /// How the options are displayed (with the same heading as the desktop fetcher's).
    pub fn to_text(&self) -> (r: String)
        ensures
            r@ == fetcher_options_text(self.http_url@, self.dev_eui_handshake_first, self.dev_eui@),
    {
        fetcher_options_to_text(&self.http_url, self.dev_eui_handshake_first, &self.dev_eui)
    }

    /// The URL of the iota-bridge that the fetcher talks to.
    pub fn get_iota_bridge_url(&self) -> (r: Option<String>)
        ensures
            r matches Some(u) && u@ == self.http_url@,
    {
        Some(self.http_url.clone())
    }
}

/// What a fetch response leads to.
#[derive(PartialEq, Eq, Debug)]
pub enum FetchOutcome {
    /// No command: the sensor goes on polling.
    NoCommand,
    /// These bytes hold the next command.
    Command(Vec<u8>),
}

/// Whether the bytes of a response can hold a command: they are at least as long as the
/// serialized command.
pub open spec fn holds_command(len: nat, command_length_bytes: usize) -> bool {
    len >= command_length_bytes
}

/// The command bytes of a response body: the whole body if it can hold a command, no command
/// otherwise.
pub fn deserialize_command(buffer: Vec<u8>, command_length_bytes: usize) -> (r: FetchOutcome)
    ensures
        holds_command(buffer@.len(), command_length_bytes) ==> (r matches FetchOutcome::Command(b) && b@ == buffer@),
        !holds_command(buffer@.len(), command_length_bytes) ==> r == FetchOutcome::NoCommand,
{
    if buffer.len() >= command_length_bytes {
        FetchOutcome::Command(buffer)
    } else {
        FetchOutcome::NoCommand
    }
}

/// The outcome of a fetch response of the desktop fetcher: a successful status (2xx) gives
/// the body to parse, any other status no command.
pub fn handle_fetch_response(status: u16, body: Vec<u8>) -> (r: FetchOutcome)
    ensures
        200 <= status < 300 ==> (r matches FetchOutcome::Command(b) && b@ == body@),
        !(200 <= status < 300) ==> r == FetchOutcome::NoCommand,
{
    if 200 <= status && status < 300 {
        FetchOutcome::Command(body)
    } else {
        FetchOutcome::NoCommand
    }
}

/// The outcome of a fetch response of the ESP32 fetchers: only status 200 carries a command,
/// the body must be there (its length known) and long enough to hold a command.
pub fn handle_response(status: u16, body: Option<Vec<u8>>, command_length_bytes: usize) -> (r: FetchOutcome)
    ensures
        (status == 200 && body is Some && holds_command(body->0@.len(), command_length_bytes))
            ==> (r matches FetchOutcome::Command(b) && b@ == body->0@),
        !(status == 200 && body is Some && holds_command(body->0@.len(), command_length_bytes))
            ==> r == FetchOutcome::NoCommand,
{
    if status == 200 {
        match body {
            Some(buffer) => deserialize_command(buffer, command_length_bytes),
            None => FetchOutcome::NoCommand,
        }
    } else {
        FetchOutcome::NoCommand
    }
}

/// The command that is processed once the DevEUI of the sensor has been checked against
/// it: the fetched one if the check passed, none otherwise.
pub fn command_after_dev_eui_check(fetched: FetchOutcome, dev_eui_accepted: bool) -> (r: FetchOutcome)
    ensures
        r == (if dev_eui_accepted { fetched } else { FetchOutcome::NoCommand }),
{
    if dev_eui_accepted {
        fetched
    } else {
        FetchOutcome::NoCommand
    }
}

/// The result of sending a confirmation with the desktop fetcher: any success status
/// (2xx) is accepted; another status is the error.
pub fn confirmation_result(status: u16) -> (r: Result<(), u16>)
    ensures
        r == (if 200 <= status < 300 { Ok::<(), u16>(()) } else { Err::<(), u16>(status) }),
{
    if 200 <= status && status < 300 {
        Ok(())
    } else {
        Err(status)
    }
}

/// The result of sending a confirmation with the ESP32 fetchers: only status 200 is
/// accepted; another status is the error.
pub fn confirmation_result_ok_only(status: u16) -> (r: Result<(), u16>)
    ensures
        r == (if status == 200 { Ok::<(), u16>(()) } else { Err::<(), u16>(status) }),
{
    if status == 200 {
        Ok(())
    } else {
        Err(status)
    }
}

/// Whether the remote controlled sensor fetches another command: it stops only when it is
/// asked to exit after a successful initialization and the initialization has completed.
pub fn should_fetch_next_command(exit_after_successful_initialization: bool, initialization_has_been_completed: bool) -> (r: bool)
    ensures
        r == !(exit_after_successful_initialization && initialization_has_been_completed),
{
    !exit_after_successful_initialization || !initialization_has_been_completed
}

/// Every response body at least as long as a serialized command holds a command, whatever
/// payload follows it; only a shorter body holds none.
pub proof fn lemma_long_bodies_hold_commands(len: nat, command_length_bytes: usize)
    ensures
        len >= command_length_bytes ==> holds_command(len, command_length_bytes),
        len < command_length_bytes ==> !holds_command(len, command_length_bytes),
        holds_command(len, command_length_bytes) ==> holds_command(len + 1, command_length_bytes),
{
}

} // verus!
