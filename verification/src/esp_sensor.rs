//! Decisions of the ESP32 sensor applications: the options of their command fetchers and
//! transports, their processing arguments, and the WiFi set-up.
use vstd::prelude::*;
use crate::command_fetch::CommandFetcherSocketOptions;
use crate::http_tools::StreamsTransportSocketEspRsOptions;

verus! {

/// Options of the command fetcher of the ESP32 applications that poll the iota-bridge
/// directly: the URL of the bridge.
pub struct CommandFetcherOptions<'a> {
    pub http_url: &'a str,
}

impl<'a> CommandFetcherOptions<'a> {
    /// Options for the iota-bridge at `http_url`.
    pub fn new(http_url: &'a str) -> (r: CommandFetcherOptions<'a>)
        ensures
            r.http_url@ == http_url@,
    {
        CommandFetcherOptions { http_url }
    }

    /// How the options are displayed.
    pub fn to_text(&self) -> (r: String)
        ensures
            r@ == "CommandFetcherOptions: http_url: "@ + self.http_url@,
    {
        "CommandFetcherOptions: http_url: ".to_string().concat(self.http_url)
    }

    /// The URL the next command is fetched from: the URL of the bridge followed by the path
    /// of the endpoint.
    pub fn fetch_next_command_url(&self, endpoint_path: &str) -> (r: String)
        ensures
            r@ == self.http_url@ + endpoint_path@,
    {
        self.http_url.to_string().concat(endpoint_path)
    }
}

/// The keys of the processing arguments of the ESP32 application that has no command line.
#[derive(PartialEq, Eq, Structural, Clone, Copy, Debug)]
#[allow(non_camel_case_types)]
pub enum ArgKeys {
    CONTENT_TO_SEND,
    SUBSCRIBE_ANNOUNCEMENT_LINK,
    REGISTER_KEYLOAD_MSG,
}

/// The processing arguments that are compiled into that application: only the content to
/// send is set, and every value is empty.
pub struct ProcessingArgs {}

impl ProcessingArgs {
    /// Whether the argument `key` is set.
    pub fn contains_key(key: ArgKeys) -> (r: bool)
        ensures
            r == (key == ArgKeys::CONTENT_TO_SEND),
    {
        match key {
            ArgKeys::CONTENT_TO_SEND => true,
            _ => false,
        }
    }

    /// The value of the argument `key`.
    pub fn get(key: ArgKeys) -> (r: &'static str)
        ensures
            r@ == ""@,
    {
        match key {
            ArgKeys::CONTENT_TO_SEND => "",
            ArgKeys::SUBSCRIBE_ANNOUNCEMENT_LINK => "",
            ArgKeys::REGISTER_KEYLOAD_MSG => "",
        }
    }
}

/// The options of the command fetcher and of the transport of the sensor manager that
/// talks to the iota-bridge at `iota_bridge_url` over TCP/IP; the fetcher starts with a
/// DevEUI handshake.
pub fn lwip_options(iota_bridge_url: &str, dev_eui: &str) -> (r: (CommandFetcherSocketOptions, StreamsTransportSocketEspRsOptions))
    ensures
        r.0.http_url@ == iota_bridge_url@,
        r.0.dev_eui_handshake_first,
        r.0.dev_eui@ == dev_eui@,
        r.1.http_url@ == iota_bridge_url@,
{
    (
        CommandFetcherSocketOptions::new(iota_bridge_url, true, dev_eui),
        StreamsTransportSocketEspRsOptions::new(iota_bridge_url),
    )
}

/// Why the WiFi could not be set up.
#[derive(PartialEq, Eq, Structural, Clone, Copy, Debug)]
pub enum WifiError {
    /// A WiFi SSID was given without its password.
    MissingPassword,
    /// Pinging the gateway timed out.
    PingTimeouts,
}

/// The WiFi credentials to log in with: none without SSID; SSID and password otherwise,
/// where a missing password is an error.
pub fn wifi_credentials(opt_wifi_ssid: Option<String>, opt_wifi_pass: Option<String>) -> (r: Result<Option<(String, String)>, WifiError>)
    ensures
        opt_wifi_ssid is None ==> r matches Ok(None),
        opt_wifi_ssid is Some && opt_wifi_pass is None ==> r == Err::<Option<(String, String)>, WifiError>(WifiError::MissingPassword),
        opt_wifi_ssid is Some && opt_wifi_pass is Some ==> (r matches Ok(Some(c))
            && c.0@ == opt_wifi_ssid->0@ && c.1@ == opt_wifi_pass->0@),
{
    match opt_wifi_ssid {
        None => Ok(None),
        Some(ssid) => match opt_wifi_pass {
            Some(pass) => Ok(Some((ssid, pass))),
            None => Err(WifiError::MissingPassword),
        },
    }
}

/// The channel of the first scanned access point whose SSID is `wifi_ssid`.
pub open spec fn channel_of(access_points: Seq<(Seq<char>, u8)>, wifi_ssid: Seq<char>) -> Option<u8>
    decreases access_points.len(),
{
    if access_points.len() == 0 {
        None
    } else if access_points[0].0 == wifi_ssid {
        Some(access_points[0].1)
    } else {
        channel_of(access_points.drop_first(), wifi_ssid)
    }
}

/// The scanned access points as SSIDs and channels.
pub open spec fn access_points_view(access_points: Seq<(String, u8)>) -> Seq<(Seq<char>, u8)> {
    Seq::new(access_points.len(), |i: int| (access_points[i].0@, access_points[i].1))
}

/// The channel of the configured access point among the scanned ones, if it was found.
pub fn find_access_point_channel(access_points: &Vec<(String, u8)>, wifi_ssid: &str) -> (r: Option<u8>)
    ensures
        r == channel_of(access_points_view(access_points@), wifi_ssid@),
{
    let ghost aps = access_points_view(access_points@);
    let target = wifi_ssid.to_string();
    let mut i: usize = 0;
    assert(aps.subrange(0, aps.len() as int) =~= aps);
    while i < access_points.len()
        invariant
            i <= access_points@.len(),
            aps == access_points_view(access_points@),
            target@ == wifi_ssid@,
            channel_of(aps.subrange(i as int, aps.len() as int), wifi_ssid@) == channel_of(aps, wifi_ssid@),
        decreases access_points@.len() - i,
    {
        let ghost rest = aps.subrange(i as int, aps.len() as int);
        assert(rest[0] == aps[i as int]);
        assert(rest.drop_first() =~= aps.subrange(i + 1, aps.len() as int));
        if access_points[i].0 == target {
            return Some(access_points[i].1);
        }
        i = i + 1;
    }
    assert(aps.subrange(i as int, aps.len() as int).len() == 0);
    None
}

/// The channel of the access point the sensor opens besides its client connection: that of
/// the found access point, else 1.
pub fn access_point_channel(channel: Option<u8>) -> (r: u8)
    ensures
        r == (match channel {
            Some(c) => c,
            None => 1,
        }),
{
    match channel {
        Some(c) => c,
        None => 1,
    }
}

/// The result of pinging the gateway: every transmitted packet must have been received.
pub fn ping_result(transmitted: u32, received: u32) -> (r: Result<(), WifiError>)
    ensures
        r == (if transmitted == received { Ok::<(), WifiError>(()) } else { Err::<(), WifiError>(WifiError::PingTimeouts) }),
{
    if transmitted != received {
        Err(WifiError::PingTimeouts)
    } else {
        Ok(())
    }
}

} // verus!
