//! The decisions of the desktop sensor application: which mode it runs in, which steps it
//! takes for the arguments it was given, and which DevEUI the mocked LoRaWAN node uses.
use vstd::prelude::*;
use crate::seed::random_in_range;
use crate::text::{decimal_digits, parsed_usize, parse_usize, str_trim, trimmed, u64_to_decimal};

verus! {

/// Random messages longer than this are sent, with a warning.
pub const MAX_SIZE_RANDOM_MESSAGE: usize = 4096;

/// The arguments of the sensor application, as given on the command line.
pub struct SensorArgs {
    pub act_as_remote_control: bool,
    pub act_as_remote_controlled_sensor: bool,
    pub subscribe_announcement_link: Option<String>,
    pub files_to_send: Option<Vec<String>>,
    pub random_msg_of_size: Option<String>,
    pub register_keyload_msg: Option<String>,
    pub clear_client_state: bool,
    pub println_subscriber_status: bool,
    pub iota_bridge_url: Option<String>,
    pub dev_eui: Option<String>,
    pub use_lorawan_rest_api: bool,
    pub exit_after_successful_initialization: bool,
}

/// The modes of the sensor application.
#[derive(PartialEq, Eq, Structural, Clone, Copy, Debug)]
pub enum SensorMode {
    /// Remote control another sensor through the iota-bridge.
    RemoteControl,
    /// Be a sensor that fetches its commands from the iota-bridge.
    RemoteControlledSensor,
    /// Act on the local Streams client.
    LocalSensor,
}

/// The mode for the arguments: remote control wins over remote controlled.
pub open spec fn mode_for(act_as_remote_control: bool, act_as_remote_controlled_sensor: bool) -> SensorMode {
    if act_as_remote_control {
        SensorMode::RemoteControl
    } else if act_as_remote_controlled_sensor {
        SensorMode::RemoteControlledSensor
    } else {
        SensorMode::LocalSensor
    }
}

/// The mode the application runs in.
pub fn select_mode(args: &SensorArgs) -> (r: SensorMode)
    ensures
        r == mode_for(args.act_as_remote_control, args.act_as_remote_controlled_sensor),
{
    if args.act_as_remote_control {
        SensorMode::RemoteControl
    } else if args.act_as_remote_controlled_sensor {
        SensorMode::RemoteControlledSensor
    } else {
        SensorMode::LocalSensor
    }
}

/// The steps of the sensor that acts on its local Streams client.
#[derive(PartialEq, Eq, Clone, Debug)]
pub enum LocalSensorStep {
    /// Subscribe to the channel of this announcement link.
    SubscribeToChannel(String),
    /// Send the content of the message files, again and again.
    SendMessagesInEndlessLoop,
    /// Send random messages of this size, again and again.
    SendRandomMessageInEndlessLoop(usize),
    /// The size of the random messages is no number: the application ends with an error.
    InvalidRandomMessageSize,
    /// Register this keyload message.
    RegisterKeyloadMsg(String),
    /// Clear the client state.
    ClearClientState,
    /// Print the status of the subscriber.
    PrintlnSubscriberStatus,
}

/// A step of the local sensor, with the links as text.
pub enum LocalStep {
    SubscribeToChannel(Seq<char>),
    SendMessagesInEndlessLoop,
    SendRandomMessageInEndlessLoop(usize),
    InvalidRandomMessageSize,
    RegisterKeyloadMsg(Seq<char>),
    ClearClientState,
    PrintlnSubscriberStatus,
}

impl View for LocalSensorStep {
    type V = LocalStep;

    open spec fn view(&self) -> LocalStep {
        match self {
            LocalSensorStep::SubscribeToChannel(l) => LocalStep::SubscribeToChannel(l@),
            LocalSensorStep::SendMessagesInEndlessLoop => LocalStep::SendMessagesInEndlessLoop,
            LocalSensorStep::SendRandomMessageInEndlessLoop(n) => LocalStep::SendRandomMessageInEndlessLoop(*n),
            LocalSensorStep::InvalidRandomMessageSize => LocalStep::InvalidRandomMessageSize,
            LocalSensorStep::RegisterKeyloadMsg(l) => LocalStep::RegisterKeyloadMsg(l@),
            LocalSensorStep::ClearClientState => LocalStep::ClearClientState,
            LocalSensorStep::PrintlnSubscriberStatus => LocalStep::PrintlnSubscriberStatus,
        }
    }
}

/// The steps of a plan as text.
pub open spec fn local_steps_view(steps: Seq<LocalSensorStep>) -> Seq<LocalStep> {
    steps.map_values(|s: LocalSensorStep| s@)
}

/// One step if `b` holds, none otherwise.
pub open spec fn step_if(b: bool, s: LocalStep) -> Seq<LocalStep> {
    if b { seq![s] } else { Seq::empty() }
}

/// The step for an optional link argument, if it is given.
pub open spec fn link_step(link: Option<Seq<char>>, subscribe: bool) -> Seq<LocalStep> {
    match link {
        Some(l) => seq![if subscribe { LocalStep::SubscribeToChannel(l) } else { LocalStep::RegisterKeyloadMsg(l) }],
        None => Seq::empty(),
    }
}

/// The steps of the local sensor for the (trimmed) announcement and keyload links, in
/// their order. A random message size that is no number ends the steps with an error; the
/// status is printed unless the sensor subscribed, registered a keyload message or cleared
/// its state.
pub open spec fn local_sensor_steps(
    subscribe_link: Option<Seq<char>>,
    send_files: bool,
    random_size: Option<Seq<char>>,
    keyload_link: Option<Seq<char>>,
    clear: bool,
) -> Seq<LocalStep> {
    let head = link_step(subscribe_link, true) + step_if(send_files, LocalStep::SendMessagesInEndlessLoop);
    let tail = link_step(keyload_link, false) + step_if(clear, LocalStep::ClearClientState) + step_if(
        subscribe_link is None && keyload_link is None && !clear,
        LocalStep::PrintlnSubscriberStatus,
    );
    match random_size {
        None => head + tail,
        Some(t) => match parsed_usize(t) {
            None => head.push(LocalStep::InvalidRandomMessageSize),
            Some(n) => head.push(LocalStep::SendRandomMessageInEndlessLoop(n)) + tail,
        },
    }
}

/// The text of an optional argument.
pub open spec fn opt_view(o: Option<String>) -> Option<Seq<char>> {
    match o {
        Some(s) => Some(s@),
        None => None,
    }
}

/// The text of an optional link argument as it is used: without surrounding whitespace.
pub open spec fn trimmed_arg(o: Option<String>) -> Option<Seq<char>> {
    match o {
        Some(s) => Some(trimmed(s@)),
        None => None,
    }
}

/// The trimmed link of an optional link argument.
fn trimmed_opt(link: &Option<String>) -> (r: Option<String>)
    ensures
        opt_view(r) == trimmed_arg(*link),
{
    match link {
        Some(l) => Some(trimmed_link(l)),
        None => None,
    }
}

/// The steps of the sensor that acts on its local Streams client.
pub fn plan_local_sensor(args: &SensorArgs) -> (r: Vec<LocalSensorStep>)
    ensures
        local_steps_view(r@) == local_sensor_steps(
            trimmed_arg(args.subscribe_announcement_link),
            args.files_to_send is Some,
            opt_view(args.random_msg_of_size),
            trimmed_arg(args.register_keyload_msg),
            args.clear_client_state,
        ),
{
    let subscribe = args.subscribe_announcement_link.is_some();
    let register_keyload = args.register_keyload_msg.is_some();
    let subscribe_link = trimmed_opt(&args.subscribe_announcement_link);
    let keyload_link = trimmed_opt(&args.register_keyload_msg);
    let ghost sl = opt_view(subscribe_link);
    let ghost kl = opt_view(keyload_link);
    let mut steps: Vec<LocalSensorStep> = Vec::new();
    match subscribe_link {
        Some(l) => steps.push(LocalSensorStep::SubscribeToChannel(l)),
        None => {},
    }
    if args.files_to_send.is_some() {
        steps.push(LocalSensorStep::SendMessagesInEndlessLoop);
    }
    let ghost head = local_steps_view(steps@);
    assert(head =~= link_step(sl, true) + step_if(args.files_to_send is Some, LocalStep::SendMessagesInEndlessLoop));
    match &args.random_msg_of_size {
        Some(size_text) => {
            match parse_usize(size_text.as_str()) {
                Some(n) => {
                    steps.push(LocalSensorStep::SendRandomMessageInEndlessLoop(n));
                    assert(local_steps_view(steps@) =~= head.push(LocalStep::SendRandomMessageInEndlessLoop(n)));
                },
                None => {
                    steps.push(LocalSensorStep::InvalidRandomMessageSize);
                    assert(local_steps_view(steps@) =~= head.push(LocalStep::InvalidRandomMessageSize));
                    return steps;
                },
            }
        },
        None => {},
    }
    let ghost mid = local_steps_view(steps@);
    match keyload_link {
        Some(l) => steps.push(LocalSensorStep::RegisterKeyloadMsg(l)),
        None => {},
    }
    if args.clear_client_state {
        steps.push(LocalSensorStep::ClearClientState);
    }
    if !subscribe && !register_keyload && !args.clear_client_state {
        steps.push(LocalSensorStep::PrintlnSubscriberStatus);
    }
    assert(local_steps_view(steps@) =~= mid + (link_step(kl, false) + step_if(
        args.clear_client_state,
        LocalStep::ClearClientState,
    ) + step_if(sl is None && kl is None && !args.clear_client_state, LocalStep::PrintlnSubscriberStatus)));
    steps
}

/// The local sensor prints its subscriber status exactly when it neither subscribes, nor
/// registers a keyload message, nor clears its state (and the steps do not end early on an
/// invalid random message size); the status is printed last.
pub proof fn lemma_status_printed_without_state_changes(
    subscribe_link: Option<Seq<char>>,
    send_files: bool,
    random_size: Option<Seq<char>>,
    keyload_link: Option<Seq<char>>,
    clear: bool,
)
    requires
        random_size is None || parsed_usize(random_size->0) is Some,
    ensures
        local_sensor_steps(subscribe_link, send_files, random_size, keyload_link, clear).contains(
            LocalStep::PrintlnSubscriberStatus,
        ) <==> (subscribe_link is None && keyload_link is None && !clear),
        (subscribe_link is None && keyload_link is None && !clear) ==> local_sensor_steps(
            subscribe_link,
            send_files,
            random_size,
            keyload_link,
            clear,
        ).last() == LocalStep::PrintlnSubscriberStatus,
{
    let steps = local_sensor_steps(subscribe_link, send_files, random_size, keyload_link, clear);
    let show = subscribe_link is None && keyload_link is None && !clear;
    if show {
        assert(steps[steps.len() - 1] == LocalStep::PrintlnSubscriberStatus);
    } else {
        assert forall|i: int| 0 <= i < steps.len() implies steps[i] != LocalStep::PrintlnSubscriberStatus by {
        }
    }
}

/// Whether a random message of `msg_size` bytes is longer than recommended.
pub fn exceeds_max_random_message_size(msg_size: usize) -> (r: bool)
    ensures
        r == (msg_size > MAX_SIZE_RANDOM_MESSAGE),
{
    msg_size > MAX_SIZE_RANDOM_MESSAGE
}

/// A link argument as it is used: without surrounding whitespace.
pub fn trimmed_link(link: &String) -> (r: String)
    ensures
        r@ == trimmed(link@),
{
    str_trim(link.as_str())
}

/// The steps of the sensor that remote controls another sensor.
#[derive(PartialEq, Eq, Clone, Debug)]
pub enum RemoteControlStep {
    /// Make the remote sensor subscribe to the channel of this announcement link.
    SubscribeToChannel(String),
    /// Make the remote sensor send this message file, the first one given, again and again.
    SendMessagesInEndlessLoop(String),
    /// Message files were asked for but none was given: only a warning.
    NoMessageFile,
    /// Make the remote sensor register this keyload message.
    RegisterKeyloadMsg(String),
    /// Make the remote sensor clear its client state.
    ClearClientState,
    /// Make the remote sensor print its subscriber status.
    PrintlnSubscriberStatus,
}

/// A step of the remote control, with the links and the file as text.
pub enum RemoteStep {
    SubscribeToChannel(Seq<char>),
    SendMessagesInEndlessLoop(Seq<char>),
    NoMessageFile,
    RegisterKeyloadMsg(Seq<char>),
    ClearClientState,
    PrintlnSubscriberStatus,
}

impl View for RemoteControlStep {
    type V = RemoteStep;

    open spec fn view(&self) -> RemoteStep {
        match self {
            RemoteControlStep::SubscribeToChannel(l) => RemoteStep::SubscribeToChannel(l@),
            RemoteControlStep::SendMessagesInEndlessLoop(f) => RemoteStep::SendMessagesInEndlessLoop(f@),
            RemoteControlStep::NoMessageFile => RemoteStep::NoMessageFile,
            RemoteControlStep::RegisterKeyloadMsg(l) => RemoteStep::RegisterKeyloadMsg(l@),
            RemoteControlStep::ClearClientState => RemoteStep::ClearClientState,
            RemoteControlStep::PrintlnSubscriberStatus => RemoteStep::PrintlnSubscriberStatus,
        }
    }
}

/// The steps of a remote control plan as text.
pub open spec fn remote_steps_view(steps: Seq<RemoteControlStep>) -> Seq<RemoteStep> {
    steps.map_values(|s: RemoteControlStep| s@)
}

/// One remote control step if `b` holds, none otherwise.
pub open spec fn remote_step_if(b: bool, s: RemoteStep) -> Seq<RemoteStep> {
    if b { seq![s] } else { Seq::empty() }
}

/// The message files of the arguments as texts, if any were given.
pub open spec fn files_view(files: Option<Vec<String>>) -> Option<Seq<Seq<char>>> {
    match files {
        Some(v) => Some(v@.map_values(|f: String| f@)),
        None => None,
    }
}

/// The steps of the remote control for the (trimmed) announcement and keyload links, in
/// their order; of the message files only the first is sent. The subscriber status is
/// printed when asked for, unless the remote sensor subscribes or registers a keyload
/// message.
pub open spec fn remote_control_steps(
    subscribe_link: Option<Seq<char>>,
    files: Option<Seq<Seq<char>>>,
    keyload_link: Option<Seq<char>>,
    clear: bool,
    println_status: bool,
) -> Seq<RemoteStep> {
    (match subscribe_link {
        Some(l) => seq![RemoteStep::SubscribeToChannel(l)],
        None => Seq::empty(),
    }) + (match files {
        None => Seq::empty(),
        Some(f) => if f.len() > 0 {
            seq![RemoteStep::SendMessagesInEndlessLoop(f[0])]
        } else {
            seq![RemoteStep::NoMessageFile]
        },
    }) + (match keyload_link {
        Some(l) => seq![RemoteStep::RegisterKeyloadMsg(l)],
        None => Seq::empty(),
    }) + remote_step_if(clear, RemoteStep::ClearClientState) + remote_step_if(
        println_status && subscribe_link is None && keyload_link is None,
        RemoteStep::PrintlnSubscriberStatus,
    )
}

/// The steps of the sensor that remote controls another sensor.
pub fn plan_remote_control(args: &SensorArgs) -> (r: Vec<RemoteControlStep>)
    ensures
        remote_steps_view(r@) == remote_control_steps(
            trimmed_arg(args.subscribe_announcement_link),
            files_view(args.files_to_send),
            trimmed_arg(args.register_keyload_msg),
            args.clear_client_state,
            args.println_subscriber_status,
        ),
{
    let subscribe = args.subscribe_announcement_link.is_some();
    let register_keyload = args.register_keyload_msg.is_some();
    let subscribe_link = trimmed_opt(&args.subscribe_announcement_link);
    let keyload_link = trimmed_opt(&args.register_keyload_msg);
    let mut steps: Vec<RemoteControlStep> = Vec::new();
    match subscribe_link {
        Some(l) => steps.push(RemoteControlStep::SubscribeToChannel(l)),
        None => {},
    }
    match &args.files_to_send {
        Some(files) => {
            if files.len() > 0 {
                steps.push(RemoteControlStep::SendMessagesInEndlessLoop(files[0].clone()));
            } else {
                steps.push(RemoteControlStep::NoMessageFile);
            }
        },
        None => {},
    }
    match keyload_link {
        Some(l) => steps.push(RemoteControlStep::RegisterKeyloadMsg(l)),
        None => {},
    }
    if args.clear_client_state {
        steps.push(RemoteControlStep::ClearClientState);
    }
    if args.println_subscriber_status && !subscribe && !register_keyload {
        steps.push(RemoteControlStep::PrintlnSubscriberStatus);
    }
    assert(remote_steps_view(steps@) =~= remote_control_steps(
        trimmed_arg(args.subscribe_announcement_link),
        files_view(args.files_to_send),
        trimmed_arg(args.register_keyload_msg),
        args.clear_client_state,
        args.println_subscriber_status,
    ));
    steps
}

/// The URL of the iota-bridge: the one of the arguments, or the default.
pub fn iota_bridge_url_or(iota_bridge_url: &Option<String>, default_url: &str) -> (r: String)
    ensures
        r@ == (match iota_bridge_url {
            Some(u) => u@,
            None => default_url@,
        }),
{
    match iota_bridge_url {
        Some(u) => u.clone(),
        None => default_url.to_string(),
    }
}

/// The DevEUI of the mocked LoRaWAN node for a stored DevEUI, the DevEUI of the arguments
/// and a random number: the stored one if there is one, else the argument, else the number
/// in decimal.
pub open spec fn mocked_dev_eui(stored: Seq<char>, dev_eui_arg: Option<Seq<char>>, random: u64) -> Seq<char> {
    if stored.len() > 0 {
        stored
    } else {
        match dev_eui_arg {
            Some(a) => a,
            None => decimal_digits(random as nat),
        }
    }
}

/// The DevEUI of the mocked LoRaWAN node, given the random number to use when neither a
/// stored DevEUI nor an argument gives one. The flag tells whether the DevEUI is new and has
/// to be stored in the wallet.
pub fn mocked_lorawan_dev_eui(stored: &String, dev_eui_arg: &Option<String>, random: u64) -> (r: (String, bool))
    ensures
        r.0@ == mocked_dev_eui(stored@, opt_view(*dev_eui_arg), random),
        r.1 == (stored@.len() == 0),
{
    if stored.as_str().unicode_len() == 0 {
        let new_dev_eui = match dev_eui_arg {
            Some(a) => a.clone(),
            None => u64_to_decimal(random),
        };
        (new_dev_eui, true)
    } else {
        (stored.clone(), false)
    }
}

/// The DevEUI of the mocked LoRaWAN node: the stored one, else the one of the arguments,
/// else a random number below `u64::MAX` in decimal. The flag tells whether the DevEUI is
/// new and has to be stored in the wallet.
pub fn manage_mocked_lorawan_dev_eui(stored: &String, dev_eui_arg: &Option<String>) -> (r: (String, bool))
    ensures
        r.1 == (stored@.len() == 0),
        exists|random: u64| random < u64::MAX && r.0@ == mocked_dev_eui(stored@, opt_view(*dev_eui_arg), random),
{
    let random = if stored.as_str().unicode_len() == 0 && dev_eui_arg.is_none() {
        random_in_range(0, u64::MAX)
    } else {
        0
    };
    mocked_lorawan_dev_eui(stored, dev_eui_arg, random)
}

/// The options of the remote manager: the URL of the iota-bridge it talks to.
pub struct RemoteManagerOptions<'a> {
    pub http_url: &'a str,
}

impl<'a> RemoteManagerOptions<'a> {
    /// Options for the iota-bridge at `http_url`.
    pub fn new(http_url: &'a str) -> (r: RemoteManagerOptions<'a>)
        ensures
            r.http_url@ == http_url@,
    {
        RemoteManagerOptions { http_url }
    }

    /// How the options are displayed.
    pub fn to_text(&self) -> (r: String)
        ensures
            r@ == "RemoteManagerOptions: http_url: "@ + self.http_url@,
    {
        "RemoteManagerOptions: http_url: ".to_string().concat(self.http_url)
    }

    /// The URL of the iota-bridge.
    pub fn get_proxy_url(&self) -> (r: &'a str)
        ensures
            r@ == self.http_url@,
    {
        self.http_url
    }
}

} // verus!
