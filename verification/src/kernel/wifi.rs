//! The station task: how the device keeps itself on a wireless network.

use crate::wireless::{
    dhcp_hostname, ClientConfiguration, ClientConfigurationView, Configuration, HostnameTooLong,
    WpsConfig, WpsConfigView, WpsCredentials,
};
use vstd::prelude::*;

verus! {

/// What the radio reports to the station task.
pub enum WifiEvent {
    StaStarted,
    StaWpsSuccess(Vec<WpsCredentials>),
    StaWpsFailed,
    StaWpsTimeout,
    StaWpsPin(Option<u32>),
    StaWpsPbcOverlap,
    StaConnected,
    Ready,
    StaDisconnected,
    Other,
}

/// What the station task is fed with: an event of the radio, or the
/// configuration that it asked for.
pub enum StationInput {
    Event(WifiEvent),
    Configuration(Configuration),
}

/// What the station task asks for.
pub enum WifiCommand {
    /// Read the stored configuration and feed it back.
    ReadConfiguration,
    /// Drop the stored configuration, which leaves the radio in station mode.
    ClearConfiguration,
    /// Start WPS; not being able to is fatal.
    StartWps(WpsConfig),
    /// Stop WPS; not being able to is fatal.
    StopWps,
    /// Store a configuration; not being able to is fatal.
    SetConfiguration(ClientConfiguration),
    /// Start connecting; not being able to is fatal.
    Connect,
    /// Start connecting; not being able to is only reported.
    Reconnect,
    /// Let whoever waits for the network go on.
    SignalReady,
    /// Report the address that was obtained.
    ReportIpInfo,
    /// Stop WPS and give up with the status that it ended with.
    AbortWps,
}

pub enum WifiCommandView {
    ReadConfiguration,
    ClearConfiguration,
    StartWps(WpsConfigView),
    StopWps,
    SetConfiguration(ClientConfigurationView),
    Connect,
    Reconnect,
    SignalReady,
    ReportIpInfo,
    AbortWps,
}

impl View for WifiCommand {
    type V = WifiCommandView;

    open spec fn view(&self) -> WifiCommandView {
        match self {
            WifiCommand::ReadConfiguration => WifiCommandView::ReadConfiguration,
            WifiCommand::ClearConfiguration => WifiCommandView::ClearConfiguration,
            WifiCommand::StartWps(config) => WifiCommandView::StartWps(config@),
            WifiCommand::StopWps => WifiCommandView::StopWps,
            WifiCommand::SetConfiguration(configuration) => WifiCommandView::SetConfiguration(
                configuration@,
            ),
            WifiCommand::Connect => WifiCommandView::Connect,
            WifiCommand::Reconnect => WifiCommandView::Reconnect,
            WifiCommand::SignalReady => WifiCommandView::SignalReady,
            WifiCommand::ReportIpInfo => WifiCommandView::ReportIpInfo,
            WifiCommand::AbortWps => WifiCommandView::AbortWps,
        }
    }
}

/// The commands, each by its view.
pub open spec fn commands_view(commands: Seq<WifiCommand>) -> Seq<WifiCommandView> {
    commands.map_values(|command: WifiCommand| command@)
}

/// Where the station task stands between two inputs.
#[derive(Clone, Copy, PartialEq, Eq, Structural, Debug)]
pub struct StationState {
    /// The station is connected to an access point.
    pub connected: bool,
    /// WPS is running.
    pub wps_started: bool,
    /// The stored configuration has been asked for.
    pub awaiting_configuration: bool,
    /// WPS failed, and the task gave up.
    pub gave_up: bool,
}

impl StationState {
    /// The state in which the task starts.
    pub open spec fn initial() -> StationState {
        StationState {
            connected: false,
            wps_started: false,
            awaiting_configuration: false,
            gave_up: false,
        }
    }

    /// The configuration is never awaited while WPS is running.
    pub open spec fn valid(self) -> bool {
        !(self.awaiting_configuration && self.wps_started)
    }

    /// The state after an input. A task that gave up stays as it is.
    pub open spec fn after(self, input: StationInput) -> StationState {
        if self.gave_up {
            self
        } else {
            match input {
                StationInput::Configuration(configuration) => StationState {
                    awaiting_configuration: false,
                    wps_started: self.wps_started || (self.awaiting_configuration
                        && !holds_network(configuration)),
                    ..self
                },
                StationInput::Event(event) => match event {
                    WifiEvent::StaStarted => StationState {
                        awaiting_configuration: self.awaiting_configuration || !self.wps_started,
                        ..self
                    },
                    WifiEvent::StaWpsFailed
                    | WifiEvent::StaWpsTimeout
                    | WifiEvent::StaWpsPin(_)
                    | WifiEvent::StaWpsPbcOverlap => StationState { gave_up: true, ..self },
                    WifiEvent::StaWpsSuccess(_) => StationState { wps_started: false, ..self },
                    WifiEvent::StaConnected => StationState { connected: true, ..self },
                    WifiEvent::StaDisconnected => StationState {
                        connected: self.connected && self.wps_started,
                        ..self
                    },
                    WifiEvent::Ready | WifiEvent::Other => self,
                },
            }
        }
    }

    /// What the task of the given device asks for on an input. Where WPS ends with
    /// credentials, the network that is stored is the first one received. Where WPS
    /// fails, the task gives up, and asks for nothing any more after that.
    pub open spec fn commands(self, input: StationInput, device_name: Seq<char>) -> Seq<
        WifiCommandView,
    > {
        if self.gave_up {
            seq![]
        } else {
            match input {
                StationInput::Configuration(configuration) => if !self.awaiting_configuration {
                    seq![]
                } else if holds_network(configuration) {
                    seq![WifiCommandView::Connect]
                } else {
                    seq![
                        WifiCommandView::ClearConfiguration,
                        WifiCommandView::StartWps(crate::wireless::push_button(device_name)),
                    ]
                },
                StationInput::Event(event) => match event {
                    WifiEvent::StaStarted => if self.wps_started {
                        seq![]
                    } else {
                        seq![WifiCommandView::ReadConfiguration]
                    },
                    WifiEvent::StaWpsSuccess(credentials) => if credentials@.len() == 0 {
                        seq![WifiCommandView::StopWps, WifiCommandView::Connect]
                    } else {
                        seq![
                            WifiCommandView::StopWps,
                            WifiCommandView::SetConfiguration(
                                crate::wireless::personal_network(
                                    credentials@[0].ssid@,
                                    credentials@[0].passphrase@,
                                ),
                            ),
                            WifiCommandView::Connect,
                        ]
                    },
                    WifiEvent::StaWpsFailed
                    | WifiEvent::StaWpsTimeout
                    | WifiEvent::StaWpsPin(_)
                    | WifiEvent::StaWpsPbcOverlap => seq![WifiCommandView::AbortWps],
                    WifiEvent::Ready => seq![
                        WifiCommandView::SignalReady,
                        WifiCommandView::ReportIpInfo,
                    ],
                    WifiEvent::StaDisconnected => if self.connected && !self.wps_started {
                        seq![WifiCommandView::Reconnect]
                    } else {
                        seq![]
                    },
                    WifiEvent::StaConnected | WifiEvent::Other => seq![],
                },
            }
        }
    }
}

/// Whether a configuration names a network to join.
pub open spec fn holds_network(configuration: Configuration) -> bool {
    match configuration {
        Configuration::Client { ssid } => ssid@.len() > 0,
        Configuration::Mixed { ssid } => ssid@.len() > 0,
        Configuration::Unset | Configuration::AccessPoint => false,
    }
}

/// Whether a configuration names a network to join.
pub fn has_stored_client_configuration(wifi_config: Configuration) -> (stored: bool)
    ensures
        stored == holds_network(wifi_config),
{
    match wifi_config {
        Configuration::Client { ssid } => has_stored_ssid(ssid.as_str(), ""),
        Configuration::Mixed { ssid } => has_stored_ssid(ssid.as_str(), " (mixed)"),
        Configuration::Unset | Configuration::AccessPoint => false,
    }
}

/// Whether an SSID names a network. The suffix tells the kind of configuration
/// apart where it is reported, and does not bear on the answer.
pub fn has_stored_ssid(ssid: &str, _suffix: &str) -> (stored: bool)
    ensures
        stored == (ssid@.len() > 0),
{
    !ssid.is_empty()
}

/// The station task of one device.
pub struct WifiEventTask {
    device_name: String,
    state: StationState,
}

impl WifiEventTask {
    /// The name that the device goes by.
    pub closed spec fn device_name(&self) -> Seq<char> {
        self.device_name@
    }

    /// Where the task stands.
    pub closed spec fn state(&self) -> StationState {
        self.state
    }

    /// The task of a device, before the first input.
    pub fn new(device_name: &str) -> (task: WifiEventTask)
        ensures
            task.device_name() == device_name@,
            task.state() == StationState::initial(),
    {
        WifiEventTask {
            device_name: String::from_str(device_name),
            state: StationState {
                connected: false,
                wps_started: false,
                awaiting_configuration: false,
                gave_up: false,
            },
        }
    }

    /// Takes one input, and says what is to be done about it, in order.
    pub fn step(&mut self, input: StationInput) -> (commands: Vec<WifiCommand>)
        ensures
            final(self).device_name() == old(self).device_name(),
            final(self).state() == old(self).state().after(input),
            commands_view(commands@) == old(self).state().commands(
                input,
                old(self).device_name(),
            ),
    {
        let mut commands: Vec<WifiCommand> = Vec::new();
        if self.state.gave_up {
            assert(commands_view(commands@) =~= seq![]);
            return commands;
        }
        match input {
            StationInput::Configuration(configuration) => {
                if self.state.awaiting_configuration {
                    self.state.awaiting_configuration = false;
                    if has_stored_client_configuration(configuration) {
                        commands.push(WifiCommand::Connect);
                    } else {
                        commands.push(WifiCommand::ClearConfiguration);
                        commands.push(
                            WifiCommand::StartWps(WpsConfig::push_button(self.device_name.as_str())),
                        );
                        self.state.wps_started = true;
                    }
                }
            },
            StationInput::Event(event) => match event {
                WifiEvent::StaStarted => {
                    if !self.state.wps_started {
                        self.state.awaiting_configuration = true;
                        commands.push(WifiCommand::ReadConfiguration);
                    }
                },
                WifiEvent::StaWpsSuccess(credentials) => {
                    self.state.wps_started = false;
                    commands.push(WifiCommand::StopWps);
                    if !credentials.is_empty() {
                        commands.push(
                            WifiCommand::SetConfiguration(
                                ClientConfiguration::personal(
                                    credentials[0].ssid.clone(),
                                    credentials[0].passphrase.clone(),
                                ),
                            ),
                        );
                    }
                    commands.push(WifiCommand::Connect);
                },
                WifiEvent::StaWpsFailed
                | WifiEvent::StaWpsTimeout
                | WifiEvent::StaWpsPin(_)
                | WifiEvent::StaWpsPbcOverlap => {
                    self.state.gave_up = true;
                    commands.push(WifiCommand::AbortWps);
                },
                WifiEvent::StaConnected => {
                    self.state.connected = true;
                },
                WifiEvent::Ready => {
                    commands.push(WifiCommand::SignalReady);
                    commands.push(WifiCommand::ReportIpInfo);
                },
                WifiEvent::StaDisconnected => {
                    if !self.state.wps_started && self.state.connected {
                        self.state.connected = false;
                        commands.push(WifiCommand::Reconnect);
                    }
                },
                WifiEvent::Other => {},
            },
        }
        proof {
            let expected = old(self).state().commands(input, old(self).device_name());
            assert(commands_view(commands@) =~= expected);
        }
        commands
    }
}

/// What a device's station is set up with.
pub struct Wifi {
    /// The host name to ask the DHCP server for.
    pub hostname: String,
    /// The task that keeps the station connected.
    pub task: WifiEventTask,
}

impl Wifi {
    /// Sets the station of a device up.
    pub fn create(device_name: &str) -> (wifi: Result<Wifi, HostnameTooLong>)
        ensures
            wifi is Ok <==> crate::wireless::fits_hostname(device_name@),
            wifi matches Ok(w) ==> w.hostname@ == device_name@ && w.task.device_name()
                == device_name@ && w.task.state() == StationState::initial(),
    {
        match dhcp_hostname(device_name) {
            Ok(hostname) => Ok(Wifi { hostname, task: WifiEventTask::new(device_name) }),
            Err(error) => Err(error),
        }
    }
}

/// The state after all the inputs, taken in order from the start.
pub open spec fn run(inputs: Seq<StationInput>) -> StationState
    decreases inputs.len(),
{
    if inputs.len() == 0 {
        StationState::initial()
    } else {
        run(inputs.drop_last()).after(inputs.last())
    }
}

/// Whether the task asks for `wanted` on the input at `place`.
pub open spec fn asks(
    inputs: Seq<StationInput>,
    place: int,
    device_name: Seq<char>,
    wanted: WifiCommandView,
) -> bool {
    run(inputs.take(place)).commands(inputs[place], device_name).contains(wanted)
}

/// Whether WPS is started on the input at `place`.
pub open spec fn starts_wps(inputs: Seq<StationInput>, place: int, device_name: Seq<char>) -> bool {
    asks(
        inputs,
        place,
        device_name,
        WifiCommandView::StartWps(crate::wireless::push_button(device_name)),
    )
}

/// Whether WPS succeeded, and was stopped, on the input at `place`.
pub open spec fn ends_wps(inputs: Seq<StationInput>, place: int, device_name: Seq<char>) -> bool {
    reports_wps_success(inputs[place]) && asks(
        inputs,
        place,
        device_name,
        WifiCommandView::StopWps,
    )
}

/// Whether the task reconnects on the input at `place`.
pub open spec fn reconnects(inputs: Seq<StationInput>, place: int, device_name: Seq<char>) -> bool {
    asks(inputs, place, device_name, WifiCommandView::Reconnect)
}

/// Whether WPS was started on one of the inputs, and no success was reported after that.
pub open spec fn wps_runs(inputs: Seq<StationInput>, device_name: Seq<char>) -> bool {
    exists|k: int|
        0 <= k < inputs.len() && #[trigger] starts_wps(inputs, k, device_name) && forall|m: int|
            k < m < inputs.len() ==> !#[trigger] reports_wps_success(inputs[m])
}

/// Whether a failure of WPS was reported among the inputs.
pub open spec fn wps_failed(inputs: Seq<StationInput>) -> bool {
    exists|k: int| 0 <= k < inputs.len() && #[trigger] reports_wps_failure(inputs[k])
}

/// Whether a connection was reported among the inputs, and the task did not reconnect
/// after that.
pub open spec fn connected_since(inputs: Seq<StationInput>, device_name: Seq<char>) -> bool {
    exists|k: int|
        0 <= k < inputs.len() && #[trigger] reports_connected(inputs[k]) && forall|m: int|
            k < m < inputs.len() ==> !#[trigger] reconnects(inputs, m, device_name)
}

/// Whether an input reports that WPS succeeded.
pub open spec fn reports_wps_success(input: StationInput) -> bool {
    input matches StationInput::Event(event) && event is StaWpsSuccess
}

/// Whether an input reports that WPS failed.
pub open spec fn reports_wps_failure(input: StationInput) -> bool {
    input matches StationInput::Event(event) && (event is StaWpsFailed || event is StaWpsTimeout
        || event is StaWpsPin || event is StaWpsPbcOverlap)
}

/// Whether an input reports that the station got connected.
pub open spec fn reports_connected(input: StationInput) -> bool {
    input matches StationInput::Event(event) && event is StaConnected
}

/// Every state that the task reaches is valid.
pub proof fn law_states_are_valid(inputs: Seq<StationInput>)
    ensures
        run(inputs).valid(),
    decreases inputs.len(),
{
    if inputs.len() > 0 {
        law_states_are_valid(inputs.drop_last());
    }
}

/// While WPS is running, the station being started or disconnected changes
/// nothing and asks for nothing.
pub proof fn law_wps_is_not_disturbed(
    state: StationState,
    input: StationInput,
    device_name: Seq<char>,
)
    requires
        state.valid(),
        state.wps_started,
        input matches StationInput::Event(event) && (event is StaStarted
            || event is StaDisconnected),
    ensures
        state.after(input) == state,
        state.commands(input, device_name).len() == 0,
{
}

/// A task gives up exactly when a failure of WPS is reported, and for good.
pub proof fn law_gives_up_when_wps_fails(inputs: Seq<StationInput>)
    ensures
        run(inputs).gave_up <==> wps_failed(inputs),
    decreases inputs.len(),
{
    if inputs.len() > 0 {
        let before = inputs.drop_last();
        law_gives_up_when_wps_fails(before);
        if run(before).gave_up {
            let k = choose|k: int|
                0 <= k < before.len() && #[trigger] reports_wps_failure(before[k]);
            assert(reports_wps_failure(inputs[k]));
        }
        if reports_wps_failure(inputs.last()) {
            assert(reports_wps_failure(inputs[inputs.len() - 1]));
        }
        if wps_failed(inputs) {
            let k = choose|k: int|
                0 <= k < inputs.len() && #[trigger] reports_wps_failure(inputs[k]);
            if k < before.len() {
                assert(reports_wps_failure(before[k]));
            }
        }
    }
}

/// The first failure of WPS is answered with giving up and with nothing else, and no
/// later input is answered at all.
pub proof fn law_nothing_follows_a_wps_failure(
    inputs: Seq<StationInput>,
    failure: int,
    place: int,
    device_name: Seq<char>,
)
    requires
        0 <= failure < inputs.len(),
        reports_wps_failure(inputs[failure]),
        forall|k: int| 0 <= k < failure ==> !#[trigger] reports_wps_failure(inputs[k]),
        failure < place < inputs.len(),
    ensures
        run(inputs.take(failure)).commands(inputs[failure], device_name)
            == seq![WifiCommandView::AbortWps],
        run(inputs.take(place)).commands(inputs[place], device_name) == Seq::<
            WifiCommandView,
        >::empty(),
        run(inputs.take(place + 1)) == run(inputs.take(place)),
{
    let before = inputs.take(failure);
    law_gives_up_when_wps_fails(before);
    assert forall|k: int| 0 <= k < before.len() implies !#[trigger] reports_wps_failure(
        before[k],
    ) by {
        assert(!reports_wps_failure(inputs[k]));
    }
    let later = inputs.take(place);
    law_gives_up_when_wps_fails(later);
    assert(reports_wps_failure(later[failure]));
    lemma_run_goes_on(inputs, place);
}

proof fn lemma_run_goes_on(inputs: Seq<StationInput>, place: int)
    requires
        0 <= place < inputs.len(),
    ensures
        run(inputs.take(place + 1)) == run(inputs.take(place)).after(inputs[place]),
{
    assert(inputs.take(place + 1).drop_last() =~= inputs.take(place));
}

/// WPS that was started is running until it ends.
proof fn lemma_wps_runs_until_it_ends(
    inputs: Seq<StationInput>,
    first: int,
    place: int,
    device_name: Seq<char>,
)
    requires
        0 <= first < place <= inputs.len(),
        starts_wps(inputs, first, device_name),
        forall|k: int| first < k < place ==> !#[trigger] ends_wps(inputs, k, device_name),
    ensures
        run(inputs.take(place)).wps_started,
    decreases place,
{
    lemma_run_goes_on(inputs, place - 1);
    if place - 1 > first {
        lemma_wps_runs_until_it_ends(inputs, first, place - 1, device_name);
        let input = inputs[place - 1];
        assert(!ends_wps(inputs, place - 1, device_name));
        let commands = run(inputs.take(place - 1)).commands(input, device_name);
        if reports_wps_success(input) && !run(inputs.take(place - 1)).gave_up {
            assert(commands[0] == WifiCommandView::StopWps);
        }
    }
}

/// WPS is not started again before it has ended: between two inputs on which it is
/// started lies one that reports its success and on which it is stopped.
pub proof fn law_one_wps_session_at_a_time(
    inputs: Seq<StationInput>,
    first: int,
    second: int,
    device_name: Seq<char>,
)
    requires
        0 <= first < second < inputs.len(),
        starts_wps(inputs, first, device_name),
        starts_wps(inputs, second, device_name),
    ensures
        exists|k: int| first < k < second && #[trigger] ends_wps(inputs, k, device_name),
{
    if forall|k: int| first < k < second ==> !#[trigger] ends_wps(inputs, k, device_name) {
        lemma_wps_runs_until_it_ends(inputs, first, second, device_name);
        law_states_are_valid(inputs.take(second));
    }
}

/// What is asked for on an input does not depend on what comes after it.
proof fn lemma_asks_alike(
    inputs: Seq<StationInput>,
    place: int,
    device_name: Seq<char>,
    wanted: WifiCommandView,
)
    requires
        0 <= place < inputs.len() - 1,
    ensures
        asks(inputs, place, device_name, wanted) == asks(
            inputs.drop_last(),
            place,
            device_name,
            wanted,
        ),
{
    assert(inputs.take(place) =~= inputs.drop_last().take(place));
}

/// While the task has not given up, it takes WPS to be running exactly when WPS was
/// started and no success was reported since.
pub proof fn law_wps_runs_until_it_succeeds(inputs: Seq<StationInput>, device_name: Seq<char>)
    requires
        !wps_failed(inputs),
    ensures
        run(inputs).wps_started <==> wps_runs(inputs, device_name),
    decreases inputs.len(),
{
    law_gives_up_when_wps_fails(inputs);
    if inputs.len() > 0 {
        let before = inputs.drop_last();
        let last = inputs.len() - 1;
        let start = WifiCommandView::StartWps(crate::wireless::push_button(device_name));
        law_gives_up_when_wps_fails(before);
        law_wps_runs_until_it_succeeds(before, device_name);
        law_states_are_valid(before);
        assert(inputs.take(last) =~= before);
        let commands = run(before).commands(inputs[last], device_name);
        if run(inputs).wps_started {
            if run(before).wps_started {
                let k = choose|k: int|
                    0 <= k < before.len() && #[trigger] starts_wps(before, k, device_name)
                        && forall|m: int|
                        k < m < before.len() ==> !#[trigger] reports_wps_success(before[m]);
                lemma_asks_alike(inputs, k, device_name, start);
                assert(starts_wps(inputs, k, device_name));
                assert forall|m: int| k < m < inputs.len() implies !#[trigger] reports_wps_success(
                    inputs[m],
                ) by {
                    if m < last {
                        assert(!reports_wps_success(before[m]));
                    }
                }
            } else {
                assert(commands[1] == start);
                assert(starts_wps(inputs, last, device_name));
            }
        }
        if wps_runs(inputs, device_name) {
            let k = choose|k: int|
                0 <= k < inputs.len() && #[trigger] starts_wps(inputs, k, device_name)
                    && forall|m: int|
                    k < m < inputs.len() ==> !#[trigger] reports_wps_success(inputs[m]);
            if k < last {
                lemma_asks_alike(inputs, k, device_name, start);
                assert(starts_wps(before, k, device_name));
                assert forall|m: int| k < m < before.len() implies !#[trigger] reports_wps_success(
                    before[m],
                ) by {
                    assert(!reports_wps_success(inputs[m]));
                }
                assert(!reports_wps_success(inputs[last]));
            }
        }
    }
}

proof fn lemma_connected_tells_reports(inputs: Seq<StationInput>, device_name: Seq<char>)
    requires
        !run(inputs).gave_up,
    ensures
        run(inputs).connected <==> connected_since(inputs, device_name),
    decreases inputs.len(),
{
    if inputs.len() > 0 {
        let before = inputs.drop_last();
        let last = inputs.len() - 1;
        lemma_connected_tells_reports(before, device_name);
        assert(inputs.take(last) =~= before);
        assert forall|m: int| 0 <= m < last implies #[trigger] reconnects(inputs, m, device_name)
            == reconnects(before, m, device_name) by {
            lemma_asks_alike(inputs, m, device_name, WifiCommandView::Reconnect);
        }
        let commands = run(before).commands(inputs[last], device_name);
        if reports_connected(inputs[last]) {
            assert(connected_since(inputs, device_name));
        } else {
            if run(inputs).connected {
                let k = choose|k: int|
                    0 <= k < before.len() && #[trigger] reports_connected(before[k]) && forall|m: int|
                        k < m < before.len() ==> !#[trigger] reconnects(before, m, device_name);
                assert(reports_connected(inputs[k]));
                assert(!reconnects(inputs, last, device_name));
            }
            if connected_since(inputs, device_name) {
                let k = choose|k: int|
                    0 <= k < inputs.len() && #[trigger] reports_connected(inputs[k]) && forall|m: int|
                        k < m < inputs.len() ==> !#[trigger] reconnects(inputs, m, device_name);
                assert(reports_connected(before[k]));
                assert forall|m: int| k < m < before.len() implies !#[trigger] reconnects(
                    before,
                    m,
                    device_name,
                ) by {
                    assert(!reconnects(inputs, m, device_name));
                }
                assert(!reconnects(inputs, last, device_name));
                if run(before).connected && !run(before).wps_started && inputs[last]
                    == StationInput::Event(WifiEvent::StaDisconnected) {
                    assert(commands[0] == WifiCommandView::Reconnect);
                }
            }
        }
    }
}

/// The task reconnects exactly on a disconnection that comes while WPS is not running,
/// after a connection was reported since it last reconnected, and before WPS failed.
pub proof fn law_reconnects_once_per_connection(
    inputs: Seq<StationInput>,
    place: int,
    device_name: Seq<char>,
)
    requires
        0 <= place < inputs.len(),
    ensures
        reconnects(inputs, place, device_name) <==> {
            &&& inputs[place] == StationInput::Event(WifiEvent::StaDisconnected)
            &&& !wps_failed(inputs.take(place))
            &&& !wps_runs(inputs.take(place), device_name)
            &&& connected_since(inputs.take(place), device_name)
        },
{
    let before = inputs.take(place);
    law_gives_up_when_wps_fails(before);
    if !wps_failed(before) {
        lemma_connected_tells_reports(before, device_name);
        law_wps_runs_until_it_succeeds(before, device_name);
    }
    let commands = run(before).commands(inputs[place], device_name);
    if inputs[place] == StationInput::Event(WifiEvent::StaDisconnected) && run(before).connected
        && !run(before).wps_started && !run(before).gave_up {
        assert(commands[0] == WifiCommandView::Reconnect);
    }
}

/// The task connects only after it read a configuration that names a network, or
/// after WPS succeeded.
pub proof fn law_connects_only_to_a_known_network(
    state: StationState,
    input: StationInput,
    device_name: Seq<char>,
)
    requires
        state.commands(input, device_name).contains(WifiCommandView::Connect),
    ensures
        reports_wps_success(input) || (input matches StationInput::Configuration(configuration)
            && state.awaiting_configuration && holds_network(configuration)),
{
}

/// A view tells every command, in order, and every part of it.
pub proof fn law_command_views_are_whole(commands: Seq<WifiCommand>, place: int)
    requires
        0 <= place < commands.len(),
    ensures
        commands_view(commands).len() == commands.len(),
        commands_view(commands)[place] == (match commands[place] {
            WifiCommand::ReadConfiguration => WifiCommandView::ReadConfiguration,
            WifiCommand::ClearConfiguration => WifiCommandView::ClearConfiguration,
            WifiCommand::StartWps(config) => WifiCommandView::StartWps(config@),
            WifiCommand::StopWps => WifiCommandView::StopWps,
            WifiCommand::SetConfiguration(network) => WifiCommandView::SetConfiguration(network@),
            WifiCommand::Connect => WifiCommandView::Connect,
            WifiCommand::Reconnect => WifiCommandView::Reconnect,
            WifiCommand::SignalReady => WifiCommandView::SignalReady,
            WifiCommand::ReportIpInfo => WifiCommandView::ReportIpInfo,
            WifiCommand::AbortWps => WifiCommandView::AbortWps,
        }),
{
}

/// A task begins unconnected, without WPS, and with nothing asked for.
pub proof fn law_tasks_begin_afresh()
    ensures
        !StationState::initial().connected,
        !StationState::initial().wps_started,
        !StationState::initial().awaiting_configuration,
        !StationState::initial().gave_up,
{
}

/// Readiness is signalled, and the address reported after that, exactly when the radio is
/// ready, whatever came before, unless WPS failed.
pub proof fn law_readiness_is_always_signalled(
    inputs: Seq<StationInput>,
    place: int,
    device_name: Seq<char>,
)
    requires
        0 <= place < inputs.len(),
    ensures
        asks(inputs, place, device_name, WifiCommandView::SignalReady) <==> inputs[place]
            == StationInput::Event(WifiEvent::Ready) && !wps_failed(inputs.take(place)),
        asks(inputs, place, device_name, WifiCommandView::ReportIpInfo) <==> inputs[place]
            == StationInput::Event(WifiEvent::Ready) && !wps_failed(inputs.take(place)),
        inputs[place] == StationInput::Event(WifiEvent::Ready) && !wps_failed(inputs.take(place))
            ==> run(inputs.take(place)).commands(inputs[place], device_name) == seq![
            WifiCommandView::SignalReady,
            WifiCommandView::ReportIpInfo,
        ],
{
    law_gives_up_when_wps_fails(inputs.take(place));
    let commands = run(inputs.take(place)).commands(inputs[place], device_name);
    if inputs[place] == StationInput::Event(WifiEvent::Ready) && !wps_failed(inputs.take(place)) {
        assert(commands[0] == WifiCommandView::SignalReady);
        assert(commands[1] == WifiCommandView::ReportIpInfo);
    }
}

/// In any state in which the task has not given up, being ready is answered alike and
/// changes nothing, and what the task does not know is passed over.
pub proof fn law_being_ready_changes_nothing(state: StationState, device_name: Seq<char>)
    requires
        !state.gave_up,
    ensures
        state.commands(StationInput::Event(WifiEvent::Ready), device_name) == seq![
            WifiCommandView::SignalReady,
            WifiCommandView::ReportIpInfo,
        ],
        state.after(StationInput::Event(WifiEvent::Ready)) == state,
        state.commands(StationInput::Event(WifiEvent::Other), device_name).len() == 0,
        state.after(StationInput::Event(WifiEvent::Other)) == state,
{
}

/// A station that was started has its stored configuration read, and nothing else done,
/// unless WPS is running.
pub proof fn law_started_stations_read_their_configuration(
    state: StationState,
    device_name: Seq<char>,
)
    requires
        !state.gave_up,
    ensures
        !state.wps_started ==> {
            &&& state.commands(StationInput::Event(WifiEvent::StaStarted), device_name) == seq![
                WifiCommandView::ReadConfiguration,
            ]
            &&& state.after(StationInput::Event(WifiEvent::StaStarted)) == (StationState {
                awaiting_configuration: true,
                ..state
            })
        },
        state.wps_started ==> {
            &&& state.commands(StationInput::Event(WifiEvent::StaStarted), device_name).len() == 0
            &&& state.after(StationInput::Event(WifiEvent::StaStarted)) == state
        },
{
}

/// A configuration that was asked for and that names a network, alone or beside an access
/// point, makes the task connect, whatever the name.
pub proof fn law_stored_networks_are_connected_to(
    state: StationState,
    ssid: String,
    device_name: Seq<char>,
)
    requires
        !state.gave_up,
        state.awaiting_configuration,
        ssid@.len() > 0,
    ensures
        forall|stored: Configuration|
            stored == (Configuration::Client { ssid }) || stored == (Configuration::Mixed { ssid })
                ==> {
                &&& #[trigger] state.commands(StationInput::Configuration(stored), device_name)
                    == seq![WifiCommandView::Connect]
                &&& state.after(StationInput::Configuration(stored)) == (StationState {
                    awaiting_configuration: false,
                    ..state
                })
            },
{
}

/// A configuration that was asked for and that names no network is dropped, and then WPS is
/// started, in the device's name.
pub proof fn law_wps_starts_without_a_stored_network(
    state: StationState,
    stored: Configuration,
    device_name: Seq<char>,
)
    requires
        !state.gave_up,
        state.awaiting_configuration,
        stored is Unset || stored is AccessPoint || (stored matches Configuration::Client { ssid }
            && ssid@.len() == 0) || (stored matches Configuration::Mixed { ssid } && ssid@.len()
            == 0),
    ensures
        state.commands(StationInput::Configuration(stored), device_name).len() == 2,
        state.commands(StationInput::Configuration(stored), device_name)[0] is ClearConfiguration,
        state.commands(
            StationInput::Configuration(stored),
            device_name,
        )[1] matches WifiCommandView::StartWps(config) && {
            &&& config.wps_type is Pbc
            &&& config.manufacturer == "FarmHub"@
            &&& config.model_name == "Ugly Duckling"@
            &&& config.model_number == "MK6"@
            &&& config.device_name == device_name
        },
        state.after(StationInput::Configuration(stored)) == (StationState {
            awaiting_configuration: false,
            wps_started: true,
            ..state
        }),
{
}

/// A configuration that was not asked for is passed over.
pub proof fn law_unasked_configurations_are_passed_over(
    state: StationState,
    stored: Configuration,
    device_name: Seq<char>,
)
    requires
        !state.awaiting_configuration,
    ensures
        state.commands(StationInput::Configuration(stored), device_name).len() == 0,
        state.after(StationInput::Configuration(stored)) == state,
{
}

/// WPS that succeeded is stopped, and then the task connects, in between to store the first
/// network that was received, if any was: under the name and with the passphrase that came,
/// whatever they are and however many came after them.
pub proof fn law_first_network_received_is_joined(
    state: StationState,
    credentials: Vec<WpsCredentials>,
    device_name: Seq<char>,
)
    requires
        !state.gave_up,
    ensures
        ({
            let input = StationInput::Event(WifiEvent::StaWpsSuccess(credentials));
            let commands = state.commands(input, device_name);
            &&& commands.len() == (if credentials@.len() == 0 {
                2int
            } else {
                3
            })
            &&& commands[0] is StopWps
            &&& commands.last() is Connect
            &&& credentials@.len() > 0 ==> (commands[1] matches WifiCommandView::SetConfiguration(
                network,
            ) && {
                &&& network.ssid == credentials@[0].ssid@
                &&& network.password == credentials@[0].passphrase@
                &&& network.auth_method is WPA2Personal
                &&& network.bssid is None
                &&& network.channel is None
            })
            &&& state.after(input) == (StationState { wps_started: false, ..state })
        }),
{
}

/// In any state in which the task has not given up, each of the four ways for WPS to fail
/// makes it give up, and do nothing else.
pub proof fn law_each_wps_failure_ends_the_task(
    state: StationState,
    pin: Option<u32>,
    failure: WifiEvent,
    device_name: Seq<char>,
)
    requires
        !state.gave_up,
        failure == WifiEvent::StaWpsFailed || failure == WifiEvent::StaWpsTimeout || failure
            == WifiEvent::StaWpsPin(pin) || failure == WifiEvent::StaWpsPbcOverlap,
    ensures
        state.commands(StationInput::Event(failure), device_name) == seq![
            WifiCommandView::AbortWps,
        ],
        state.after(StationInput::Event(failure)) == (StationState { gave_up: true, ..state }),
{
}

/// A task that gave up does nothing about any input, and stays as it is.
pub proof fn law_giving_up_is_for_good(
    state: StationState,
    input: StationInput,
    device_name: Seq<char>,
)
    requires
        state.gave_up,
    ensures
        state.commands(input, device_name).len() == 0,
        state.after(input) == state,
{
}

/// A connection is remembered until it is lost, and one that is lost is made again, once,
/// unless WPS is running.
pub proof fn law_lost_connections_are_made_again(state: StationState, device_name: Seq<char>)
    requires
        !state.gave_up,
    ensures
        state.commands(StationInput::Event(WifiEvent::StaConnected), device_name).len() == 0,
        state.after(StationInput::Event(WifiEvent::StaConnected)) == (StationState {
            connected: true,
            ..state
        }),
        state.connected && !state.wps_started ==> {
            &&& state.commands(StationInput::Event(WifiEvent::StaDisconnected), device_name) == seq![
                WifiCommandView::Reconnect,
            ]
            &&& state.after(StationInput::Event(WifiEvent::StaDisconnected)) == (StationState {
                connected: false,
                ..state
            })
        },
        !state.connected || state.wps_started ==> {
            &&& state.commands(StationInput::Event(WifiEvent::StaDisconnected), device_name).len()
                == 0
            &&& state.after(StationInput::Event(WifiEvent::StaDisconnected)) == state
        },
{
}

/// Whether a network is stored can be told from its name alone: a configuration names one
/// exactly if it has a name that is not empty.
pub proof fn law_networks_are_stored_by_name(ssid: String)
    ensures
        holds_network(Configuration::Client { ssid }) <==> ssid@ != Seq::<char>::empty(),
        holds_network(Configuration::Mixed { ssid }) <==> ssid@ != Seq::<char>::empty(),
        !holds_network(Configuration::Unset),
        !holds_network(Configuration::AccessPoint),
{
    if ssid@.len() == 0 {
        assert(ssid@ =~= Seq::<char>::empty());
    }
}

/// A station is set up under the device's whole name, if that takes at most thirty bytes.
pub proof fn law_stations_go_by_the_device_name(
    device_name: &str,
    wifi: Result<Wifi, HostnameTooLong>,
)
    requires
        call_ensures(Wifi::create, (device_name,), wifi),
    ensures
        wifi is Ok <==> vstd::utf8::encode_utf8(device_name@).len() <= 30,
        wifi matches Ok(station) ==> {
            &&& station.hostname@ == device_name@
            &&& station.task.device_name() == device_name@
            &&& station.task.state() == StationState::initial()
        },
{
}

/// Whether a network is stored is told by its name alone, whatever it is reported with.
pub proof fn law_stored_networks_are_told(
    stored: Configuration,
    found: bool,
    ssid: &str,
    suffix: &str,
    named: bool,
)
    requires
        call_ensures(has_stored_client_configuration, (stored,), found),
        call_ensures(has_stored_ssid, (ssid, suffix), named),
    ensures
        named <==> ssid@.len() > 0,
        found <==> {
            ||| stored matches Configuration::Client { ssid } && ssid@.len() > 0
            ||| stored matches Configuration::Mixed { ssid } && ssid@.len() > 0
        },
{
}

} // verus!
