//! Bringing the wireless network up, step by step: each step is asked for, and
//! the reply to it decides on the next one.

use crate::wireless::{
    ClientConfiguration, ClientConfigurationView, Configuration, WpsConfig, WpsConfigView,
    WpsStatus,
};
use vstd::prelude::*;

verus! {

/// The step that is under way.
#[derive(Clone, Copy, PartialEq, Eq, Structural, Debug)]
pub enum Stage {
    Starting,
    ReadingConfiguration,
    RunningWps,
    StoringConfiguration,
    Connecting,
    AwaitingNetif,
    ReadingIpInfo,
    Up,
    Failed,
}

/// What a step that went well replies.
pub enum Reply {
    Done,
    Configuration(Configuration),
    Wps(WpsStatus),
}

/// Why WPS led to no network.
#[derive(Clone, Copy, PartialEq, Eq, Structural, Debug)]
pub enum WpsFailure {
    Failure,
    Timeout,
    Pin,
    PbcOverlap,
}

impl WpsFailure {
    /// The failure in words.
    pub open spec fn text(self) -> Seq<char> {
        match self {
            WpsFailure::Failure => "WPS failure"@,
            WpsFailure::Timeout => "WPS timeout"@,
            WpsFailure::Pin => "WPS pin"@,
            WpsFailure::PbcOverlap => "WPS PBC overlap"@,
        }
    }

    /// The failure in words.
    pub fn message(&self) -> (message: String)
        ensures
            message@ == self.text(),
    {
        String::from_str(
            match self {
                WpsFailure::Failure => "WPS failure",
                WpsFailure::Timeout => "WPS timeout",
                WpsFailure::Pin => "WPS pin",
                WpsFailure::PbcOverlap => "WPS PBC overlap",
            },
        )
    }
}

/// Why the network did not come up.
pub enum BringUpError<E> {
    /// A step failed.
    Step(E),
    /// WPS led to no network.
    Wps(WpsFailure),
}

/// The step to take next.
pub enum Action<E> {
    ReadConfiguration,
    StartWps(WpsConfig),
    SetConfiguration(ClientConfiguration),
    Connect,
    AwaitNetif,
    ReadIpInfo,
    Finish,
    Fail(BringUpError<E>),
}

pub enum ActionView<E> {
    ReadConfiguration,
    StartWps(WpsConfigView),
    SetConfiguration(ClientConfigurationView),
    Connect,
    AwaitNetif,
    ReadIpInfo,
    Finish,
    Fail(BringUpError<E>),
}

impl<E> View for Action<E> {
    type V = ActionView<E>;

    open spec fn view(&self) -> ActionView<E> {
        match self {
            Action::ReadConfiguration => ActionView::ReadConfiguration,
            Action::StartWps(config) => ActionView::StartWps(config@),
            Action::SetConfiguration(configuration) => ActionView::SetConfiguration(configuration@),
            Action::Connect => ActionView::Connect,
            Action::AwaitNetif => ActionView::AwaitNetif,
            Action::ReadIpInfo => ActionView::ReadIpInfo,
            Action::Finish => ActionView::Finish,
            Action::Fail(error) => ActionView::Fail(*error),
        }
    }
}

/// Whether a stored configuration makes WPS unnecessary: a station configuration
/// always does, a mixed one when it names a network.
pub open spec fn joins_without_wps(configuration: Configuration) -> bool {
    match configuration {
        Configuration::Client { ssid: _ } => true,
        Configuration::Mixed { ssid } => ssid@.len() > 0,
        Configuration::Unset | Configuration::AccessPoint => false,
    }
}

/// Whether a stored configuration makes WPS unnecessary: a station configuration
/// always does, a mixed one when it names a network.
pub fn has_stored_client_configuration(wifi_config: Configuration) -> (stored: bool)
    ensures
        stored == joins_without_wps(wifi_config),
{
    match wifi_config {
        Configuration::Client { ssid: _ } => true,
        Configuration::Mixed { ssid } => !ssid.as_str().is_empty(),
        Configuration::Unset | Configuration::AccessPoint => false,
    }
}

/// Whether WPS led to a network.
pub open spec fn wps_succeeded(status: WpsStatus) -> bool {
    status is SuccessConnected || status is SuccessMultipleAccessPoints
}

/// What it means that WPS led to no network.
pub open spec fn wps_failure(status: WpsStatus) -> WpsFailure {
    match status {
        WpsStatus::Timeout => WpsFailure::Timeout,
        WpsStatus::Pin(_) => WpsFailure::Pin,
        WpsStatus::PbcOverlap => WpsFailure::PbcOverlap,
        _ => WpsFailure::Failure,
    }
}

impl Stage {
    /// Whether nothing more is to be done.
    pub open spec fn ended(self) -> bool {
        self is Up || self is Failed
    }

    /// Whether `reply` answers the step: every step can fail, and one that goes
    /// well replies what it was asked for. WPS that ends with access points
    /// offers at least one.
    pub open spec fn awaits<E>(self, reply: Result<Reply, E>) -> bool {
        &&& !self.ended()
        &&& reply matches Ok(good) ==> match self {
            Stage::ReadingConfiguration => good is Configuration,
            Stage::RunningWps => good matches Reply::Wps(status) && (status matches
                WpsStatus::SuccessMultipleAccessPoints(credentials) ==> credentials@.len() >= 1),
            _ => good is Done,
        }
    }

    /// The stage after a reply; `report_ip` tells whether the address is read once
    /// the network is up.
    pub open spec fn after<E>(self, reply: Result<Reply, E>, report_ip: bool) -> Stage {
        match reply {
            Err(_) => Stage::Failed,
            Ok(good) => match self {
                Stage::Starting => Stage::ReadingConfiguration,
                Stage::ReadingConfiguration => if joins_without_wps(good->Configuration_0) {
                    Stage::Connecting
                } else {
                    Stage::RunningWps
                },
                Stage::RunningWps => match good->Wps_0 {
                    WpsStatus::SuccessConnected => Stage::Connecting,
                    WpsStatus::SuccessMultipleAccessPoints(_) => Stage::StoringConfiguration,
                    _ => Stage::Failed,
                },
                Stage::StoringConfiguration => Stage::Connecting,
                Stage::Connecting => Stage::AwaitingNetif,
                Stage::AwaitingNetif => if report_ip {
                    Stage::ReadingIpInfo
                } else {
                    Stage::Up
                },
                Stage::ReadingIpInfo => Stage::Up,
                Stage::Up | Stage::Failed => self,
            },
        }
    }

    /// The step that the device of the given name takes after a reply: the one
    /// that belongs to the stage that it enters. Where WPS offers access points,
    /// the network of the first one is stored.
    pub open spec fn action<E>(
        self,
        reply: Result<Reply, E>,
        report_ip: bool,
        device_name: Seq<char>,
    ) -> ActionView<E> {
        match self.after(reply, report_ip) {
            Stage::Starting | Stage::ReadingConfiguration => ActionView::ReadConfiguration,
            Stage::RunningWps => ActionView::StartWps(crate::wireless::push_button(device_name)),
            Stage::StoringConfiguration => {
                let credentials = reply->Ok_0->Wps_0->SuccessMultipleAccessPoints_0@;
                ActionView::SetConfiguration(
                    crate::wireless::personal_network(
                        credentials[0].ssid@,
                        credentials[0].passphrase@,
                    ),
                )
            },
            Stage::Connecting => ActionView::Connect,
            Stage::AwaitingNetif => ActionView::AwaitNetif,
            Stage::ReadingIpInfo => ActionView::ReadIpInfo,
            Stage::Up => ActionView::Finish,
            Stage::Failed => ActionView::Fail(
                match reply {
                    Err(error) => BringUpError::Step(error),
                    Ok(good) => BringUpError::Wps(wps_failure(good->Wps_0)),
                },
            ),
        }
    }
}

/// The network of one device on its way up.
pub struct WifiBringUp {
    device_name: String,
    report_ip: bool,
    stage: Stage,
}

impl WifiBringUp {
    /// The name that the device goes by.
    pub closed spec fn device_name(&self) -> Seq<char> {
        self.device_name@
    }

    /// Whether the address is read once the network is up.
    pub closed spec fn report_ip(&self) -> bool {
        self.report_ip
    }

    /// The step that is under way.
    pub closed spec fn stage(&self) -> Stage {
        self.stage
    }

    /// Begins with the radio being started.
    pub fn new(device_name: &str, report_ip: bool) -> (bring_up: WifiBringUp)
        ensures
            bring_up.device_name() == device_name@,
            bring_up.report_ip() == report_ip,
            bring_up.stage() is Starting,
    {
        WifiBringUp { device_name: String::from_str(device_name), report_ip, stage: Stage::Starting }
    }

    /// Whether `reply` answers the step that is under way.
    pub fn awaits<E>(&self, reply: &Result<Reply, E>) -> (awaited: bool)
        ensures
            awaited == self.stage().awaits(*reply),
    {
        match self.stage {
            Stage::Up | Stage::Failed => false,
            Stage::ReadingConfiguration => match reply {
                Err(_) => true,
                Ok(Reply::Configuration(_)) => true,
                Ok(_) => false,
            },
            Stage::RunningWps => match reply {
                Err(_) => true,
                Ok(Reply::Wps(WpsStatus::SuccessMultipleAccessPoints(credentials))) => {
                    credentials.len() >= 1
                },
                Ok(Reply::Wps(_)) => true,
                Ok(_) => false,
            },
            _ => match reply {
                Err(_) => true,
                Ok(Reply::Done) => true,
                Ok(_) => false,
            },
        }
    }

    /// Takes the reply to the step that is under way, and says what the next step
    /// is.
    pub fn step<E>(&mut self, reply: Result<Reply, E>) -> (action: Action<E>)
        requires
            old(self).stage().awaits(reply),
        ensures
            final(self).device_name() == old(self).device_name(),
            final(self).report_ip() == old(self).report_ip(),
            final(self).stage() == old(self).stage().after(reply, old(self).report_ip()),
            action@ == old(self).stage().action(
                reply,
                old(self).report_ip(),
                old(self).device_name(),
            ),
    {
        let good: Reply = match reply {
            Ok(good) => good,
            Err(error) => {
                self.stage = Stage::Failed;
                return Action::Fail(BringUpError::Step(error));
            },
        };
        match self.stage {
            Stage::Starting => {
                self.stage = Stage::ReadingConfiguration;
                Action::ReadConfiguration
            },
            Stage::ReadingConfiguration => {
                let stored: bool = match good {
                    Reply::Configuration(configuration) => has_stored_client_configuration(
                        configuration,
                    ),
                    _ => false,
                };
                if stored {
                    self.stage = Stage::Connecting;
                    Action::Connect
                } else {
                    self.stage = Stage::RunningWps;
                    Action::StartWps(WpsConfig::push_button(self.device_name.as_str()))
                }
            },
            Stage::RunningWps => match good {
                Reply::Wps(WpsStatus::SuccessConnected) => {
                    self.stage = Stage::Connecting;
                    Action::Connect
                },
                Reply::Wps(WpsStatus::SuccessMultipleAccessPoints(credentials)) => {
                    self.stage = Stage::StoringConfiguration;
                    Action::SetConfiguration(
                        ClientConfiguration::personal(
                            credentials[0].ssid.clone(),
                            credentials[0].passphrase.clone(),
                        ),
                    )
                },
                Reply::Wps(status) => {
                    self.stage = Stage::Failed;
                    Action::Fail(
                        BringUpError::Wps(
                            match status {
                                WpsStatus::Timeout => WpsFailure::Timeout,
                                WpsStatus::Pin(_) => WpsFailure::Pin,
                                WpsStatus::PbcOverlap => WpsFailure::PbcOverlap,
                                _ => WpsFailure::Failure,
                            },
                        ),
                    )
                },
                _ => {
                    assert(false);
                    Action::Finish
                },
            },
            Stage::StoringConfiguration => {
                self.stage = Stage::Connecting;
                Action::Connect
            },
            Stage::Connecting => {
                self.stage = Stage::AwaitingNetif;
                Action::AwaitNetif
            },
            Stage::AwaitingNetif => if self.report_ip {
                self.stage = Stage::ReadingIpInfo;
                Action::ReadIpInfo
            } else {
                self.stage = Stage::Up;
                Action::Finish
            },
            _ => {
                self.stage = Stage::Up;
                Action::Finish
            },
        }
    }
}

/// The stage after all the replies, taken in order from the start.
pub open spec fn run<E>(replies: Seq<Result<Reply, E>>, report_ip: bool) -> Stage
    decreases replies.len(),
{
    if replies.len() == 0 {
        Stage::Starting
    } else {
        run(replies.drop_last(), report_ip).after(replies.last(), report_ip)
    }
}

/// Whether each reply answers the step that was under way.
pub open spec fn answers<E>(replies: Seq<Result<Reply, E>>, report_ip: bool) -> bool
    decreases replies.len(),
{
    replies.len() > 0 ==> answers(replies.drop_last(), report_ip) && run(
        replies.drop_last(),
        report_ip,
    ).awaits(replies.last())
}

/// How far a stage is from the start.
pub open spec fn progress(stage: Stage) -> nat {
    match stage {
        Stage::Starting => 0,
        Stage::ReadingConfiguration => 1,
        Stage::RunningWps => 2,
        Stage::StoringConfiguration => 3,
        Stage::Connecting => 4,
        Stage::AwaitingNetif => 5,
        Stage::ReadingIpInfo => 6,
        Stage::Up | Stage::Failed => 7,
    }
}

/// Whether the replies tell of a network to join: a stored configuration that
/// makes WPS unnecessary, or WPS that succeeded.
pub open spec fn network_known<E>(replies: Seq<Result<Reply, E>>) -> bool {
    ||| replies.len() > 1 && (replies[1] matches Ok(Reply::Configuration(configuration))
        && joins_without_wps(configuration))
    ||| replies.len() > 2 && (replies[2] matches Ok(Reply::Wps(status)) && wps_succeeded(status))
}

/// Every reply brings the network closer to its end, up or failed: no stage is
/// entered twice.
pub proof fn law_every_reply_makes_progress<E>(
    stage: Stage,
    reply: Result<Reply, E>,
    report_ip: bool,
)
    requires
        stage.awaits(reply),
    ensures
        progress(stage) < progress(stage.after(reply, report_ip)) <= 7,
{
}

/// The network is up or has failed after at most seven replies.
pub proof fn law_ends_within_seven_replies<E>(replies: Seq<Result<Reply, E>>, report_ip: bool)
    requires
        answers(replies, report_ip),
    ensures
        replies.len() <= progress(run(replies, report_ip)),
        replies.len() <= 7,
        replies.len() == 7 ==> run(replies, report_ip).ended(),
    decreases replies.len(),
{
    if replies.len() > 0 {
        law_ends_within_seven_replies(replies.drop_last(), report_ip);
    }
}

proof fn lemma_stage_tells_replies<E>(replies: Seq<Result<Reply, E>>, report_ip: bool)
    requires
        answers(replies, report_ip),
    ensures
        run(replies, report_ip) is Starting ==> replies.len() == 0,
        run(replies, report_ip) is ReadingConfiguration ==> replies.len() == 1,
        run(replies, report_ip) is RunningWps ==> replies.len() == 2,
        progress(run(replies, report_ip)) >= 3 && !(run(replies, report_ip) is Failed)
            ==> network_known(replies),
        !(run(replies, report_ip) is Failed) ==> forall|i: int|
            0 <= i < replies.len() ==> (#[trigger] replies[i]) is Ok,
    decreases replies.len(),
{
    if replies.len() > 0 {
        let before = replies.drop_last();
        lemma_stage_tells_replies(before, report_ip);
        assert(forall|i: int| 0 <= i < before.len() ==> before[i] == #[trigger] replies[i]);
    }
}

/// The station starts connecting only to a network that is known: it was stored,
/// or WPS succeeded.
pub proof fn law_connects_only_to_a_known_network<E>(
    replies: Seq<Result<Reply, E>>,
    report_ip: bool,
)
    requires
        answers(replies, report_ip),
        run(replies, report_ip) is Connecting,
    ensures
        network_known(replies),
{
    lemma_stage_tells_replies(replies, report_ip);
}

/// The network is up only if every step went well and the network was known.
pub proof fn law_up_only_without_failure<E>(replies: Seq<Result<Reply, E>>, report_ip: bool)
    requires
        answers(replies, report_ip),
        run(replies, report_ip) is Up,
    ensures
        network_known(replies),
        forall|i: int| 0 <= i < replies.len() ==> (#[trigger] replies[i]) is Ok,
{
    lemma_stage_tells_replies(replies, report_ip);
}

/// A view tells every part of a step.
pub proof fn law_action_views_are_whole<E>(action: Action<E>)
    ensures
        action@ == (match action {
            Action::ReadConfiguration => ActionView::ReadConfiguration,
            Action::StartWps(config) => ActionView::StartWps(config@),
            Action::SetConfiguration(network) => ActionView::SetConfiguration(network@),
            Action::Connect => ActionView::Connect,
            Action::AwaitNetif => ActionView::AwaitNetif,
            Action::ReadIpInfo => ActionView::ReadIpInfo,
            Action::Finish => ActionView::Finish,
            Action::Fail(error) => ActionView::Fail(error),
        }),
{
}

/// Every step can fail until the network is up or has failed, and ends with its own error.
pub proof fn law_failures_are_passed_on<E>(
    stage: Stage,
    error: E,
    report_ip: bool,
    device_name: Seq<char>,
)
    ensures
        stage.awaits(Err::<Reply, E>(error)) <==> !(stage is Up) && !(stage is Failed),
        stage.after(Err::<Reply, E>(error), report_ip) is Failed,
        stage.action(Err::<Reply, E>(error), report_ip, device_name) == ActionView::Fail(
            BringUpError::Step(error),
        ),
{
}

/// A step that went well replies what it was asked for: the stored configuration, the
/// outcome of WPS with at least one access point where it comes with any, or just that it
/// is done.
pub proof fn law_steps_reply_what_they_were_asked_for<E>(stage: Stage, good: Reply)
    ensures
        stage.awaits(Ok::<Reply, E>(good)) <==> {
            ||| stage is ReadingConfiguration && good is Configuration
            ||| stage is RunningWps && (good matches Reply::Wps(status) && !(status matches
                WpsStatus::SuccessMultipleAccessPoints(credentials) && credentials@.len() == 0))
            ||| good is Done && (stage is Starting || stage is StoringConfiguration
                || stage is Connecting || stage is AwaitingNetif || stage is ReadingIpInfo)
        },
{
}

/// A radio that was started has its stored configuration read.
pub proof fn law_started_radios_read_their_configuration<E>(
    report_ip: bool,
    device_name: Seq<char>,
)
    ensures
        Stage::Starting.after(Ok::<Reply, E>(Reply::Done), report_ip) is ReadingConfiguration,
        Stage::Starting.action(Ok::<Reply, E>(Reply::Done), report_ip, device_name)
            is ReadConfiguration,
{
}

/// A stored network is joined: a station configuration always, whatever its name, and a
/// mixed one whose name is not empty.
pub proof fn law_stored_networks_are_joined<E>(
    stored: Configuration,
    report_ip: bool,
    device_name: Seq<char>,
)
    requires
        stored is Client || (stored matches Configuration::Mixed { ssid } && ssid@.len() > 0),
    ensures
        Stage::ReadingConfiguration.after(
            Ok::<Reply, E>(Reply::Configuration(stored)),
            report_ip,
        ) is Connecting,
        Stage::ReadingConfiguration.action(
            Ok::<Reply, E>(Reply::Configuration(stored)),
            report_ip,
            device_name,
        ) is Connect,
{
}

/// Without a stored network WPS is run, in the device's name.
pub proof fn law_wps_runs_without_a_stored_network<E>(
    stored: Configuration,
    report_ip: bool,
    device_name: Seq<char>,
)
    requires
        stored is Unset || stored is AccessPoint || (stored matches Configuration::Mixed { ssid }
            && ssid@.len() == 0),
    ensures
        Stage::ReadingConfiguration.after(
            Ok::<Reply, E>(Reply::Configuration(stored)),
            report_ip,
        ) is RunningWps,
        Stage::ReadingConfiguration.action(
            Ok::<Reply, E>(Reply::Configuration(stored)),
            report_ip,
            device_name,
        ) matches ActionView::StartWps(config) && {
            &&& config.wps_type is Pbc
            &&& config.manufacturer == "FarmHub"@
            &&& config.model_name == "Ugly Duckling"@
            &&& config.model_number == "MK6"@
            &&& config.device_name == device_name
        },
{
}

/// Whether a network is stored: always with a station configuration, with a mixed one
/// exactly if its name is not empty, and otherwise not.
pub proof fn law_station_configurations_are_stored_networks(ssid: String)
    ensures
        joins_without_wps(Configuration::Client { ssid }),
        joins_without_wps(Configuration::Mixed { ssid }) <==> ssid@ != Seq::<char>::empty(),
        !joins_without_wps(Configuration::Unset),
        !joins_without_wps(Configuration::AccessPoint),
{
    if ssid@.len() == 0 {
        assert(ssid@ =~= Seq::<char>::empty());
    }
}

/// Of the networks that WPS offers the first is stored, under its own name and with its own
/// passphrase, whatever they are and however many come after it.
pub proof fn law_first_network_offered_is_stored<E>(
    credentials: Vec<crate::wireless::WpsCredentials>,
    report_ip: bool,
    device_name: Seq<char>,
)
    requires
        credentials@.len() > 0,
    ensures
        Stage::RunningWps.after(
            Ok::<Reply, E>(Reply::Wps(WpsStatus::SuccessMultipleAccessPoints(credentials))),
            report_ip,
        ) is StoringConfiguration,
        Stage::RunningWps.action(
            Ok::<Reply, E>(Reply::Wps(WpsStatus::SuccessMultipleAccessPoints(credentials))),
            report_ip,
            device_name,
        ) matches ActionView::SetConfiguration(network) && {
            &&& network.ssid == credentials@[0].ssid@
            &&& network.password == credentials@[0].passphrase@
            &&& network.auth_method is WPA2Personal
            &&& network.bssid is None
            &&& network.channel is None
        },
{
}

/// WPS that connected by itself is followed by connecting; WPS that led to no network ends
/// with the failure that it reported.
pub proof fn law_wps_ends_as_it_reported<E>(
    pin: Option<u32>,
    report_ip: bool,
    device_name: Seq<char>,
)
    ensures
        ({
            let connected = Ok::<Reply, E>(Reply::Wps(WpsStatus::SuccessConnected));
            let failure = Ok::<Reply, E>(Reply::Wps(WpsStatus::Failure));
            let timeout = Ok::<Reply, E>(Reply::Wps(WpsStatus::Timeout));
            let pinned = Ok::<Reply, E>(Reply::Wps(WpsStatus::Pin(pin)));
            let overlap = Ok::<Reply, E>(Reply::Wps(WpsStatus::PbcOverlap));
            let stage = Stage::RunningWps;
            &&& stage.after(connected, report_ip) is Connecting
            &&& stage.action(connected, report_ip, device_name) is Connect
            &&& stage.after(failure, report_ip) is Failed
            &&& stage.action(failure, report_ip, device_name) == ActionView::<E>::Fail(
                BringUpError::Wps(WpsFailure::Failure),
            )
            &&& stage.after(timeout, report_ip) is Failed
            &&& stage.action(timeout, report_ip, device_name) == ActionView::<E>::Fail(
                BringUpError::Wps(WpsFailure::Timeout),
            )
            &&& stage.after(pinned, report_ip) is Failed
            &&& stage.action(pinned, report_ip, device_name) == ActionView::<E>::Fail(
                BringUpError::Wps(WpsFailure::Pin),
            )
            &&& stage.after(overlap, report_ip) is Failed
            &&& stage.action(overlap, report_ip, device_name) == ActionView::<E>::Fail(
                BringUpError::Wps(WpsFailure::PbcOverlap),
            )
        }),
{
}

/// Each failure of WPS has its own words.
pub proof fn law_failures_have_their_words()
    ensures
        WpsFailure::Failure.text() == "WPS failure"@,
        WpsFailure::Timeout.text() == "WPS timeout"@,
        WpsFailure::Pin.text() == "WPS pin"@,
        WpsFailure::PbcOverlap.text() == "WPS PBC overlap"@,
{
}

/// A network that was stored is connected to; one that was connected to is waited for; the
/// address is read if, and only if, it is to be reported; and then the network is up.
pub proof fn law_connected_networks_come_up<E>(report_ip: bool, device_name: Seq<char>)
    ensures
        ({
            let done = Ok::<Reply, E>(Reply::Done);
            &&& Stage::StoringConfiguration.after(done, report_ip) is Connecting
            &&& Stage::StoringConfiguration.action(done, report_ip, device_name) is Connect
            &&& Stage::Connecting.after(done, report_ip) is AwaitingNetif
            &&& Stage::Connecting.action(done, report_ip, device_name) is AwaitNetif
            &&& report_ip ==> Stage::AwaitingNetif.after(done, report_ip) is ReadingIpInfo
            &&& report_ip ==> Stage::AwaitingNetif.action(done, report_ip, device_name)
                is ReadIpInfo
            &&& !report_ip ==> Stage::AwaitingNetif.after(done, report_ip) is Up
            &&& !report_ip ==> Stage::AwaitingNetif.action(done, report_ip, device_name) is Finish
            &&& Stage::ReadingIpInfo.after(done, report_ip) is Up
            &&& Stage::ReadingIpInfo.action(done, report_ip, device_name) is Finish
        }),
{
}

/// Whether a network is stored is told by the kind of the configuration, and by the name of a
/// mixed one.
pub proof fn law_stored_networks_are_told(stored: Configuration, found: bool)
    requires
        call_ensures(has_stored_client_configuration, (stored,), found),
    ensures
        found <==> {
            ||| stored is Client
            ||| stored matches Configuration::Mixed { ssid } && ssid@.len() > 0
        },
{
}

} // verus!
