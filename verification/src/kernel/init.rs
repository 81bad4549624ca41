//! Starting a device, step by step: what it runs on is taken, its configuration is
//! loaded, power is configured, and then its network, clock and messages are set up.

use crate::kernel::{Device, DeviceConfig, PowerConfig};
use vstd::prelude::*;

verus! {

/// The step that is under way, with what the steps before it brought.
pub enum InitStage<W> {
    TakingEventLoop,
    TakingTimer,
    TakingNvs,
    LoadingConfig,
    ConfiguringPower(DeviceConfig),
    InitialisingWifi(DeviceConfig),
    TakingMdns(DeviceConfig, W),
    Connecting(DeviceConfig, W),
    Up,
    Failed,
}

/// What a step that went well replies.
pub enum InitReply<W, S, M, C, E> {
    Done,
    /// The configuration that was loaded.
    Config(DeviceConfig),
    /// The network that is up.
    Wifi(W),
    /// How setting the clock and connecting to the broker went, side by side.
    Connected { sntp: Result<S, E>, mqtts: Result<(M, C, String), E> },
}

/// The step to take next.
pub enum InitAction<W, S, M, C, E> {
    TakeTimer,
    TakeNvs,
    LoadConfig,
    ConfigurePower(PowerConfig),
    InitWifi { device_name: String },
    TakeMdns,
    /// Set the clock and connect to the broker, side by side.
    Connect { instance: String },
    Finish(Device<W, S, M, C>),
    Fail(E),
}

pub enum InitActionView<W, S, M, C, E> {
    TakeTimer,
    TakeNvs,
    LoadConfig,
    ConfigurePower(PowerConfig),
    InitWifi { device_name: Seq<char> },
    TakeMdns,
    Connect { instance: Seq<char> },
    Finish(Device<W, S, M, C>),
    Fail(E),
}

impl<W, S, M, C, E> View for InitAction<W, S, M, C, E> {
    type V = InitActionView<W, S, M, C, E>;

    open spec fn view(&self) -> InitActionView<W, S, M, C, E> {
        match self {
            InitAction::TakeTimer => InitActionView::TakeTimer,
            InitAction::TakeNvs => InitActionView::TakeNvs,
            InitAction::LoadConfig => InitActionView::LoadConfig,
            InitAction::ConfigurePower(power) => InitActionView::ConfigurePower(*power),
            InitAction::InitWifi { device_name } => InitActionView::InitWifi {
                device_name: device_name@,
            },
            InitAction::TakeMdns => InitActionView::TakeMdns,
            InitAction::Connect { instance } => InitActionView::Connect { instance: instance@ },
            InitAction::Finish(device) => InitActionView::Finish(*device),
            InitAction::Fail(error) => InitActionView::Fail(*error),
        }
    }
}

impl<W> InitStage<W> {
    /// Whether nothing more is to be done.
    pub open spec fn ended(self) -> bool {
        self is Up || self is Failed
    }

    /// Whether `reply` answers the step: every step but the last can fail, and one
    /// that goes well replies what it was asked for. The last one tells how each of
    /// its two parts went.
    pub open spec fn awaits<S, M, C, E>(self, reply: Result<InitReply<W, S, M, C, E>, E>) -> bool {
        match self {
            InitStage::LoadingConfig => reply matches Ok(good) ==> good is Config,
            InitStage::InitialisingWifi(_) => reply matches Ok(good) ==> good is Wifi,
            InitStage::Connecting(_, _) => reply matches Ok(good) && good is Connected,
            InitStage::Up | InitStage::Failed => false,
            _ => reply matches Ok(good) ==> good is Done,
        }
    }

    /// The stage after a reply.
    pub open spec fn after<S, M, C, E>(
        self,
        reply: Result<InitReply<W, S, M, C, E>, E>,
    ) -> InitStage<W> {
        match reply {
            Err(_) => InitStage::Failed,
            Ok(good) => match self {
                InitStage::TakingEventLoop => InitStage::TakingTimer,
                InitStage::TakingTimer => InitStage::TakingNvs,
                InitStage::TakingNvs => InitStage::LoadingConfig,
                InitStage::LoadingConfig => InitStage::ConfiguringPower(good->Config_0),
                InitStage::ConfiguringPower(config) => InitStage::InitialisingWifi(config),
                InitStage::InitialisingWifi(config) => InitStage::TakingMdns(config, good->Wifi_0),
                InitStage::TakingMdns(config, wifi) => InitStage::Connecting(config, wifi),
                InitStage::Connecting(config, wifi) => match Device::assembled(
                    config,
                    wifi,
                    good->sntp,
                    good->mqtts,
                ) {
                    Ok(_) => InitStage::Up,
                    Err(_) => InitStage::Failed,
                },
                InitStage::Up | InitStage::Failed => self,
            },
        }
    }

    /// The step to take after a reply. A step that fails ends the start with its
    /// error.
    pub open spec fn action<S, M, C, E>(
        self,
        reply: Result<InitReply<W, S, M, C, E>, E>,
    ) -> InitActionView<W, S, M, C, E> {
        match reply {
            Err(error) => InitActionView::Fail(error),
            Ok(good) => match self {
                InitStage::TakingEventLoop => InitActionView::TakeTimer,
                InitStage::TakingTimer => InitActionView::TakeNvs,
                InitStage::TakingNvs => InitActionView::LoadConfig,
                InitStage::LoadingConfig => InitActionView::ConfigurePower(
                    good->Config_0.saves_power(),
                ),
                InitStage::ConfiguringPower(config) => InitActionView::InitWifi {
                    device_name: config.instance@,
                },
                InitStage::InitialisingWifi(_) => InitActionView::TakeMdns,
                InitStage::TakingMdns(config, _) => InitActionView::Connect {
                    instance: config.instance@,
                },
                InitStage::Connecting(config, wifi) => match Device::assembled(
                    config,
                    wifi,
                    good->sntp,
                    good->mqtts,
                ) {
                    Ok(device) => InitActionView::Finish(device),
                    Err(error) => InitActionView::Fail(error),
                },
                InitStage::Up | InitStage::Failed => arbitrary(),
            },
        }
    }
}

/// A device on its way up.
pub struct DeviceInit<W> {
    stage: InitStage<W>,
}

impl<W> DeviceInit<W> {
    /// The step that is under way.
    pub closed spec fn stage(&self) -> InitStage<W> {
        self.stage
    }

    /// Begins with the system's event loop being taken.
    pub fn new() -> (init: DeviceInit<W>)
        ensures
            init.stage() is TakingEventLoop,
    {
        DeviceInit { stage: InitStage::TakingEventLoop }
    }

    /// Whether `reply` answers the step that is under way.
    pub fn awaits<S, M, C, E>(&self, reply: &Result<InitReply<W, S, M, C, E>, E>) -> (awaited: bool)
        ensures
            awaited == self.stage().awaits(*reply),
    {
        match (&self.stage, reply) {
            (InitStage::Up, _) => false,
            (InitStage::Failed, _) => false,
            (InitStage::Connecting(_, _), Ok(InitReply::Connected { .. })) => true,
            (InitStage::Connecting(_, _), _) => false,
            (_, Err(_)) => true,
            (InitStage::LoadingConfig, Ok(InitReply::Config(_))) => true,
            (InitStage::LoadingConfig, _) => false,
            (InitStage::InitialisingWifi(_), Ok(InitReply::Wifi(_))) => true,
            (InitStage::InitialisingWifi(_), _) => false,
            (_, Ok(InitReply::Done)) => true,
            _ => false,
        }
    }

    /// Takes the reply to the step that is under way, and says what the next step
    /// is.
    pub fn step<S, M, C, E>(&mut self, reply: Result<InitReply<W, S, M, C, E>, E>) -> (action:
        InitAction<W, S, M, C, E>)
        requires
            old(self).stage().awaits(reply),
        ensures
            final(self).stage() == old(self).stage().after(reply),
            action@ == old(self).stage().action(reply),
    {
        let mut stage: InitStage<W> = InitStage::Failed;
        std::mem::swap(&mut stage, &mut self.stage);
        let good: InitReply<W, S, M, C, E> = match reply {
            Ok(good) => good,
            Err(error) => return InitAction::Fail(error),
        };
        match (stage, good) {
            (InitStage::TakingEventLoop, _) => {
                self.stage = InitStage::TakingTimer;
                InitAction::TakeTimer
            },
            (InitStage::TakingTimer, _) => {
                self.stage = InitStage::TakingNvs;
                InitAction::TakeNvs
            },
            (InitStage::TakingNvs, _) => {
                self.stage = InitStage::LoadingConfig;
                InitAction::LoadConfig
            },
            (InitStage::LoadingConfig, InitReply::Config(config)) => {
                let power: PowerConfig = config.power();
                self.stage = InitStage::ConfiguringPower(config);
                InitAction::ConfigurePower(power)
            },
            (InitStage::ConfiguringPower(config), _) => {
                let device_name: String = config.instance.clone();
                self.stage = InitStage::InitialisingWifi(config);
                InitAction::InitWifi { device_name }
            },
            (InitStage::InitialisingWifi(config), InitReply::Wifi(wifi)) => {
                self.stage = InitStage::TakingMdns(config, wifi);
                InitAction::TakeMdns
            },
            (InitStage::TakingMdns(config, wifi), _) => {
                let instance: String = config.instance.clone();
                self.stage = InitStage::Connecting(config, wifi);
                InitAction::Connect { instance }
            },
            (InitStage::Connecting(config, wifi), InitReply::Connected { sntp, mqtts }) => {
                match Device::assemble(config, wifi, sntp, mqtts) {
                    Ok(device) => {
                        self.stage = InitStage::Up;
                        InitAction::Finish(device)
                    },
                    Err(error) => InitAction::Fail(error),
                }
            },
            _ => {
                assert(false);
                InitAction::TakeTimer
            },
        }
    }
}

/// The stage after all the replies, taken in order from the start.
pub open spec fn run<W, S, M, C, E>(
    replies: Seq<Result<InitReply<W, S, M, C, E>, E>>,
) -> InitStage<W>
    decreases replies.len(),
{
    if replies.len() == 0 {
        InitStage::TakingEventLoop
    } else {
        run(replies.drop_last()).after(replies.last())
    }
}

/// Whether each reply answers the step that was under way.
pub open spec fn answers<W, S, M, C, E>(
    replies: Seq<Result<InitReply<W, S, M, C, E>, E>>,
) -> bool
    decreases replies.len(),
{
    replies.len() > 0 ==> answers(replies.drop_last()) && run(replies.drop_last()).awaits(
        replies.last(),
    )
}

/// The stage that a start without failure has reached after a number of replies:
/// each stage is entered once, in order.
pub open spec fn in_order<W>(stage: InitStage<W>, replies: nat) -> bool {
    match stage {
        InitStage::TakingEventLoop => replies == 0,
        InitStage::TakingTimer => replies == 1,
        InitStage::TakingNvs => replies == 2,
        InitStage::LoadingConfig => replies == 3,
        InitStage::ConfiguringPower(_) => replies == 4,
        InitStage::InitialisingWifi(_) => replies == 5,
        InitStage::TakingMdns(_, _) => replies == 6,
        InitStage::Connecting(_, _) => replies == 7,
        InitStage::Up => replies == 8,
        InitStage::Failed => 1 <= replies <= 8,
    }
}

/// A device starts in order, each step once: the number of replies tells the step that
/// is under way, unless one failed. The start ends within eight replies.
pub proof fn law_device_starts_in_order<W, S, M, C, E>(
    replies: Seq<Result<InitReply<W, S, M, C, E>, E>>,
)
    requires
        answers(replies),
    ensures
        in_order(run(replies), replies.len()),
        replies.len() <= 8,
        replies.len() == 8 ==> run(replies).ended(),
    decreases replies.len(),
{
    if replies.len() > 0 {
        law_device_starts_in_order(replies.drop_last());
    }
}

/// Power is configured once, as the loaded configuration says and before the network is
/// initialised: the former is asked for exactly when the configuration was loaded, the
/// latter exactly when power was configured.
pub proof fn law_power_is_configured_before_wifi<W, S, M, C, E>(
    replies: Seq<Result<InitReply<W, S, M, C, E>, E>>,
    next: Result<InitReply<W, S, M, C, E>, E>,
)
    requires
        answers(replies),
        run(replies).awaits(next),
    ensures
        run(replies).action(next) is ConfigurePower <==> replies.len() == 3 && next is Ok,
        run(replies).action(next) is InitWifi <==> replies.len() == 4 && next is Ok,
        run(replies).action(next) matches InitActionView::ConfigurePower(power) ==> next matches Ok(
            InitReply::Config(config),
        ) && power == config.saves_power(),
{
    law_device_starts_in_order(replies);
}

/// A step that fails ends the start: its error is what the start fails with, and
/// nothing more is awaited.
pub proof fn law_first_failure_ends_the_start<W, S, M, C, E>(
    replies: Seq<Result<InitReply<W, S, M, C, E>, E>>,
    error: E,
    next: Result<InitReply<W, S, M, C, E>, E>,
)
    requires
        answers(replies),
        run(replies).awaits(Err::<InitReply<W, S, M, C, E>, E>(error)),
    ensures
        run(replies).action(Err::<InitReply<W, S, M, C, E>, E>(error)) == InitActionView::<
            W,
            S,
            M,
            C,
            E,
        >::Fail(error),
        !run(replies.push(Err(error))).awaits(next),
{
    let failed = replies.push(Err(error));
    assert(failed.drop_last() =~= replies);
}

/// A device that is up stands under its own instance: when the broker was connected to
/// with the messages of the instance that was asked for, the device's topic root is that
/// of the instance in its configuration.
pub proof fn law_started_device_stands_under_its_instance<W, S, M, C, E>(
    replies: Seq<Result<InitReply<W, S, M, C, E>, E>>,
    sntp: Result<S, E>,
    connection: (M, C, String),
    instance: Seq<char>,
    setup: crate::kernel::mqtt::MqttSetup,
    broker: crate::network::ServiceView,
)
    requires
        answers(replies),
        replies.len() > 0,
        run(replies.drop_last()).action(replies.last()) == (InitActionView::<W, S, M, C, E>::Connect {
            instance,
        }),
        setup.describes(broker, instance),
        connection.2@ == setup.mqtt.topic_root(),
    ensures
        run(replies).action(Ok(InitReply::Connected { sntp, mqtts: Ok(connection) })) matches
            InitActionView::Finish(device) ==> device.config.instance@ == instance
            && device.topic_root@ == crate::kernel::mqtt::root_of(instance),
{
}

/// A view tells every part of a step.
pub proof fn law_action_views_are_whole<W, S, M, C, E>(action: InitAction<W, S, M, C, E>)
    ensures
        action@ == (match action {
            InitAction::TakeTimer => InitActionView::TakeTimer,
            InitAction::TakeNvs => InitActionView::TakeNvs,
            InitAction::LoadConfig => InitActionView::LoadConfig,
            InitAction::ConfigurePower(power) => InitActionView::ConfigurePower(power),
            InitAction::InitWifi { device_name } => InitActionView::InitWifi {
                device_name: device_name@,
            },
            InitAction::TakeMdns => InitActionView::TakeMdns,
            InitAction::Connect { instance } => InitActionView::Connect { instance: instance@ },
            InitAction::Finish(device) => InitActionView::Finish(device),
            InitAction::Fail(error) => InitActionView::Fail(error),
        }),
{
}

/// Whatever fails ends the start with its own error. Connecting tells its failures in its
/// reply, and nothing is awaited at the end.
pub proof fn law_start_failures_are_passed_on<W, S, M, C, E>(stage: InitStage<W>, error: E)
    ensures
        stage.awaits(Err::<InitReply<W, S, M, C, E>, E>(error)) <==> !(stage is Connecting) && !(
        stage is Up) && !(stage is Failed),
        stage.after(Err::<InitReply<W, S, M, C, E>, E>(error)) is Failed,
        stage.action(Err::<InitReply<W, S, M, C, E>, E>(error)) == InitActionView::<
            W,
            S,
            M,
            C,
            E,
        >::Fail(error),
{
}

/// A step that went well replies what it was asked for.
pub proof fn law_steps_reply_what_they_were_asked_for<W, S, M, C, E>(
    stage: InitStage<W>,
    good: InitReply<W, S, M, C, E>,
)
    ensures
        stage.awaits(Ok::<InitReply<W, S, M, C, E>, E>(good)) <==> {
            ||| stage is LoadingConfig && good is Config
            ||| stage is InitialisingWifi && good is Wifi
            ||| stage is Connecting && good is Connected
            ||| good is Done && (stage is TakingEventLoop || stage is TakingTimer
                || stage is TakingNvs || stage is ConfiguringPower || stage is TakingMdns)
        },
{
}

/// What a device runs on is taken first, the timer after the event loop and the storage
/// after the timer; then its configuration is loaded.
pub proof fn law_devices_take_what_they_run_on<W, S, M, C, E>()
    ensures
        ({
            let done = Ok::<InitReply<W, S, M, C, E>, E>(InitReply::Done);
            &&& InitStage::<W>::TakingEventLoop.action(done) is TakeTimer
            &&& InitStage::<W>::TakingEventLoop.after(done) is TakingTimer
            &&& InitStage::<W>::TakingTimer.action(done) is TakeNvs
            &&& InitStage::<W>::TakingTimer.after(done) is TakingNvs
            &&& InitStage::<W>::TakingNvs.action(done) is LoadConfig
            &&& InitStage::<W>::TakingNvs.after(done) is LoadingConfig
        }),
{
}

/// The configuration that was loaded, whichever it is, is what power is configured by, what
/// the network and the connection are named after, and what the device keeps.
pub proof fn law_loaded_configurations_are_used<W, S, M, C, E>(config: DeviceConfig, wifi: W)
    ensures
        ({
            let done = Ok::<InitReply<W, S, M, C, E>, E>(InitReply::Done);
            let loaded = Ok::<InitReply<W, S, M, C, E>, E>(InitReply::Config(config));
            let up = Ok::<InitReply<W, S, M, C, E>, E>(InitReply::Wifi(wifi));
            &&& InitStage::<W>::LoadingConfig.action(
                loaded,
            ) matches InitActionView::ConfigurePower(power) && power.max_freq_mhz == 160
                && power.min_freq_mhz == 40 && power.light_sleep_enable == config.sleep_when_idle
            &&& InitStage::<W>::LoadingConfig.after(loaded) == InitStage::<W>::ConfiguringPower(
                config,
            )
            &&& InitStage::<W>::ConfiguringPower(
                config,
            ).action(done) matches InitActionView::InitWifi { device_name } && device_name
                == config.instance@
            &&& InitStage::<W>::ConfiguringPower(config).after(done) == InitStage::<
                W,
            >::InitialisingWifi(config)
            &&& InitStage::<W>::InitialisingWifi(config).action(up) is TakeMdns
            &&& InitStage::<W>::InitialisingWifi(config).after(up) == InitStage::<W>::TakingMdns(
                config,
                wifi,
            )
            &&& InitStage::<W>::TakingMdns(
                config,
                wifi,
            ).action(done) matches InitActionView::Connect { instance } && instance
                == config.instance@
            &&& InitStage::<W>::TakingMdns(config, wifi).after(done) == InitStage::<W>::Connecting(
                config,
                wifi,
            )
        }),
{
}

/// A device is up exactly if both its clock and its connection were set up, with every part
/// that the steps brought; otherwise the start fails with the broker's error, and with the
/// clock's only without one.
pub proof fn law_connected_devices_are_up<W, S, M, C, E>(
    config: DeviceConfig,
    wifi: W,
    clock: S,
    connection: (M, C, String),
    clock_error: E,
    broker_error: E,
)
    ensures
        ({
            let stage = InitStage::<W>::Connecting(config, wifi);
            let both = Ok::<InitReply<W, S, M, C, E>, E>(
                InitReply::Connected { sntp: Ok(clock), mqtts: Ok(connection) },
            );
            let no_clock = Ok::<InitReply<W, S, M, C, E>, E>(
                InitReply::Connected { sntp: Err(clock_error), mqtts: Ok(connection) },
            );
            let no_broker = Ok::<InitReply<W, S, M, C, E>, E>(
                InitReply::Connected { sntp: Ok(clock), mqtts: Err(broker_error) },
            );
            let neither = Ok::<InitReply<W, S, M, C, E>, E>(
                InitReply::Connected { sntp: Err(clock_error), mqtts: Err(broker_error) },
            );
            &&& stage.after(both) is Up
            &&& stage.action(both) matches InitActionView::Finish(device) && device.config == config
                && device.wifi == wifi && device.sntp == clock && device.mqtt == connection.0
                && device.conn == connection.1 && device.topic_root == connection.2
            &&& stage.after(no_clock) is Failed
            &&& stage.action(no_clock) == InitActionView::<W, S, M, C, E>::Fail(clock_error)
            &&& stage.after(no_broker) is Failed
            &&& stage.action(no_broker) == InitActionView::<W, S, M, C, E>::Fail(broker_error)
            &&& stage.after(neither) is Failed
            &&& stage.action(neither) == InitActionView::<W, S, M, C, E>::Fail(broker_error)
        }),
{
}

} // verus!
