//! The tasks of a device: it announces and reports itself, watches its reset
//! button and blinks.

use crate::kernel::mqtt::{Mqtt, MqttMessage};
use crate::kernel::DeviceConfig;
use crate::payload::Payload;
use vstd::prelude::*;

verus! {

/// How long a device rests between two reports.
pub const REPORT_INTERVAL_SECS: u64 = 5;

/// How long the reset button has to be held.
pub const RESET_HOLD_SECS: u64 = 5;

/// How long the light stays on, and how long it stays off.
pub const BLINK_SECS: u64 = 1;

/// A member of a JSON object.
pub open spec fn member(key: Seq<char>, value: Seq<char>) -> Seq<char> {
    crate::payload::json_string(key) + seq![':'] + value
}

/// A member of a JSON object whose value is a string.
pub open spec fn text_member(key: Seq<char>, value: Seq<char>) -> Seq<char> {
    member(key, crate::payload::json_string(value))
}

/// A member of a JSON object whose value is a number.
pub open spec fn number_member(key: Seq<char>, value: nat) -> Seq<char> {
    member(key, crate::text::decimal(value))
}

/// What a report says: how long the device has been up, in milliseconds, and how
/// much memory is free.
pub open spec fn telemetry_text(uptime_millis: nat, memory: nat) -> Seq<char> {
    seq!['{'] + (number_member("memory"@, memory) + seq![','] + number_member(
        "uptime"@,
        uptime_millis,
    )) + seq!['}']
}

/// Calls `from_micros` and `as_millis` of `embassy_time::Duration`, at its default
/// rate of a million ticks a second. Taken on trust: whole milliseconds come back.
/// The largest number of microseconds is left out, because rounding it to ticks
/// overflows.
#[verifier::external_body]
fn millis_of_micros(micros: u64) -> (millis: u64)
    requires
        micros < u64::MAX,
    ensures
        millis == micros / 1000,
{
    embassy_time::Duration::from_micros(micros).as_millis()
}

/// The report of a device: how long it has been up, and how much memory is free.
pub fn telemetry_message(mqtt: &Mqtt, uptime_micros: u64, memory: u32) -> (message: MqttMessage)
    requires
        uptime_micros < u64::MAX,
    ensures
        message@ == crate::kernel::mqtt::plain_message(
            crate::kernel::mqtt::topic_under(mqtt.topic_root(), "telemetry"@),
            telemetry_text((uptime_micros / 1000) as nat, memory as nat),
        ),
{
    let uptime: u64 = millis_of_micros(uptime_micros);
    let mut payload: Payload = Payload::new();
    payload.set_number("uptime", uptime);
    payload.set_number("memory", memory as u64);
    let ghost members = payload@;
    let text: String = payload.into_text();
    proof {
        reveal_strlit("uptime");
        reveal_strlit("memory");
        let keys = seq!["memory"@, "uptime"@];
        assert(crate::payload::text_before("memory"@, "uptime"@));
        assert(keys[0] == "memory"@ && keys[1] == "uptime"@);
        assert(crate::payload::in_key_order(keys, members));
        crate::payload::law_object_text_is_unique(text@, keys, members);
        reveal_with_fuel(crate::payload::members_text, 3);
        assert(keys.drop_last() =~= seq!["memory"@]);
        assert(text@ =~= telemetry_text((uptime_micros / 1000) as nat, memory as nat));
    }
    let published: Result<MqttMessage, ()> = mqtt.publish("telemetry", Ok(text));
    published.unwrap()
}

/// What an announcement says: what the device is, which one it is, how it is
/// configured, what it runs, and when it started.
pub open spec fn init_text(
    id: Seq<char>,
    instance: Seq<char>,
    device_config: Seq<char>,
    version: Seq<char>,
    time: nat,
) -> Seq<char> {
    seq!['{'] + (text_member("app"@, "ugly-duckling-rs"@) + seq![','] + text_member(
        "deviceConfig"@,
        device_config,
    ) + seq![','] + text_member("id"@, id) + seq![','] + text_member("instance"@, instance)
        + seq![','] + text_member("model"@, "mk6"@) + seq![','] + number_member("time"@, time)
        + seq![','] + text_member("type"@, "ugly-duckling"@) + seq![','] + text_member(
        "version"@,
        version,
    )) + seq!['}']
}

/// The keys of an announcement, in order.
spec fn init_keys() -> Seq<Seq<char>> {
    seq![
        "app"@,
        "deviceConfig"@,
        "id"@,
        "instance"@,
        "model"@,
        "time"@,
        "type"@,
        "version"@,
    ]
}

proof fn lemma_init_keys_ascend()
    ensures
        forall|i: int, j: int|
            0 <= i < j < init_keys().len() ==> crate::payload::text_before(
                #[trigger] init_keys()[i],
                #[trigger] init_keys()[j],
            ),
        init_keys().no_duplicates(),
{
    reveal_strlit("app");
    reveal_strlit("deviceConfig");
    reveal_strlit("id");
    reveal_strlit("instance");
    reveal_strlit("model");
    reveal_strlit("time");
    reveal_strlit("type");
    reveal_strlit("version");
    reveal_with_fuel(crate::payload::text_before, 3);
    let keys = init_keys();
    assert forall|i: int, j: int| 0 <= i < j < keys.len() implies crate::payload::text_before(
        #[trigger] keys[i],
        #[trigger] keys[j],
    ) && keys[i] != keys[j] by {
        assert(keys[i].len() >= 2 && keys[j].len() >= 2);
        if keys[i][0] == keys[j][0] {
            assert(keys[i].drop_first()[0] == keys[i][1]);
            assert(keys[j].drop_first()[0] == keys[j][1]);
        }
    }
}

/// The members of an announcement.
spec fn init_members(
    id: Seq<char>,
    instance: Seq<char>,
    device_config: Seq<char>,
    version: Seq<char>,
    time: nat,
) -> Map<Seq<char>, Seq<char>> {
    crate::payload::no_members().insert(
        "type"@,
        crate::payload::json_string("ugly-duckling"@),
    ).insert("model"@, crate::payload::json_string("mk6"@)).insert(
        "id"@,
        crate::payload::json_string(id),
    ).insert("instance"@, crate::payload::json_string(instance)).insert(
        "deviceConfig"@,
        crate::payload::json_string(device_config),
    ).insert("app"@, crate::payload::json_string("ugly-duckling-rs"@)).insert(
        "version"@,
        crate::payload::json_string(version),
    ).insert("time"@, crate::text::decimal(time))
}

proof fn lemma_init_members(
    id: Seq<char>,
    instance: Seq<char>,
    device_config: Seq<char>,
    version: Seq<char>,
    time: nat,
)
    ensures
        ({
            let members = init_members(id, instance, device_config, version, time);
            &&& crate::payload::in_key_order(init_keys(), members)
            &&& members["app"@] == crate::payload::json_string("ugly-duckling-rs"@)
            &&& members["deviceConfig"@] == crate::payload::json_string(device_config)
            &&& members["id"@] == crate::payload::json_string(id)
            &&& members["instance"@] == crate::payload::json_string(instance)
            &&& members["model"@] == crate::payload::json_string("mk6"@)
            &&& members["time"@] == crate::text::decimal(time)
            &&& members["type"@] == crate::payload::json_string("ugly-duckling"@)
            &&& members["version"@] == crate::payload::json_string(version)
        }),
{
    lemma_init_keys_ascend();
    let keys = init_keys();
    let members = init_members(id, instance, device_config, version, time);
    assert(keys[0] == "app"@);
    assert(keys[1] == "deviceConfig"@);
    assert(keys[2] == "id"@);
    assert(keys[3] == "instance"@);
    assert(keys[4] == "model"@);
    assert(keys[5] == "time"@);
    assert(keys[6] == "type"@);
    assert(keys[7] == "version"@);
    assert forall|key: Seq<char>| #[trigger] members.contains_key(key) implies keys.contains(
        key,
    ) by {
    }
    assert forall|key: Seq<char>| keys.contains(key) implies #[trigger] members.contains_key(
        key,
    ) by {
        let i = choose|i: int| 0 <= i < keys.len() && keys[i] == key;
        assert(keys[i] == key);
    }
}

proof fn lemma_init_text(
    text: Seq<char>,
    id: Seq<char>,
    instance: Seq<char>,
    device_config: Seq<char>,
    version: Seq<char>,
    time: nat,
)
    requires
        crate::payload::is_object_text(
            text,
            init_members(id, instance, device_config, version, time),
        ),
    ensures
        text == init_text(id, instance, device_config, version, time),
{
    let members = init_members(id, instance, device_config, version, time);
    lemma_init_members(id, instance, device_config, version, time);
    crate::payload::law_object_text_is_unique(text, init_keys(), members);
    let none = Seq::<Seq<char>>::empty();
    let k1 = none.push("app"@);
    let k2 = k1.push("deviceConfig"@);
    let k3 = k2.push("id"@);
    let k4 = k3.push("instance"@);
    let k5 = k4.push("model"@);
    let k6 = k5.push("time"@);
    let k7 = k6.push("type"@);
    let k8 = k7.push("version"@);
    crate::payload::lemma_last_member(none, "app"@, members);
    crate::payload::lemma_last_member(k1, "deviceConfig"@, members);
    crate::payload::lemma_last_member(k2, "id"@, members);
    crate::payload::lemma_last_member(k3, "instance"@, members);
    crate::payload::lemma_last_member(k4, "model"@, members);
    crate::payload::lemma_last_member(k5, "time"@, members);
    crate::payload::lemma_last_member(k6, "type"@, members);
    crate::payload::lemma_last_member(k7, "version"@, members);
    assert(k8 =~= init_keys());
}

/// The announcement of a device, unless its configuration could not be written or
/// the time not be told; if both failed, the configuration's error counts. The time
/// is in seconds after the epoch.
pub fn init_message<E>(
    mqtt: &Mqtt,
    config: &DeviceConfig,
    device_config: Result<String, E>,
    version: &str,
    time: Result<u64, E>,
) -> (message: Result<MqttMessage, E>)
    ensures
        match device_config {
            Err(error) => message == Err::<MqttMessage, E>(error),
            Ok(written) => match time {
                Err(error) => message == Err::<MqttMessage, E>(error),
                Ok(secs) => message matches Ok(m) && m@ == crate::kernel::mqtt::plain_message(
                    crate::kernel::mqtt::topic_under(mqtt.topic_root(), "init"@),
                    init_text(config.id@, config.instance@, written@, version@, secs as nat),
                ),
            },
        },
{
    let device_config: String = match device_config {
        Ok(written) => written,
        Err(error) => return Err(error),
    };
    let time: u64 = match time {
        Ok(secs) => secs,
        Err(error) => return Err(error),
    };
    let mut payload: Payload = Payload::new();
    payload.set_text("type", "ugly-duckling");
    payload.set_text("model", "mk6");
    payload.set_text("id", config.id.as_str());
    payload.set_text("instance", config.instance.as_str());
    payload.set_text("deviceConfig", device_config.as_str());
    payload.set_text("app", "ugly-duckling-rs");
    payload.set_text("version", version);
    payload.set_number("time", time);
    let ghost members = payload@;
    let text: String = payload.into_text();
    proof {
        assert(members == init_members(
            config.id@,
            config.instance@,
            device_config@,
            version@,
            time as nat,
        ));
        lemma_init_text(
            text@,
            config.id@,
            config.instance@,
            device_config@,
            version@,
            time as nat,
        );
    }
    mqtt.publish("init", Ok(text))
}

/// A member's text begins with its key and a colon.
proof fn lemma_member_ends(key: Seq<char>, a: Seq<char>, b: Seq<char>, x: Seq<char>, y: Seq<char>)
    requires
        member(key, a) + x == member(key, b) + y,
    ensures
        a + x == b + y,
{
    let head = (crate::payload::json_string(key) + seq![':']).len() as int;
    assert((member(key, a) + x).skip(head) =~= a + x);
    assert((member(key, b) + y).skip(head) =~= b + y);
}

/// What follows a single character can be told.
proof fn lemma_after_mark(mark: char, x: Seq<char>, y: Seq<char>)
    requires
        seq![mark] + x == seq![mark] + y,
    ensures
        x == y,
{
    assert((seq![mark] + x).skip(1) =~= x);
    assert((seq![mark] + y).skip(1) =~= y);
}

/// What a string member behind a single character says, and what follows it, can be
/// told.
proof fn lemma_text_member_ends(
    mark: char,
    key: Seq<char>,
    a: Seq<char>,
    b: Seq<char>,
    x: Seq<char>,
    y: Seq<char>,
)
    requires
        seq![mark] + (text_member(key, a) + x) == seq![mark] + (text_member(key, b) + y),
    ensures
        a == b,
        x == y,
{
    lemma_after_mark(mark, text_member(key, a) + x, text_member(key, b) + y);
    lemma_member_ends(
        key,
        crate::payload::json_string(a),
        crate::payload::json_string(b),
        x,
        y,
    );
    crate::payload::lemma_json_string_ends(a, b, x, y);
}

/// What a number member behind a single character says, and what follows it, can be
/// told.
proof fn lemma_number_member_ends(
    mark: char,
    key: Seq<char>,
    m: nat,
    n: nat,
    x: Seq<char>,
    y: Seq<char>,
)
    requires
        seq![mark] + (number_member(key, m) + x) == seq![mark] + (number_member(key, n) + y),
        x.len() > 0 && !crate::text::is_digit(x[0]),
        y.len() > 0 && !crate::text::is_digit(y[0]),
    ensures
        m == n,
        x == y,
{
    lemma_after_mark(mark, number_member(key, m) + x, number_member(key, n) + y);
    lemma_member_ends(key, crate::text::decimal(m), crate::text::decimal(n), x, y);
    crate::text::lemma_decimal_ends(m, n, x, y);
}

/// Reports that say the same come from devices that have been up equally long and
/// have equally much memory free.
pub proof fn law_reports_tell_everything(
    uptime_millis: nat,
    memory: nat,
    other_uptime_millis: nat,
    other_memory: nat,
)
    requires
        telemetry_text(uptime_millis, memory) == telemetry_text(other_uptime_millis, other_memory),
    ensures
        uptime_millis == other_uptime_millis,
        memory == other_memory,
{
    let close = seq!['}'];
    let tail = seq![','] + (number_member("uptime"@, uptime_millis) + close);
    let other_tail = seq![','] + (number_member("uptime"@, other_uptime_millis) + close);
    assert(telemetry_text(uptime_millis, memory) =~= seq!['{'] + (number_member("memory"@, memory)
        + tail));
    assert(telemetry_text(other_uptime_millis, other_memory) =~= seq!['{'] + (number_member(
        "memory"@,
        other_memory,
    ) + other_tail));
    lemma_number_member_ends('{', "memory"@, memory, other_memory, tail, other_tail);
    lemma_number_member_ends(
        ',',
        "uptime"@,
        uptime_millis,
        other_uptime_millis,
        close,
        close,
    );
}

/// Members that stand one after the other, grouped from the back.
proof fn lemma_grouped_from_the_back(
    m1: Seq<char>,
    m2: Seq<char>,
    m3: Seq<char>,
    m4: Seq<char>,
    m5: Seq<char>,
    m6: Seq<char>,
    m7: Seq<char>,
    m8: Seq<char>,
)
    ensures
        ({
            let open = seq!['{'];
            let comma = seq![','];
            let close = seq!['}'];
            open + (m1 + comma + m2 + comma + m3 + comma + m4 + comma + m5 + comma + m6 + comma + m7
                + comma + m8) + close == open + (m1 + (comma + (m2 + (comma + (m3 + (comma + (m4 + (
            comma + (m5 + (comma + (m6 + (comma + (m7 + (comma + (m8 + close)))))))))))))))
        }),
{
    let open = seq!['{'];
    let comma = seq![','];
    let close = seq!['}'];
    let h2 = m1 + comma + m2;
    let h3 = h2 + comma + m3;
    let h4 = h3 + comma + m4;
    let h5 = h4 + comma + m5;
    let h6 = h5 + comma + m6;
    let h7 = h6 + comma + m7;
    let h8 = h7 + comma + m8;
    let t8 = m8 + close;
    let t7 = m7 + (comma + t8);
    let t6 = m6 + (comma + t7);
    let t5 = m5 + (comma + t6);
    let t4 = m4 + (comma + t5);
    let t3 = m3 + (comma + t4);
    let t2 = m2 + (comma + t3);
    let t1 = m1 + (comma + t2);
    assert(h8 + close =~= h7 + (comma + t8));
    assert(h7 + (comma + t8) =~= h6 + (comma + t7));
    assert(h6 + (comma + t7) =~= h5 + (comma + t6));
    assert(h5 + (comma + t6) =~= h4 + (comma + t5));
    assert(h4 + (comma + t5) =~= h3 + (comma + t4));
    assert(h3 + (comma + t4) =~= h2 + (comma + t3));
    assert(h2 + (comma + t3) =~= t1);
    assert(open + h8 + close =~= open + (h8 + close));
}

/// Announcements that say the same come from the same device, with the same
/// configuration and version, started at the same time.
pub proof fn law_announcements_tell_everything(
    id: Seq<char>,
    instance: Seq<char>,
    device_config: Seq<char>,
    version: Seq<char>,
    time: nat,
    other_id: Seq<char>,
    other_instance: Seq<char>,
    other_device_config: Seq<char>,
    other_version: Seq<char>,
    other_time: nat,
)
    requires
        init_text(id, instance, device_config, version, time) == init_text(
            other_id,
            other_instance,
            other_device_config,
            other_version,
            other_time,
        ),
    ensures
        id == other_id,
        instance == other_instance,
        device_config == other_device_config,
        version == other_version,
        time == other_time,
{
    let comma = seq![','];
    let close = seq!['}'];
    let app = text_member("app"@, "ugly-duckling-rs"@);
    let model = text_member("model"@, "mk6"@);
    let kind = text_member("type"@, "ugly-duckling"@);
    let a8 = comma + (text_member("version"@, version) + close);
    let a7 = comma + (kind + a8);
    let a6 = comma + (number_member("time"@, time) + a7);
    let a5 = comma + (model + a6);
    let a4 = comma + (text_member("instance"@, instance) + a5);
    let a3 = comma + (text_member("id"@, id) + a4);
    let a2 = comma + (text_member("deviceConfig"@, device_config) + a3);
    let b8 = comma + (text_member("version"@, other_version) + close);
    let b7 = comma + (kind + b8);
    let b6 = comma + (number_member("time"@, other_time) + b7);
    let b5 = comma + (model + b6);
    let b4 = comma + (text_member("instance"@, other_instance) + b5);
    let b3 = comma + (text_member("id"@, other_id) + b4);
    let b2 = comma + (text_member("deviceConfig"@, other_device_config) + b3);
    lemma_grouped_from_the_back(
        app,
        text_member("deviceConfig"@, device_config),
        text_member("id"@, id),
        text_member("instance"@, instance),
        model,
        number_member("time"@, time),
        kind,
        text_member("version"@, version),
    );
    lemma_grouped_from_the_back(
        app,
        text_member("deviceConfig"@, other_device_config),
        text_member("id"@, other_id),
        text_member("instance"@, other_instance),
        model,
        number_member("time"@, other_time),
        kind,
        text_member("version"@, other_version),
    );
    lemma_text_member_ends('{', "app"@, "ugly-duckling-rs"@, "ugly-duckling-rs"@, a2, b2);
    lemma_text_member_ends(',', "deviceConfig"@, device_config, other_device_config, a3, b3);
    lemma_text_member_ends(',', "id"@, id, other_id, a4, b4);
    lemma_text_member_ends(',', "instance"@, instance, other_instance, a5, b5);
    lemma_text_member_ends(',', "model"@, "mk6"@, "mk6"@, a6, b6);
    assert(a7[0] == ',' && b7[0] == ',');
    lemma_number_member_ends(',', "time"@, time, other_time, a7, b7);
    lemma_text_member_ends(',', "type"@, "ugly-duckling"@, "ugly-duckling"@, a8, b8);
    lemma_text_member_ends(',', "version"@, version, other_version, close, close);
}

/// Where the main task of a device stands.
#[derive(Clone, Copy, PartialEq, Eq, Structural, Debug)]
pub enum DeviceStage {
    Initialising,
    Subscribing,
    Announcing,
    Reporting,
    Resting,
    Failed,
}

/// What the main task of a device asks for.
pub enum DeviceAction<E> {
    /// Subscribe to a topic of the device.
    Subscribe { topic: String },
    /// Publish the announcement.
    Announce,
    /// Publish a report.
    Report,
    /// Wait.
    Rest { secs: u64 },
    /// Give up.
    Fail(E),
}

pub enum DeviceActionView<E> {
    Subscribe { topic: Seq<char> },
    Announce,
    Report,
    Rest { secs: u64 },
    Fail(E),
}

impl<E> View for DeviceAction<E> {
    type V = DeviceActionView<E>;

    open spec fn view(&self) -> DeviceActionView<E> {
        match self {
            DeviceAction::Subscribe { topic } => DeviceActionView::Subscribe { topic: topic@ },
            DeviceAction::Announce => DeviceActionView::Announce,
            DeviceAction::Report => DeviceActionView::Report,
            DeviceAction::Rest { secs } => DeviceActionView::Rest { secs: *secs },
            DeviceAction::Fail(error) => DeviceActionView::Fail(*error),
        }
    }
}

impl DeviceStage {
    /// Whether a reply answers what was asked for: everything but waiting can
    /// fail.
    pub open spec fn awaits<E>(self, reply: Result<(), E>) -> bool {
        match self {
            DeviceStage::Resting => reply is Ok,
            DeviceStage::Failed => false,
            _ => true,
        }
    }

    /// The stage after a reply.
    pub open spec fn after<E>(self, reply: Result<(), E>) -> DeviceStage {
        if reply is Err {
            DeviceStage::Failed
        } else {
            match self {
                DeviceStage::Initialising => DeviceStage::Subscribing,
                DeviceStage::Subscribing => DeviceStage::Announcing,
                DeviceStage::Announcing => DeviceStage::Reporting,
                DeviceStage::Reporting => DeviceStage::Resting,
                DeviceStage::Resting => DeviceStage::Reporting,
                DeviceStage::Failed => DeviceStage::Failed,
            }
        }
    }

    /// What is asked for after a reply: what belongs to the stage that is entered.
    pub open spec fn action<E>(self, reply: Result<(), E>) -> DeviceActionView<E> {
        match self.after(reply) {
            DeviceStage::Initialising | DeviceStage::Subscribing => DeviceActionView::Subscribe {
                topic: "commands/ping"@,
            },
            DeviceStage::Announcing => DeviceActionView::Announce,
            DeviceStage::Reporting => DeviceActionView::Report,
            DeviceStage::Resting => DeviceActionView::Rest { secs: 5 },
            DeviceStage::Failed => DeviceActionView::Fail(reply->Err_0),
        }
    }
}

/// The main task of a device.
pub struct DeviceTask {
    stage: DeviceStage,
}

/// Begins with the device being initialised.
pub fn start_device() -> (task: DeviceTask)
    ensures
        task.stage() is Initialising,
{
    DeviceTask { stage: DeviceStage::Initialising }
}

impl DeviceTask {
    /// Where the task stands.
    pub closed spec fn stage(&self) -> DeviceStage {
        self.stage
    }

    /// Whether `reply` answers what was asked for.
    pub fn awaits<E>(&self, reply: &Result<(), E>) -> (awaited: bool)
        ensures
            awaited == self.stage().awaits(*reply),
    {
        match self.stage {
            DeviceStage::Resting => reply.is_ok(),
            DeviceStage::Failed => false,
            _ => true,
        }
    }

    /// Takes the reply to what was asked for, and says what is to be done next.
    pub fn step<E>(&mut self, reply: Result<(), E>) -> (action: DeviceAction<E>)
        requires
            old(self).stage().awaits(reply),
        ensures
            final(self).stage() == old(self).stage().after(reply),
            action@ == old(self).stage().action(reply),
    {
        match reply {
            Err(error) => {
                self.stage = DeviceStage::Failed;
                return DeviceAction::Fail(error);
            },
            Ok(_) => {},
        }
        match self.stage {
            DeviceStage::Initialising => {
                self.stage = DeviceStage::Subscribing;
                DeviceAction::Subscribe { topic: String::from_str("commands/ping") }
            },
            DeviceStage::Subscribing => {
                self.stage = DeviceStage::Announcing;
                DeviceAction::Announce
            },
            DeviceStage::Reporting => {
                self.stage = DeviceStage::Resting;
                DeviceAction::Rest { secs: REPORT_INTERVAL_SECS }
            },
            _ => {
                self.stage = DeviceStage::Reporting;
                DeviceAction::Report
            },
        }
    }
}

/// The stage after all the replies, taken in order from the start.
pub open spec fn device_run<E>(replies: Seq<Result<(), E>>) -> DeviceStage
    decreases replies.len(),
{
    if replies.len() == 0 {
        DeviceStage::Initialising
    } else {
        device_run(replies.drop_last()).after(replies.last())
    }
}

/// Whether each reply answers what was asked for.
pub open spec fn device_answers<E>(replies: Seq<Result<(), E>>) -> bool
    decreases replies.len(),
{
    replies.len() > 0 ==> device_answers(replies.drop_last()) && device_run(
        replies.drop_last(),
    ).awaits(replies.last())
}

/// A device that does not fail subscribes, then announces itself, once, and then
/// reports and rests in turn for good: the number of replies tells where it stands.
pub proof fn law_device_announces_once_then_reports<E>(replies: Seq<Result<(), E>>)
    requires
        device_answers(replies),
        !(device_run(replies) is Failed),
    ensures
        device_run(replies) == (if replies.len() == 0 {
            DeviceStage::Initialising
        } else if replies.len() == 1 {
            DeviceStage::Subscribing
        } else if replies.len() == 2 {
            DeviceStage::Announcing
        } else if replies.len() % 2 == 1 {
            DeviceStage::Reporting
        } else {
            DeviceStage::Resting
        }),
        forall|i: int| 0 <= i < replies.len() ==> (#[trigger] replies[i]) is Ok,
    decreases replies.len(),
{
    if replies.len() > 0 {
        let before = replies.drop_last();
        law_device_announces_once_then_reports(before);
        assert(forall|i: int| 0 <= i < before.len() ==> before[i] == #[trigger] replies[i]);
    }
}

/// Where the watcher of the reset button stands.
#[derive(Clone, Copy, PartialEq, Eq, Structural, Debug)]
pub enum ResetStage {
    AwaitingPress,
    Timing,
    Restarting,
    Failed,
}

/// What the watcher of the reset button is told.
pub enum ResetEvent<E> {
    /// The button was pressed, or it could not be told.
    Pressed(Result<(), E>),
    /// The button was still held when its time had come.
    HoldElapsed,
    /// The button was released in time, or it could not be told.
    Released,
}

/// What the watcher of the reset button asks for.
pub enum ResetAction<E> {
    /// Wait until the button is pressed.
    AwaitPress,
    /// Wait until the button is released, but no longer than this.
    TimeHold { secs: u64 },
    /// Forget the wireless network and restart.
    RestoreAndRestart,
    /// Give up.
    Fail(E),
}

impl ResetStage {
    /// Whether an event answers what was asked for.
    pub open spec fn awaits<E>(self, event: ResetEvent<E>) -> bool {
        match self {
            ResetStage::AwaitingPress => event is Pressed,
            ResetStage::Timing => event is HoldElapsed || event is Released,
            ResetStage::Restarting | ResetStage::Failed => false,
        }
    }

    /// The stage after an event.
    pub open spec fn after<E>(self, event: ResetEvent<E>) -> ResetStage {
        match event {
            ResetEvent::Pressed(Ok(_)) => ResetStage::Timing,
            ResetEvent::Pressed(Err(_)) => ResetStage::Failed,
            ResetEvent::HoldElapsed => ResetStage::Restarting,
            ResetEvent::Released => ResetStage::AwaitingPress,
        }
    }

    /// What is asked for after an event: what belongs to the stage that is
    /// entered.
    pub open spec fn action<E>(self, event: ResetEvent<E>) -> ResetAction<E> {
        match self.after(event) {
            ResetStage::AwaitingPress => ResetAction::AwaitPress,
            ResetStage::Timing => ResetAction::TimeHold { secs: 5 },
            ResetStage::Restarting => ResetAction::RestoreAndRestart,
            ResetStage::Failed => ResetAction::Fail(event->Pressed_0->Err_0),
        }
    }
}

/// The watcher of the reset button.
pub struct ResetWatcher {
    stage: ResetStage,
}

/// Begins with waiting until the button is pressed.
pub fn reset_watcher() -> (watcher: ResetWatcher)
    ensures
        watcher.stage() is AwaitingPress,
{
    ResetWatcher { stage: ResetStage::AwaitingPress }
}

impl ResetWatcher {
    /// Where the watcher stands.
    pub closed spec fn stage(&self) -> ResetStage {
        self.stage
    }

    /// Whether `event` answers what was asked for.
    pub fn awaits<E>(&self, event: &ResetEvent<E>) -> (awaited: bool)
        ensures
            awaited == self.stage().awaits(*event),
    {
        match (&self.stage, event) {
            (ResetStage::AwaitingPress, ResetEvent::Pressed(_)) => true,
            (ResetStage::Timing, ResetEvent::HoldElapsed) => true,
            (ResetStage::Timing, ResetEvent::Released) => true,
            _ => false,
        }
    }

    /// Takes an event, and says what is to be done next.
    pub fn step<E>(&mut self, event: ResetEvent<E>) -> (action: ResetAction<E>)
        requires
            old(self).stage().awaits(event),
        ensures
            final(self).stage() == old(self).stage().after(event),
            action == old(self).stage().action(event),
    {
        match event {
            ResetEvent::Pressed(Ok(_)) => {
                self.stage = ResetStage::Timing;
                ResetAction::TimeHold { secs: RESET_HOLD_SECS }
            },
            ResetEvent::Pressed(Err(error)) => {
                self.stage = ResetStage::Failed;
                ResetAction::Fail(error)
            },
            ResetEvent::HoldElapsed => {
                self.stage = ResetStage::Restarting;
                ResetAction::RestoreAndRestart
            },
            ResetEvent::Released => {
                self.stage = ResetStage::AwaitingPress;
                ResetAction::AwaitPress
            },
        }
    }
}

/// The stage after all the events, taken in order from the start.
pub open spec fn reset_run<E>(events: Seq<ResetEvent<E>>) -> ResetStage
    decreases events.len(),
{
    if events.len() == 0 {
        ResetStage::AwaitingPress
    } else {
        reset_run(events.drop_last()).after(events.last())
    }
}

/// Whether each event answers what was asked for.
pub open spec fn reset_answers<E>(events: Seq<ResetEvent<E>>) -> bool
    decreases events.len(),
{
    events.len() > 0 ==> reset_answers(events.drop_last()) && reset_run(
        events.drop_last(),
    ).awaits(events.last())
}

/// A device is reset only when its button was pressed and then held for the whole
/// time: releasing the button early starts the time anew.
pub proof fn law_reset_only_after_full_hold<E>(events: Seq<ResetEvent<E>>)
    requires
        reset_answers(events),
        reset_run(events) is Restarting,
    ensures
        events.len() >= 2,
        events.last() is HoldElapsed,
        events[events.len() - 2] matches ResetEvent::Pressed(Ok(_)),
{
    let before = events.drop_last();
    assert(before.len() > 0);
    assert(before.last() == events[events.len() - 2]);
    let start = before.drop_last();
    assert(reset_run(before) is Timing);
    assert(reset_run(before) == reset_run(start).after(before.last()));
}

/// The light of a device.
pub struct Blink {
    lit: bool,
}

/// What the light does next: it is driven to a level and stays there for a while.
#[derive(Clone, Copy, PartialEq, Eq, Structural, Debug)]
pub struct BlinkStep {
    pub high: bool,
    pub secs: u64,
}

/// Begins with the light off.
pub fn blink() -> (light: Blink)
    ensures
        !light.lit(),
{
    Blink { lit: false }
}

impl Blink {
    /// Whether the light is on.
    pub closed spec fn lit(&self) -> bool {
        self.lit
    }

    /// Turns the light over.
    pub fn step(&mut self) -> (step: BlinkStep)
        ensures
            final(self).lit() == !old(self).lit(),
            step == (BlinkStep { high: final(self).lit(), secs: 1 }),
    {
        self.lit = !self.lit;
        BlinkStep { high: self.lit, secs: BLINK_SECS }
    }
}

/// Whether the step after the first `i` turned the light over.
pub open spec fn turned_over(lights: Seq<Blink>, i: int) -> bool {
    lights[i + 1].lit() == !lights[i].lit()
}

/// The light is on after every other step, beginning with the first. `lights` is the
/// light from the start on, after one step more each.
pub proof fn law_light_alternates(lights: Seq<Blink>, steps: int)
    requires
        0 <= steps < lights.len(),
        !lights[0].lit(),
        forall|i: int| 0 <= i < lights.len() - 1 ==> #[trigger] turned_over(lights, i),
    ensures
        lights[steps].lit() == (steps % 2 == 1),
    decreases steps,
{
    if steps > 0 {
        law_light_alternates(lights, steps - 1);
        assert(turned_over(lights, steps - 1));
    }
}

/// A member is its key in quotes, a colon and its value, whole.
proof fn lemma_plain_member(key: Seq<char>, value: Seq<char>)
    requires
        forall|i: int|
            0 <= i < key.len() ==> {
                &&& #[trigger] key[i] as u32 >= 0x20
                &&& key[i] != '"'
                &&& key[i] != '\\'
            },
    ensures
        member(key, value) == seq!['"'] + key + seq!['"', ':'] + value,
{
    crate::payload::law_plain_texts_stand_unchanged(key);
    assert(member(key, value) =~= seq!['"'] + key + seq!['"', ':'] + value);
}

/// A report is an object of the memory and the uptime, both written out in full.
pub proof fn law_reports_are_written_out(uptime_millis: nat, memory: nat)
    ensures
        telemetry_text(uptime_millis, memory) == seq!['{', '"'] + "memory"@ + seq!['"', ':']
            + crate::text::decimal(memory) + seq![',', '"'] + "uptime"@ + seq!['"', ':']
            + crate::text::decimal(uptime_millis) + seq!['}'],
{
    reveal_strlit("memory");
    reveal_strlit("uptime");
    lemma_plain_member("memory"@, crate::text::decimal(memory));
    lemma_plain_member("uptime"@, crate::text::decimal(uptime_millis));
    assert(telemetry_text(uptime_millis, memory) =~= seq!['{', '"'] + "memory"@ + seq!['"', ':']
        + crate::text::decimal(memory) + seq![',', '"'] + "uptime"@ + seq!['"', ':']
        + crate::text::decimal(uptime_millis) + seq!['}']);
}

/// An announcement is an object that tells what the device is and, each of them whole, its
/// configuration, id, instance, start time and version.
pub proof fn law_announcements_are_written_out(
    id: Seq<char>,
    instance: Seq<char>,
    device_config: Seq<char>,
    version: Seq<char>,
    time: nat,
)
    ensures
        ({
            let quote = seq!['"'];
            let colon = seq!['"', ':'];
            let comma = seq![','];
            let app = quote + "app"@ + colon + (quote + "ugly-duckling-rs"@ + quote);
            let config = quote + "deviceConfig"@ + colon + crate::payload::json_string(
                device_config,
            );
            let which = quote + "id"@ + colon + crate::payload::json_string(id);
            let named = quote + "instance"@ + colon + crate::payload::json_string(instance);
            let model = quote + "model"@ + colon + (quote + "mk6"@ + quote);
            let started = quote + "time"@ + colon + crate::text::decimal(time);
            let kind = quote + "type"@ + colon + (quote + "ugly-duckling"@ + quote);
            let runs = quote + "version"@ + colon + crate::payload::json_string(version);
            init_text(id, instance, device_config, version, time) == seq!['{'] + (app + comma
                + config + comma + which + comma + named + comma + model + comma + started + comma
                + kind + comma + runs) + seq!['}']
        }),
{
    reveal_strlit("app");
    reveal_strlit("ugly-duckling-rs");
    reveal_strlit("deviceConfig");
    reveal_strlit("id");
    reveal_strlit("instance");
    reveal_strlit("model");
    reveal_strlit("mk6");
    reveal_strlit("time");
    reveal_strlit("type");
    reveal_strlit("ugly-duckling");
    reveal_strlit("version");
    crate::payload::law_plain_texts_stand_unchanged("ugly-duckling-rs"@);
    crate::payload::law_plain_texts_stand_unchanged("mk6"@);
    crate::payload::law_plain_texts_stand_unchanged("ugly-duckling"@);
    lemma_plain_member("app"@, crate::payload::json_string("ugly-duckling-rs"@));
    lemma_plain_member("deviceConfig"@, crate::payload::json_string(device_config));
    lemma_plain_member("id"@, crate::payload::json_string(id));
    lemma_plain_member("instance"@, crate::payload::json_string(instance));
    lemma_plain_member("model"@, crate::payload::json_string("mk6"@));
    lemma_plain_member("time"@, crate::text::decimal(time));
    lemma_plain_member("type"@, crate::payload::json_string("ugly-duckling"@));
    lemma_plain_member("version"@, crate::payload::json_string(version));
}

/// A view tells every part of an action.
pub proof fn law_action_views_are_whole<E>(action: DeviceAction<E>)
    ensures
        action@ == (match action {
            DeviceAction::Subscribe { topic } => DeviceActionView::Subscribe { topic: topic@ },
            DeviceAction::Announce => DeviceActionView::Announce,
            DeviceAction::Report => DeviceActionView::Report,
            DeviceAction::Rest { secs } => DeviceActionView::Rest { secs },
            DeviceAction::Fail(error) => DeviceActionView::Fail(error),
        }),
{
}

/// A device that is initialised subscribes to its commands, then announces itself, then
/// reports, and after each report rests five seconds and reports again.
pub proof fn law_devices_go_on_reporting<E>()
    ensures
        ({
            let done = Ok::<(), E>(());
            &&& DeviceStage::Initialising.action(done) == (DeviceActionView::<E>::Subscribe {
                topic: "commands/ping"@,
            })
            &&& DeviceStage::Initialising.after(done) is Subscribing
            &&& DeviceStage::Subscribing.action(done) is Announce
            &&& DeviceStage::Subscribing.after(done) is Announcing
            &&& DeviceStage::Announcing.action(done) is Report
            &&& DeviceStage::Announcing.after(done) is Reporting
            &&& DeviceStage::Reporting.action(done) == (DeviceActionView::<E>::Rest { secs: 5 })
            &&& DeviceStage::Reporting.after(done) is Resting
            &&& DeviceStage::Resting.action(done) is Report
            &&& DeviceStage::Resting.after(done) is Reporting
        }),
{
}

/// Whatever fails ends the main task with its own error. Waiting does not fail, and nothing
/// is awaited after a failure.
pub proof fn law_device_failures_are_passed_on<E>(stage: DeviceStage, error: E)
    ensures
        stage.awaits(Ok::<(), E>(())) <==> !(stage is Failed),
        stage.awaits(Err::<(), E>(error)) <==> !(stage is Failed) && !(stage is Resting),
        stage.after(Err::<(), E>(error)) is Failed,
        stage.action(Err::<(), E>(error)) == DeviceActionView::<E>::Fail(error),
{
}

/// A press is timed for five seconds; a button that is still held then resets the device,
/// one that was released is waited for again, and one that cannot be read ends the watch
/// with its error.
pub proof fn law_button_events_are_answered<E>(stage: ResetStage, error: E)
    ensures
        stage.action(ResetEvent::<E>::Pressed(Ok(()))) == (ResetAction::<E>::TimeHold { secs: 5 }),
        stage.after(ResetEvent::<E>::Pressed(Ok(()))) is Timing,
        stage.action(ResetEvent::Pressed(Err(error))) == ResetAction::Fail(error),
        stage.after(ResetEvent::Pressed(Err(error))) is Failed,
        stage.action(ResetEvent::<E>::HoldElapsed) is RestoreAndRestart,
        stage.after(ResetEvent::<E>::HoldElapsed) is Restarting,
        stage.action(ResetEvent::<E>::Released) is AwaitPress,
        stage.after(ResetEvent::<E>::Released) is AwaitingPress,
{
}

/// The watch takes a press, readable or not, while it waits for one, and the end of a hold,
/// either way, while it times one; nothing else.
pub proof fn law_button_events_are_awaited_in_turn<E>(stage: ResetStage, event: ResetEvent<E>)
    ensures
        stage.awaits(event) <==> {
            ||| stage is AwaitingPress && event is Pressed
            ||| stage is Timing && (event is HoldElapsed || event is Released)
        },
{
}

/// A report tells the whole milliseconds that the device has been up, and the memory that is
/// free, however much of either.
pub proof fn law_reports_tell_uptime_and_memory(
    mqtt: Mqtt,
    uptime_micros: u64,
    memory: u32,
    message: MqttMessage,
)
    requires
        uptime_micros < u64::MAX,
        call_ensures(telemetry_message, (&mqtt, uptime_micros, memory), message),
    ensures
        message.topic@ == mqtt.topic_root() + "/"@ + "telemetry"@,
        message.payload@ == seq!['{', '"'] + "memory"@ + seq!['"', ':'] + crate::text::decimal(
            memory as nat,
        ) + seq![',', '"'] + "uptime"@ + seq!['"', ':'] + crate::text::decimal(
            (uptime_micros / 1000) as nat,
        ) + seq!['}'],
        message.qos is AtMostOnce,
        !message.retain,
{
    law_reports_are_written_out((uptime_micros / 1000) as nat, memory as nat);
}

/// An announcement is made exactly if the configuration could be written and the time be
/// told, and tells both; otherwise the configuration's error counts, and the time's only
/// without one.
pub proof fn law_announcements_tell_configuration_and_time<E>(
    mqtt: Mqtt,
    config: DeviceConfig,
    device_config: Result<String, E>,
    version: &str,
    time: Result<u64, E>,
    message: Result<MqttMessage, E>,
)
    requires
        call_ensures(init_message::<E>, (&mqtt, &config, device_config, version, time), message),
    ensures
        message is Ok <==> device_config is Ok && time is Ok,
        message matches Ok(published) ==> {
            &&& published.topic@ == mqtt.topic_root() + "/"@ + "init"@
            &&& published.payload@ == init_text(
                config.id@,
                config.instance@,
                device_config->Ok_0@,
                version@,
                time->Ok_0 as nat,
            )
            &&& published.qos is AtMostOnce
            &&& !published.retain
        },
        device_config matches Err(error) ==> message == Err::<MqttMessage, E>(error),
        device_config is Ok ==> (time matches Err(error) ==> message == Err::<MqttMessage, E>(
            error,
        )),
{
}

} // verus!
