//! Messages to and from the broker: where they go, and who answers them.

use crate::kernel::mdns::ServiceQuery;
use crate::network::{service_or, Service};
use crate::text::{decimal_text, strip_prefix, utf8_text};
use vstd::prelude::*;

verus! {

/// How many messages wait to be published before a sender has to.
pub const MQTT_PUBLISH_QUEUE_SIZE: usize = 16;

/// The query for a broker.
pub fn broker_query() -> (query: ServiceQuery)
    ensures
        query.asks_for("_mqtt"@, "_tcp"@),
{
    ServiceQuery::new("_mqtt", "_tcp")
}

/// How hard the broker tries to deliver a message.
#[derive(Clone, Copy, PartialEq, Eq, Structural, Debug)]
pub enum QoS {
    AtMostOnce,
    AtLeastOnce,
    ExactlyOnce,
}

/// A message to publish.
#[derive(Debug)]
pub struct MqttMessage {
    pub topic: String,
    pub qos: QoS,
    pub retain: bool,
    pub payload: String,
}

pub struct MqttMessageView {
    pub topic: Seq<char>,
    pub qos: QoS,
    pub retain: bool,
    pub payload: Seq<char>,
}

impl View for MqttMessage {
    type V = MqttMessageView;

    open spec fn view(&self) -> MqttMessageView {
        MqttMessageView {
            topic: self.topic@,
            qos: self.qos,
            retain: self.retain,
            payload: self.payload@,
        }
    }
}

/// A message that is delivered at most once and that the broker does not keep.
pub open spec fn plain_message(topic: Seq<char>, payload: Seq<char>) -> MqttMessageView {
    MqttMessageView { topic, qos: QoS::AtMostOnce, retain: false, payload }
}

/// A topic to listen to.
#[derive(Debug)]
pub struct Subscription {
    pub topic: String,
    pub qos: QoS,
}

/// The topic under which everything of a device stands.
pub open spec fn root_of(instance: Seq<char>) -> Seq<char> {
    "devices/ugly-duckling/"@ + instance
}

/// What the topics of a device start with.
pub open spec fn prefix_of(root: Seq<char>) -> Seq<char> {
    root + "/"@
}

/// The full topic of `topic` under a root.
pub open spec fn topic_under(root: Seq<char>, topic: Seq<char>) -> Seq<char> {
    prefix_of(root) + topic
}

/// The full topic of `topic` under a root.
pub fn make_topic(root: &str, topic: &str) -> (full: String)
    ensures
        full@ == topic_under(root@, topic@),
{
    String::from_str(root).concat("/").concat(topic)
}

/// The message that publishes `payload` under a topic of a root.
pub fn make_message(root: &str, topic: &str, payload: String) -> (message: MqttMessage)
    ensures
        message@ == plain_message(topic_under(root@, topic@), payload@),
{
    MqttMessage { topic: make_topic(root, topic), qos: QoS::AtMostOnce, retain: false, payload }
}

/// The broker to use: the one that was found, or else the default one.
pub open spec fn broker_of(found: Option<Service>) -> crate::network::ServiceView {
    crate::network::found_or(found, "bumblebee.local"@, 1883)
}

/// Where a broker is reached.
pub open spec fn url_of(broker: crate::network::ServiceView) -> Seq<char> {
    "mqtt://"@ + broker.hostname + ":"@ + crate::text::decimal(broker.port as nat)
}

/// How a device reaches its broker, and what it says and hears there.
pub struct MqttSetup {
    /// Where the broker is reached.
    pub url: String,
    /// The name under which the device connects.
    pub client_id: String,
    /// What the topics start with that the device answers to.
    pub prefix: String,
    /// What the device publishes and subscribes through.
    pub mqtt: Mqtt,
}

impl MqttSetup {
    /// Whether this is the setup of the given instance with the given broker.
    pub open spec fn describes(&self, broker: crate::network::ServiceView, instance: Seq<char>) -> bool {
        &&& self.url@ == url_of(broker)
        &&& self.client_id@ == instance
        &&& self.prefix@ == prefix_of(root_of(instance))
        &&& self.mqtt.topic_root() == root_of(instance)
    }
}

/// The messages of one device.
pub struct Mqtt {
    topic_root: String,
}

impl Mqtt {
    /// The topic under which everything of the device stands.
    pub closed spec fn topic_root(&self) -> Seq<char> {
        self.topic_root@
    }

    /// The topic under which everything of the device stands.
    pub fn root(&self) -> (root: &str)
        ensures
            root@ == self.topic_root(),
    {
        self.topic_root.as_str()
    }

    /// Sets the messages of a device up, by what the query for a broker was
    /// answered with.
    pub fn create<E>(found: Result<Option<Service>, E>, instance: &str) -> (setup: Result<
        MqttSetup,
        E,
    >)
        ensures
            match found {
                Ok(service) => setup matches Ok(s) && s.describes(broker_of(service), instance@),
                Err(error) => setup == Err::<MqttSetup, E>(error),
            },
    {
        match found {
            Ok(service) => {
                let broker: Service = service_or(service, "bumblebee.local", 1883);
                let url: String = String::from_str("mqtt://").concat(
                    broker.hostname.as_str(),
                ).concat(":").concat(decimal_text(broker.port as u64).as_str());
                let topic_root: String = String::from_str("devices/ugly-duckling/").concat(
                    instance,
                );
                let prefix: String = topic_root.clone().concat("/");
                Ok(
                    MqttSetup {
                        url,
                        client_id: String::from_str(instance),
                        prefix,
                        mqtt: Mqtt { topic_root },
                    },
                )
            },
            Err(error) => Err(error),
        }
    }

    /// The message that publishes `payload` under `topic`, unless the payload
    /// could not be written.
    pub fn publish<E>(&self, topic: &str, payload: Result<String, E>) -> (message: Result<
        MqttMessage,
        E,
    >)
        ensures
            match payload {
                Ok(text) => message matches Ok(m) && m@ == plain_message(
                    topic_under(self.topic_root(), topic@),
                    text@,
                ),
                Err(error) => message == Err::<MqttMessage, E>(error),
            },
    {
        match payload {
            Ok(payload) => Ok(make_message(self.root(), topic, payload)),
            Err(error) => Err(error),
        }
    }

    /// The subscription to `topic`.
    pub fn subscribe(&self, topic: &str) -> (subscription: Subscription)
        ensures
            subscription.topic@ == topic_under(self.topic_root(), topic@),
            subscription.qos is AtMostOnce,
    {
        Subscription { topic: make_topic(self.root(), topic), qos: QoS::AtMostOnce }
    }
}

/// What the connection to the broker reports.
pub enum EventPayload {
    Received { topic: Option<String>, data: Vec<u8> },
    Connected(bool),
    Disconnected,
    Other,
}

/// What a message was answered with: the path to publish under, and the payload.
pub type IncomingMessageResponse = Option<(String, String)>;

/// What is to be done about an event.
pub enum Reaction {
    /// Publish a message.
    Publish(MqttMessage),
    /// Let whoever waits for the connection go on.
    SignalConnected,
    /// Nothing.
    Ignore,
}

pub enum ReactionView {
    Publish(MqttMessageView),
    SignalConnected,
    Ignore,
}

impl View for Reaction {
    type V = ReactionView;

    open spec fn view(&self) -> ReactionView {
        match self {
            Reaction::Publish(message) => ReactionView::Publish(message@),
            Reaction::SignalConnected => ReactionView::SignalConnected,
            Reaction::Ignore => ReactionView::Ignore,
        }
    }
}

/// The path and the text of a message that a device answers to: one whose topic
/// starts with the device's prefix and whose data is text.
pub open spec fn delivery(prefix: Seq<char>, event: EventPayload) -> Option<(Seq<char>, Seq<char>)> {
    match event {
        EventPayload::Received { topic: Some(topic), data } => match crate::text::stripped(
            topic@,
            prefix,
        ) {
            Some(path) => if vstd::utf8::valid_utf8(data@) {
                Some((path, vstd::utf8::decode_utf8(data@)))
            } else {
                None
            },
            None => None,
        },
        _ => None,
    }
}

/// What is done about the answer to a message: an answer is published under the
/// device's prefix; no answer and a failure are not.
pub open spec fn answer<E>(
    prefix: Seq<char>,
    result: Result<IncomingMessageResponse, E>,
) -> ReactionView {
    match result {
        Ok(Some(response)) => ReactionView::Publish(
            plain_message(prefix + response.0@, response.1@),
        ),
        Ok(None) | Err(_) => ReactionView::Ignore,
    }
}

/// The path and the text of a message that a device answers to.
pub fn deliver<'a>(prefix: &str, event: &'a EventPayload) -> (delivered: Option<
    (&'a str, &'a str),
>)
    ensures
        delivered is Some <==> delivery(prefix@, *event) is Some,
        delivered matches Some(d) ==> Some((d.0@, d.1@)) == delivery(prefix@, *event),
{
    match event {
        EventPayload::Received { topic: Some(topic), data } => {
            match utf8_text(data.as_slice()) {
                Some(text) => match strip_prefix(topic.as_str(), prefix) {
                    Some(path) => Some((path, text)),
                    None => None,
                },
                None => None,
            }
        },
        _ => None,
    }
}

/// What is done about the answer to a message.
pub fn respond<E>(prefix: &str, result: Result<IncomingMessageResponse, E>) -> (reaction: Reaction)
    ensures
        reaction@ == answer(prefix@, result),
{
    match result {
        Ok(Some(response)) => Reaction::Publish(
            MqttMessage {
                topic: String::from_str(prefix).concat(response.0.as_str()),
                qos: QoS::AtMostOnce,
                retain: false,
                payload: response.1,
            },
        ),
        Ok(None) => Reaction::Ignore,
        Err(_) => Reaction::Ignore,
    }
}

/// Takes one event of the connection. A message that the device answers to goes
/// through `handler`, which is called with its path and text and nothing else: it need
/// not be callable on anything but them, and on no other event at all.
pub fn handle_mqtt_event<E, F: Fn(&str, &str) -> Result<IncomingMessageResponse, E>>(
    prefix: &str,
    event: &EventPayload,
    handler: &F,
) -> (reaction: Reaction)
    requires
        forall|path: &str, data: &str|
            Some((path@, data@)) == delivery(prefix@, *event) ==> #[trigger] call_requires(
                *handler,
                (path, data),
            ),
    ensures
        match delivery(prefix@, *event) {
            Some((path, data)) => exists|p: &str, d: &str, result: Result<IncomingMessageResponse, E>|
             {
                &&& p@ == path
                &&& d@ == data
                &&& #[trigger] call_ensures(*handler, (p, d), result)
                &&& reaction@ == answer(prefix@, result)
            },
            None => reaction@ == (if event is Connected {
                ReactionView::SignalConnected
            } else {
                ReactionView::Ignore
            }),
        },
{
    match deliver(prefix, event) {
        Some((path, data)) => {
            let result: Result<IncomingMessageResponse, E> = handler(path, data);
            respond(prefix, result)
        },
        None => match event {
            EventPayload::Connected(_) => Reaction::SignalConnected,
            _ => Reaction::Ignore,
        },
    }
}

/// What is published under a path of a device is delivered under that path: a
/// device finds the path again in every topic of its own.
pub proof fn law_own_topics_are_delivered(root: Seq<char>, path: Seq<char>)
    ensures
        crate::text::stripped(topic_under(root, path), prefix_of(root)) == Some(path),
{
    let full = topic_under(root, path);
    assert(full.subrange(0, prefix_of(root).len() as int) =~= prefix_of(root));
    assert(full.skip(prefix_of(root).len() as int) =~= path);
}

/// A message of a device comes back whole: when the topic and the payload that are
/// published under a path arrive, the handler is given that path and that text.
pub proof fn law_published_messages_are_delivered(
    root: Seq<char>,
    path: Seq<char>,
    payload: Seq<char>,
    event: EventPayload,
)
    requires
        event matches EventPayload::Received { topic: Some(topic), data } && topic@
            == plain_message(topic_under(root, path), payload).topic && data@
            == vstd::utf8::encode_utf8(plain_message(topic_under(root, path), payload).payload),
    ensures
        delivery(prefix_of(root), event) == Some((path, payload)),
{
    law_own_topics_are_delivered(root, path);
    vstd::utf8::encode_utf8_valid_utf8(payload);
    vstd::utf8::encode_utf8_decode_utf8(payload);
}

/// A device answers only under its own topics, at the path that the handler gave.
pub proof fn law_answers_stay_under_the_prefix<E>(
    prefix: Seq<char>,
    result: Result<IncomingMessageResponse, E>,
)
    ensures
        answer(prefix, result) matches ReactionView::Publish(message) ==> result matches Ok(
            Some(response),
        ) && crate::text::stripped(message.topic, prefix) == Some(response.0@),
{
    if let Ok(Some(response)) = result {
        let topic = prefix + response.0@;
        assert(topic.subrange(0, prefix.len() as int) =~= prefix);
        assert(topic.skip(prefix.len() as int) =~= response.0@);
    }
}

/// Devices do not hear each other's messages: with names that hold no slash, no
/// topic of one is delivered to another.
pub proof fn law_devices_are_apart(first: Seq<char>, second: Seq<char>, path: Seq<char>)
    requires
        first != second,
        !first.contains('/'),
        !second.contains('/'),
    ensures
        crate::text::stripped(topic_under(root_of(first), path), prefix_of(root_of(second)))
            is None,
{
    reveal_strlit("/");
    let base = "devices/ugly-duckling/"@;
    let full = topic_under(root_of(first), path);
    let prefix = prefix_of(root_of(second));
    if prefix.is_prefix_of(full) {
        assert(prefix =~= full.subrange(0, prefix.len() as int));
        assert(forall|i: int| 0 <= i < prefix.len() ==> prefix[i] == #[trigger] full[i]);
        assert(forall|i: int|
            0 <= i < second.len() ==> #[trigger] second[i] == prefix[base.len() + i]);
        assert(forall|i: int|
            0 <= i < first.len() ==> #[trigger] first[i] == full[base.len() + i]);
        assert(prefix[base.len() + second.len() as int] == '/');
        assert(full[base.len() + first.len() as int] == '/');
        if second.len() < first.len() {
            assert(first[second.len() as int] == full[base.len() + second.len() as int]);
            assert(first.contains('/'));
        } else if first.len() < second.len() {
            assert(second[first.len() as int] == prefix[base.len() + first.len() as int]);
            assert(second.contains('/'));
        } else {
            assert forall|i: int| 0 <= i < first.len() implies first[i] == second[i] by {
                assert(prefix[base.len() + i] == full[base.len() + i]);
            }
            assert(first =~= second);
        }
    }
}

/// What another device is sent is not delivered: with names that hold no slash, no
/// message under a topic of one device reaches the handler of another.
pub proof fn law_messages_of_others_are_not_delivered(
    first: Seq<char>,
    second: Seq<char>,
    path: Seq<char>,
    event: EventPayload,
)
    requires
        first != second,
        !first.contains('/'),
        !second.contains('/'),
        event matches EventPayload::Received { topic: Some(topic), .. } && topic@ == topic_under(
            root_of(first),
            path,
        ),
    ensures
        delivery(prefix_of(root_of(second)), event) is None,
{
    law_devices_are_apart(first, second, path);
}

/// A view tells every part of a message and of a reaction.
pub proof fn law_message_views_are_whole(message: MqttMessage)
    ensures
        message@.topic == message.topic@,
        message@.qos == message.qos,
        message@.retain == message.retain,
        message@.payload == message.payload@,
        Reaction::Publish(message)@ == ReactionView::Publish(message@),
        Reaction::SignalConnected@ is SignalConnected,
        Reaction::Ignore@ is Ignore,
{
}

/// A message carries its topic and its payload unchanged, whatever they are; it is
/// delivered at most once and not kept.
pub proof fn law_messages_carry_their_payload(topic: Seq<char>, payload: Seq<char>)
    ensures
        plain_message(topic, payload).topic == topic,
        plain_message(topic, payload).payload == payload,
        plain_message(topic, payload).qos is AtMostOnce,
        !plain_message(topic, payload).retain,
{
}

/// A full topic is the root, a slash and the topic, each of them whole.
pub proof fn law_topics_stand_whole_under_the_root(root: Seq<char>, topic: Seq<char>)
    ensures
        topic_under(root, topic) == root + "/"@ + topic,
        prefix_of(root) == root + "/"@,
        root_of(topic) == "devices/ugly-duckling/"@ + topic,
{
}

/// A broker that was found is the one that is connected to, whichever host and port it
/// has; the default broker counts only where none was found. Either way the device
/// connects under its instance and stands under it.
pub proof fn law_found_brokers_are_connected_to(
    setup: MqttSetup,
    found: Option<Service>,
    instance: Seq<char>,
)
    requires
        setup.describes(broker_of(found), instance),
    ensures
        found matches Some(service) ==> setup.url@ == "mqtt://"@ + service.hostname@ + ":"@
            + crate::text::decimal(service.port as nat),
        found is None ==> setup.url@ == "mqtt://"@ + "bumblebee.local"@ + ":"@ + "1883"@,
        setup.client_id@ == instance,
        setup.prefix@ == "devices/ugly-duckling/"@ + instance + "/"@,
        setup.mqtt.topic_root() == "devices/ugly-duckling/"@ + instance,
{
    reveal_strlit("1883");
    reveal_with_fuel(crate::text::decimal, 4);
    assert(crate::text::decimal(1883) =~= "1883"@);
}

/// Every answer of a handler is published: under the device's prefix at the path that the
/// handler gave, with the payload that it gave, unchanged. No answer and a failure publish
/// nothing.
pub proof fn law_answers_are_published_whole<E>(
    prefix: Seq<char>,
    path: String,
    payload: String,
    error: E,
)
    ensures
        answer::<E>(prefix, Ok(Some((path, payload)))) matches ReactionView::Publish(message) && {
            &&& message.topic == prefix + path@
            &&& message.payload == payload@
            &&& message.qos is AtMostOnce
            &&& !message.retain
        },
        answer::<E>(prefix, Ok(None)) is Ignore,
        answer::<E>(prefix, Err(error)) is Ignore,
{
}

/// A message is delivered at a path with a text exactly if its topic is the prefix and the
/// path, and its data the encoding of the text.
pub proof fn law_delivery_is_exact(
    prefix: Seq<char>,
    topic: String,
    data: Vec<u8>,
    path: Seq<char>,
    text: Seq<char>,
)
    ensures
        delivery(prefix, EventPayload::Received { topic: Some(topic), data }) == Some((path, text))
            <==> topic@ == prefix + path && data@ == vstd::utf8::encode_utf8(text),
        delivery(prefix, EventPayload::Received { topic: Some(topic), data }) is None <==> !(
        topic@.len() >= prefix.len() && topic@.take(prefix.len() as int) == prefix
            && vstd::utf8::valid_utf8(data@)),
{
    crate::text::law_stripped_is_what_follows(topic@, prefix, path);
    vstd::utf8::encode_utf8_valid_utf8(text);
    vstd::utf8::encode_utf8_decode_utf8(text);
    if vstd::utf8::valid_utf8(data@) {
        vstd::utf8::decode_utf8_encode_utf8(data@);
    }
}

/// What has no topic, and what is no message, is not delivered.
pub proof fn law_only_messages_with_a_topic_are_delivered(
    prefix: Seq<char>,
    data: Vec<u8>,
    session_present: bool,
)
    ensures
        delivery(prefix, EventPayload::Received { topic: None, data }) is None,
        delivery(prefix, EventPayload::Connected(session_present)) is None,
        delivery(prefix, EventPayload::Disconnected) is None,
        delivery(prefix, EventPayload::Other) is None,
{
}

/// A device connects to the broker that was found, whichever it is, as its own instance; a
/// failed query is passed on.
pub proof fn law_devices_connect_to_the_broker_found<E>(
    found: Result<Option<Service>, E>,
    instance: &str,
    setup: Result<MqttSetup, E>,
)
    requires
        call_ensures(Mqtt::create::<E>, (found, instance), setup),
    ensures
        found matches Ok(Some(service)) ==> (setup matches Ok(made) && made.url@ == "mqtt://"@
            + service.hostname@ + ":"@ + crate::text::decimal(service.port as nat)),
        found matches Ok(None) ==> (setup matches Ok(made) && made.url@ == "mqtt://"@
            + "bumblebee.local"@ + ":"@ + "1883"@),
        setup matches Ok(made) ==> {
            &&& made.client_id@ == instance@
            &&& made.prefix@ == "devices/ugly-duckling/"@ + instance@ + "/"@
            &&& made.mqtt.topic_root() == "devices/ugly-duckling/"@ + instance@
        },
        found matches Err(error) ==> setup == Err::<MqttSetup, E>(error),
{
    if let Ok(made) = setup {
        law_found_brokers_are_connected_to(made, found->Ok_0, instance@);
    }
}

/// What is published stands whole under the device's root and a slash, and a payload that
/// could not be written publishes nothing.
pub proof fn law_payloads_are_published_whole<E>(
    mqtt: Mqtt,
    topic: &str,
    payload: Result<String, E>,
    message: Result<MqttMessage, E>,
)
    requires
        call_ensures(Mqtt::publish::<E>, (&mqtt, topic, payload), message),
    ensures
        payload matches Ok(text) ==> (message matches Ok(published) && {
            &&& published.topic@ == mqtt.topic_root() + "/"@ + topic@
            &&& published.payload@ == text@
            &&& published.qos is AtMostOnce
            &&& !published.retain
        }),
        payload matches Err(error) ==> message == Err::<MqttMessage, E>(error),
{
}

/// A subscription is to the whole topic, under the device's root and a slash.
pub proof fn law_subscriptions_stand_under_the_root(
    mqtt: Mqtt,
    topic: &str,
    subscription: Subscription,
)
    requires
        call_ensures(Mqtt::subscribe, (&mqtt, topic), subscription),
    ensures
        subscription.topic@ == mqtt.topic_root() + "/"@ + topic@,
        subscription.qos is AtMostOnce,
{
}

/// An answer is published whole, under the prefix at its path, and nothing else is.
pub proof fn law_responses_are_published_whole<E>(
    prefix: &str,
    result: Result<IncomingMessageResponse, E>,
    reaction: Reaction,
)
    requires
        call_ensures(respond::<E>, (prefix, result), reaction),
    ensures
        result matches Ok(Some(response)) ==> (reaction matches Reaction::Publish(message) && {
            &&& message.topic@ == prefix@ + response.0@
            &&& message.payload@ == response.1@
            &&& message.qos is AtMostOnce
            &&& !message.retain
        }),
        !(result matches Ok(Some(_))) ==> reaction is Ignore,
{
}

/// A message is delivered exactly if its topic starts with the prefix and its data is text:
/// at the rest of its topic, and with the text whose encoding the data is.
pub proof fn law_messages_are_delivered_whole(
    prefix: &str,
    event: EventPayload,
    delivered: Option<(&str, &str)>,
)
    requires
        call_ensures(deliver, (prefix, &event), delivered),
    ensures
        delivered matches Some((path, text)) ==> (event matches EventPayload::Received {
            topic: Some(topic),
            data,
        } && topic@ == prefix@ + path@ && data@ == vstd::utf8::encode_utf8(text@)),
        delivered is None ==> (event matches EventPayload::Received { topic: Some(topic), data }
            ==> !(topic@.len() >= prefix@.len() && topic@.take(prefix@.len() as int) == prefix@
            && vstd::utf8::valid_utf8(data@))),
{
    if let EventPayload::Received { topic: Some(topic), data } = event {
        let (path, text) = match delivered {
            Some((path, text)) => (path@, text@),
            None => (Seq::empty(), Seq::empty()),
        };
        law_delivery_is_exact(prefix@, topic, data, path, text);
    }
}

/// A connection is signalled, whether its session is new or not, and nothing but a connection
/// is. What is no message, has no topic, or is not under the prefix is ignored.
pub proof fn law_only_connections_are_signalled<
    E,
    F: Fn(&str, &str) -> Result<IncomingMessageResponse, E>,
>(prefix: &str, event: EventPayload, handler: F, reaction: Reaction)
    requires
        call_ensures(handle_mqtt_event::<E, F>, (prefix, &event, &handler), reaction),
    ensures
        reaction is SignalConnected <==> event is Connected,
        event is Disconnected || event is Other ==> reaction is Ignore,
        event matches EventPayload::Received { topic: None, .. } ==> reaction is Ignore,
        event matches EventPayload::Received { topic: Some(topic), data } ==> !(topic@.len()
            >= prefix@.len() && topic@.take(prefix@.len() as int) == prefix@
            && vstd::utf8::valid_utf8(data@)) ==> reaction is Ignore,
{
    if let EventPayload::Received { topic: Some(topic), data } = event {
        law_delivery_is_exact(prefix@, topic, data, Seq::empty(), Seq::empty());
    }
}

/// A message under the prefix whose data is text is given to the handler, at the rest of its
/// topic and with its whole text, and what the handler answers is published whole.
pub proof fn law_messages_are_handled_whole<
    E,
    F: Fn(&str, &str) -> Result<IncomingMessageResponse, E>,
>(
    prefix: &str,
    path: Seq<char>,
    text: Seq<char>,
    event: EventPayload,
    handler: F,
    reaction: Reaction,
)
    requires
        event matches EventPayload::Received { topic: Some(topic), data } && topic@ == prefix@ + path
            && data@ == vstd::utf8::encode_utf8(text),
        call_ensures(handle_mqtt_event::<E, F>, (prefix, &event, &handler), reaction),
    ensures
        exists|p: &str, d: &str, result: Result<IncomingMessageResponse, E>|
            {
                &&& p@ == path
                &&& d@ == text
                &&& #[trigger] call_ensures(handler, (p, d), result)
                &&& result matches Ok(Some(response)) ==> (reaction matches Reaction::Publish(
                    message,
                ) && message.topic@ == prefix@ + response.0@ && message.payload@ == response.1@)
                &&& !(result matches Ok(Some(_))) ==> reaction is Ignore
            },
{
    if let EventPayload::Received { topic: Some(topic), data } = event {
        law_delivery_is_exact(prefix@, topic, data, path, text);
    }
}

} // verus!
