//! From a received message to the notification it calls for.
//!
//! A message is passed over when it is a retained one and the configuration
//! says to ignore those, or when its payload is not UTF-8. Every other
//! message gets one notification, whose body the rule matcher decides.

use vstd::prelude::*;
use vstd::utf8::*;
use crate::config::{Config, ConfigView};
use crate::rules::{decide, decision};
use crate::text::utf8_text;

verus! {

/// A message as the broker delivered it.
#[derive(Debug, PartialEq, Eq)]
pub struct InboundMessage {
    /// The topic the message was published on.
    pub topic: String,
    /// The payload, as it came.
    pub payload: Vec<u8>,
    /// Whether the broker kept the message from before the subscription.
    pub retained: bool,
}

/// What an [`InboundMessage`] is, as characters and bytes.
pub struct InboundMessageView {
    pub topic: Seq<char>,
    pub payload: Seq<u8>,
    pub retained: bool,
}

impl View for InboundMessage {
    type V = InboundMessageView;

    open spec fn view(&self) -> InboundMessageView {
        InboundMessageView { topic: self.topic@, payload: self.payload@, retained: self.retained }
    }
}

/// A request to show a notification.
#[derive(Debug, PartialEq, Eq)]
pub struct Notification {
    /// The headline.
    pub summary: String,
    /// The text below the headline.
    pub body: String,
    /// How long the notification stays, in milliseconds.
    pub timeout_millis: u32,
}

/// What a [`Notification`] is, as characters and a number.
pub struct NotificationView {
    pub summary: Seq<char>,
    pub body: Seq<char>,
    pub timeout_millis: u32,
}

impl View for Notification {
    type V = NotificationView;

    open spec fn view(&self) -> NotificationView {
        NotificationView {
            summary: self.summary@,
            body: self.body@,
            timeout_millis: self.timeout_millis,
        }
    }
}

/// What an optional [`Notification`] is.
pub open spec fn optional_notification(request: Option<Notification>) -> Option<NotificationView> {
    match request {
        Some(notification) => Some(notification@),
        None => None,
    }
}

/// The headline of the notification for a message.
pub open spec fn message_summary() -> Seq<char> {
    "MQTT Notification"@
}

/// The headline of the notification shown once the bridge is up.
pub open spec fn startup_summary() -> Seq<char> {
    "Startup"@
}

/// Whether a message is passed over without a notification.
pub open spec fn is_dropped(config: ConfigView, message: InboundMessageView) -> bool {
    (message.retained && config.ignore_retained) || !valid_utf8(message.payload)
}

/// The notification that a message calls for, if any.
pub open spec fn message_notification(
    config: ConfigView,
    message: InboundMessageView,
) -> Option<NotificationView> {
    if is_dropped(config, message) {
        None
    } else {
        Some(
            NotificationView {
                summary: message_summary(),
                body: decision(config.mappings, message.topic, decode_utf8(message.payload)),
                timeout_millis: config.message_timeout_millis as u32,
            },
        )
    }
}

/// The notification shown once the bridge is up, if the configuration asks
/// for one.
pub open spec fn startup_notification_of(config: ConfigView) -> Option<NotificationView> {
    match config.notify_on_startup {
        Some(text) => Some(
            NotificationView {
                summary: startup_summary(),
                body: text,
                timeout_millis: config.message_timeout_millis as u32,
            },
        ),
        None => None,
    }
}

/// With retained messages ignored, a retained message gets no notification;
/// with them not ignored, it gets what the same message would get had it not
/// been retained.
pub proof fn lemma_retained_messages(config: ConfigView, message: InboundMessageView)
    requires
        message.retained,
    ensures
        config.ignore_retained ==> message_notification(config, message) is None,
        !config.ignore_retained ==> message_notification(config, message) == message_notification(
            config,
            InboundMessageView { retained: false, ..message },
        ),
{
}

/// A payload that is not UTF-8 gets no notification.
pub proof fn lemma_invalid_payload_is_dropped(config: ConfigView, message: InboundMessageView)
    requires
        !valid_utf8(message.payload),
    ensures
        message_notification(config, message) is None,
{
}

/// The notification that `message` calls for under `config`, if any.
pub fn notification_for(config: &Config, message: InboundMessage) -> (request: Option<Notification>)
    ensures
        optional_notification(request) == message_notification(config@, message@),
        request is None <==> is_dropped(config@, message@),
{
    if message.retained && config.ignore_retained {
        return None;
    }
    let InboundMessage { topic, payload, .. } = message;
    match utf8_text(payload) {
        Some(text) => {
            let body = decide(config, topic.as_str(), text.as_str());
            Some(
                Notification {
                    summary: String::from_str("MQTT Notification"),
                    body,
                    timeout_millis: config.message_timeout_millis as u32,
                },
            )
        },
        None => None,
    }
}

/// The notification shown once the bridge is up, if `config` asks for one.
pub fn startup_notification(config: &Config) -> (request: Option<Notification>)
    ensures
        optional_notification(request) == startup_notification_of(config@),
{
    match &config.notify_on_startup {
        Some(text) => Some(
            Notification {
                summary: String::from_str("Startup"),
                body: text.clone(),
                timeout_millis: config.message_timeout_millis as u32,
            },
        ),
        None => None,
    }
}

} // verus!
