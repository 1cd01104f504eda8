//! What a session with the broker is opened with: the connection parameters
//! and the subscriptions, both read off the configuration.

use vstd::prelude::*;
use crate::config::{Config, ConfigView};

verus! {

/// A user name and the password that goes with it.
#[derive(Debug, PartialEq, Eq)]
pub struct Credentials {
    pub username: String,
    pub password: String,
}

/// What [`Credentials`] are, as characters.
pub struct CredentialsView {
    pub username: Seq<char>,
    pub password: Seq<char>,
}

impl View for Credentials {
    type V = CredentialsView;

    open spec fn view(&self) -> CredentialsView {
        CredentialsView { username: self.username@, password: self.password@ }
    }
}

/// What is needed to open a session.
#[derive(Debug, PartialEq, Eq)]
pub struct ConnectRequest {
    /// The name the client goes by at the broker.
    pub client_id: String,
    /// Host name or address of the broker.
    pub host: String,
    /// Port of the broker.
    pub port: u16,
    /// Keep-alive interval of the session, in seconds.
    pub keep_alive_seconds: u64,
    /// The login, if there is one.
    pub credentials: Option<Credentials>,
}

/// What a [`ConnectRequest`] is, as numbers and characters.
pub struct ConnectRequestView {
    pub client_id: Seq<char>,
    pub host: Seq<char>,
    pub port: u16,
    pub keep_alive_seconds: u64,
    pub credentials: Option<CredentialsView>,
}

impl View for ConnectRequest {
    type V = ConnectRequestView;

    open spec fn view(&self) -> ConnectRequestView {
        ConnectRequestView {
            client_id: self.client_id@,
            host: self.host@,
            port: self.port,
            keep_alive_seconds: self.keep_alive_seconds,
            credentials: match self.credentials {
                Some(credentials) => Some(credentials@),
                None => None,
            },
        }
    }
}

/// How hard the broker tries to deliver a message.
#[derive(Debug, Clone, Copy, PartialEq, Eq, Structural)]
pub enum DeliveryQuality {
    /// Delivered once or not at all.
    AtMostOnce,
    /// Delivered once or more often.
    AtLeastOnce,
    /// Delivered once.
    ExactlyOnce,
}

/// A request to subscribe to one topic.
#[derive(Debug, PartialEq, Eq)]
pub struct Subscription {
    pub topic: String,
    pub quality: DeliveryQuality,
}

/// What a [`Subscription`] is.
pub struct SubscriptionView {
    pub topic: Seq<char>,
    pub quality: DeliveryQuality,
}

impl View for Subscription {
    type V = SubscriptionView;

    open spec fn view(&self) -> SubscriptionView {
        SubscriptionView { topic: self.topic@, quality: self.quality }
    }
}

/// The name the bridge goes by at the broker.
pub open spec fn client_id() -> Seq<char> {
    "notify-via-mqtt"@
}

/// The login that a session is opened with: the user name and the password
/// where the configuration gives both, none otherwise.
pub open spec fn credentials_of(config: ConfigView) -> Option<CredentialsView> {
    match (config.mqtt_username, config.mqtt_password) {
        (Some(username), Some(password)) => Some(CredentialsView { username, password }),
        _ => None,
    }
}

/// What a session is opened with under `config`.
pub open spec fn connect_request_of(config: ConfigView) -> ConnectRequestView {
    ConnectRequestView {
        client_id: client_id(),
        host: config.mqtt_broker_uri,
        port: config.mqtt_broker_port,
        keep_alive_seconds: config.session_expiry_interval as u64,
        credentials: credentials_of(config),
    }
}

/// What a session is opened with under `config`.
pub fn connect_request(config: &Config) -> (request: ConnectRequest)
    ensures
        request@ == connect_request_of(config@),
{
    let credentials = match (&config.mqtt_username, &config.mqtt_password) {
        (Some(username), Some(password)) => Some(
            Credentials { username: username.clone(), password: password.clone() },
        ),
        _ => None,
    };
    ConnectRequest {
        client_id: String::from_str("notify-via-mqtt"),
        host: config.mqtt_broker_uri.clone(),
        port: config.mqtt_broker_port,
        keep_alive_seconds: config.session_expiry_interval as u64,
        credentials,
    }
}

/// The subscriptions of a session under `config`: one per mapping, in the
/// order of the mappings, each for the mapping's topic as it is written and
/// at the quality "at most once".
pub fn subscriptions(config: &Config) -> (requests: Vec<Subscription>)
    ensures
        requests.len() == config@.mappings.len(),
        forall|i: int|
            0 <= i < requests.len() ==> (#[trigger] requests[i])@ == (SubscriptionView {
                topic: config@.mappings[i].topic,
                quality: DeliveryQuality::AtMostOnce,
            }),
{
    let mut requests: Vec<Subscription> = Vec::new();
    let mut i: usize = 0;
    while i < config.mappings.len()
        invariant
            i <= config.mappings.len(),
            requests.len() == i,
            forall|k: int|
                0 <= k < i ==> (#[trigger] requests[k])@ == (SubscriptionView {
                    topic: config@.mappings[k].topic,
                    quality: DeliveryQuality::AtMostOnce,
                }),
        decreases config.mappings.len() - i,
    {
        let topic = config.mappings[i].topic.clone();
        requests.push(Subscription { topic, quality: DeliveryQuality::AtMostOnce });
        i += 1;
    }
    requests
}

} // verus!
