//! The configuration the bridge runs on, and the questions asked of it.

use vstd::prelude::*;

verus! {

/// One rule: a comparison with a fixed value, and the text to show when it
/// holds.
#[derive(Debug, PartialEq, Eq)]
pub enum Action {
    /// Applies when the message text equals `value`.
    OnValueEqSay { value: String, say: String },
    /// Applies when the message text differs from `value`.
    OnValueNeSay { value: String, say: String },
}

/// What an [`Action`] is, as characters.
pub enum ActionView {
    OnValueEqSay { value: Seq<char>, say: Seq<char> },
    OnValueNeSay { value: Seq<char>, say: Seq<char> },
}

impl ActionView {
    /// Whether the rule applies to a message whose text is `text`.
    pub open spec fn is_applicable(self, text: Seq<char>) -> bool {
        match self {
            ActionView::OnValueEqSay { value, .. } => value == text,
            ActionView::OnValueNeSay { value, .. } => value != text,
        }
    }

    /// The text the rule answers with.
    pub open spec fn say(self) -> Seq<char> {
        match self {
            ActionView::OnValueEqSay { say, .. } => say,
            ActionView::OnValueNeSay { say, .. } => say,
        }
    }
}

impl View for Action {
    type V = ActionView;

    open spec fn view(&self) -> ActionView {
        match self {
            Action::OnValueEqSay { value, say } => ActionView::OnValueEqSay {
                value: value@,
                say: say@,
            },
            Action::OnValueNeSay { value, say } => ActionView::OnValueNeSay {
                value: value@,
                say: say@,
            },
        }
    }
}

impl Action {
    /// Whether this rule applies to `message_text`. The comparison is exact
    /// and case-sensitive.
    pub fn is_applicable(&self, message_text: &str) -> (applies: bool)
        ensures
            applies == self@.is_applicable(message_text@),
    {
        match self {
            Action::OnValueEqSay { value, .. } => *value.as_str() == *message_text,
            Action::OnValueNeSay { value, .. } => !(*value.as_str() == *message_text),
        }
    }

    /// The text this rule answers with.
    pub fn say(&self) -> (text: &str)
        ensures
            text@ == self@.say(),
    {
        match self {
            Action::OnValueEqSay { say, .. } => say.as_str(),
            Action::OnValueNeSay { say, .. } => say.as_str(),
        }
    }
}

/// The rules for one topic.
#[derive(Debug, PartialEq, Eq)]
pub struct Mapping {
    /// The topic the rules are for, compared exactly with a message's topic.
    pub topic: String,
    /// The rules, in the order in which they are tried.
    pub actions: Vec<Action>,
}

/// What a [`Mapping`] is: its topic and its rules in order.
pub struct MappingView {
    pub topic: Seq<char>,
    pub actions: Seq<ActionView>,
}

impl View for Mapping {
    type V = MappingView;

    open spec fn view(&self) -> MappingView {
        MappingView { topic: self.topic@, actions: self.actions@.map_values(|a: Action| a@) }
    }
}

impl Mapping {
    /// A mapping with the given rules, tried in the order given.
    pub fn new(topic: String, actions: Vec<Action>) -> (mapping: Mapping)
        ensures
            mapping.topic == topic,
            mapping.actions == actions,
    {
        Mapping { topic, actions }
    }

    /// A mapping from either way of writing one down: with a single rule, or
    /// with a list of rules. The single rule becomes the list of that rule.
    /// Where both or neither are given there is no mapping.
    pub fn from_either(topic: String, action: Option<Action>, actions: Option<Vec<Action>>) -> (mapping:
        Option<Mapping>)
        ensures
            mapping is Some <==> (action is Some != actions is Some),
            mapping matches Some(m) ==> m.topic == topic && (match (action, actions) {
                (Some(single), _) => m.actions@ == seq![single],
                (None, Some(list)) => m.actions == list,
                (None, None) => false,
            }),
    {
        match (action, actions) {
            (Some(single), None) => Some(Mapping::with_single_action(topic, single)),
            (None, Some(list)) => Some(Mapping::new(topic, list)),
            _ => None,
        }
    }

    /// A mapping with one rule: the form with a list of rules, holding just
    /// `action`.
    pub fn with_single_action(topic: String, action: Action) -> (mapping: Mapping)
        ensures
            mapping.topic == topic,
            mapping.actions@ == seq![action],
            mapping@ == (MappingView { topic: topic@, actions: seq![action@] }),
    {
        let mut actions: Vec<Action> = Vec::new();
        actions.push(action);
        let mapping = Mapping { topic, actions };
        assert(mapping@.actions =~= seq![action@]);
        mapping
    }
}

/// Everything the bridge is told: where the broker is, how to behave, and the
/// rules per topic.
#[derive(Debug, PartialEq, Eq)]
pub struct Config {
    /// Host name or address of the broker.
    pub mqtt_broker_uri: String,
    /// Port of the broker.
    pub mqtt_broker_port: u16,
    /// Keep-alive interval of the session, in seconds.
    pub session_expiry_interval: u16,
    /// User name to log in with; goes together with `mqtt_password`.
    pub mqtt_username: Option<String>,
    /// Password to log in with; goes together with `mqtt_username`.
    pub mqtt_password: Option<String>,
    /// Text of the notification shown once the bridge is up, if any.
    pub notify_on_startup: Option<String>,
    /// Whether messages that the broker kept from before the subscription
    /// are passed over.
    pub ignore_retained: bool,
    /// How long a notification stays, in milliseconds.
    pub message_timeout_millis: u16,
    /// The rules per topic, in the order in which they are consulted.
    pub mappings: Vec<Mapping>,
}

/// What a [`Config`] is, as numbers and characters.
pub struct ConfigView {
    pub mqtt_broker_uri: Seq<char>,
    pub mqtt_broker_port: u16,
    pub session_expiry_interval: u16,
    pub mqtt_username: Option<Seq<char>>,
    pub mqtt_password: Option<Seq<char>>,
    pub notify_on_startup: Option<Seq<char>>,
    pub ignore_retained: bool,
    pub message_timeout_millis: u16,
    pub mappings: Seq<MappingView>,
}

/// The characters of an optional text.
pub open spec fn optional_text(text: Option<String>) -> Option<Seq<char>> {
    match text {
        Some(t) => Some(t@),
        None => None,
    }
}

impl View for Config {
    type V = ConfigView;

    open spec fn view(&self) -> ConfigView {
        ConfigView {
            mqtt_broker_uri: self.mqtt_broker_uri@,
            mqtt_broker_port: self.mqtt_broker_port,
            session_expiry_interval: self.session_expiry_interval,
            mqtt_username: optional_text(self.mqtt_username),
            mqtt_password: optional_text(self.mqtt_password),
            notify_on_startup: optional_text(self.notify_on_startup),
            ignore_retained: self.ignore_retained,
            message_timeout_millis: self.message_timeout_millis,
            mappings: self.mappings@.map_values(|m: Mapping| m@),
        }
    }
}

impl ConfigView {
    /// Credentials come as a pair: a user name and a password, or neither.
    pub open spec fn well_formed(self) -> bool {
        self.mqtt_username is Some <==> self.mqtt_password is Some
    }
}

impl Config {
    /// Whether the credentials come as a pair, as a valid configuration has
    /// them.
    pub fn is_well_formed(&self) -> (ok: bool)
        ensures
            ok == self@.well_formed(),
    {
        self.mqtt_username.is_some() == self.mqtt_password.is_some()
    }
}

} // verus!
