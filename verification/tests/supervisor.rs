use notify_via_mqtt::config::{Action, Config, Mapping};
use notify_via_mqtt::pipeline::{InboundMessage, Notification};
use notify_via_mqtt::supervisor::{
    Directive, Event, ExitReason, Next, Phase, PollError, PollFault, Supervisor, BACKOFF_SECONDS,
    RESTART_CEILING,
};

fn bridge_config(notify_on_startup: Option<&str>) -> Config {
    Config {
        mqtt_broker_uri: "localhost".to_string(),
        mqtt_broker_port: 1883,
        session_expiry_interval: 30,
        mqtt_username: None,
        mqtt_password: None,
        notify_on_startup: notify_on_startup.map(|text| text.to_string()),
        ignore_retained: true,
        message_timeout_millis: 4000,
        mappings: vec![Mapping::new(
            "sensor/door".to_string(),
            vec![Action::OnValueEqSay {
                value: "open".to_string(),
                say: "Door opened!".to_string(),
            }],
        )],
    }
}

fn publish(topic: &str, payload: &[u8], retained: bool) -> Event {
    Event::Message(InboundMessage { topic: topic.to_string(), payload: payload.to_vec(), retained })
}

fn just(next: Next) -> Directive {
    Directive { notification: None, next }
}

fn connected(config: &Config) -> Supervisor {
    let mut supervisor = Supervisor::new();
    supervisor.step(config, Event::ConnectSucceeded);
    assert_eq!(supervisor.phase(), Phase::Connected);
    supervisor
}

fn restart(supervisor: &mut Supervisor, config: &Config) {
    assert_eq!(
        supervisor.step(config, Event::PollFailed(PollFault::NetworkTimeout)),
        just(Next::Sleep { seconds: 60 })
    );
    assert_eq!(supervisor.phase(), Phase::Reconnecting);
    assert_eq!(supervisor.step(config, Event::BackoffElapsed), just(Next::Connect));
    assert_eq!(supervisor.phase(), Phase::Connecting);
    assert_eq!(supervisor.step(config, Event::ConnectSucceeded), just(Next::Poll));
    assert_eq!(supervisor.phase(), Phase::Connected);
}

#[test]
fn policy_constants() {
    assert_eq!(RESTART_CEILING, 10);
    assert_eq!(BACKOFF_SECONDS, 60);
}

#[test]
fn only_a_network_timeout_is_transient() {
    assert_eq!(PollFault::NetworkTimeout.classify(), PollError::Transient);
    assert_eq!(PollFault::MqttState.classify(), PollError::Fatal);
    assert_eq!(PollFault::FlushTimeout.classify(), PollError::Fatal);
    assert_eq!(PollFault::Io.classify(), PollError::Fatal);
    assert_eq!(PollFault::ConnectionRefused.classify(), PollError::Fatal);
    assert_eq!(PollFault::NotConnAck.classify(), PollError::Fatal);
    assert_eq!(PollFault::RequestsDone.classify(), PollError::Fatal);
}

#[test]
fn a_new_supervisor_asks_to_connect() {
    let supervisor = Supervisor::new();
    assert_eq!(supervisor.phase(), Phase::Connecting);
    assert_eq!(supervisor.restart_count(), 0);
    assert_eq!(supervisor.awaited(), Next::Connect);
    assert!(!supervisor.startup_announced());
}

#[test]
fn first_connect_announces_startup() {
    let config = bridge_config(Some("Bridge is up"));
    let mut supervisor = Supervisor::new();
    let directive = supervisor.step(&config, Event::ConnectSucceeded);
    assert_eq!(
        directive,
        Directive {
            notification: Some(Notification {
                summary: "Startup".to_string(),
                body: "Bridge is up".to_string(),
                timeout_millis: 4000,
            }),
            next: Next::Poll,
        }
    );
    assert_eq!(supervisor.phase(), Phase::Connected);
}

#[test]
fn first_connect_without_startup_text_is_silent() {
    let config = bridge_config(None);
    let mut supervisor = Supervisor::new();
    assert_eq!(supervisor.step(&config, Event::ConnectSucceeded), just(Next::Poll));
}

#[test]
fn reconnect_does_not_announce_startup_again() {
    let config = bridge_config(Some("Bridge is up"));
    let mut supervisor = connected(&config);
    assert!(supervisor.startup_announced());
    restart(&mut supervisor, &config);
    restart(&mut supervisor, &config);
    assert_eq!(supervisor.restart_count(), 2);
    assert!(supervisor.startup_announced());
}

#[test]
fn connect_failure_ends_the_run() {
    let config = bridge_config(None);
    let mut supervisor = Supervisor::new();
    assert_eq!(
        supervisor.step(&config, Event::ConnectFailed),
        just(Next::Exit(ExitReason::ConnectFailed))
    );
    assert_eq!(supervisor.phase(), Phase::Terminated(ExitReason::ConnectFailed));
}

#[test]
fn subscribe_failure_ends_the_run() {
    let config = bridge_config(None);
    let mut supervisor = Supervisor::new();
    assert_eq!(
        supervisor.step(&config, Event::SubscribeFailed),
        just(Next::Exit(ExitReason::SubscribeFailed))
    );
    assert_eq!(supervisor.phase(), Phase::Terminated(ExitReason::SubscribeFailed));
}

#[test]
fn failure_to_reconnect_ends_the_run() {
    let config = bridge_config(None);
    let mut supervisor = connected(&config);
    supervisor.step(&config, Event::PollFailed(PollFault::NetworkTimeout));
    supervisor.step(&config, Event::BackoffElapsed);
    assert_eq!(
        supervisor.step(&config, Event::ConnectFailed),
        just(Next::Exit(ExitReason::ConnectFailed))
    );
    assert_eq!(supervisor.restart_count(), 1);
}

#[test]
fn message_while_connected_is_notified() {
    let config = bridge_config(None);
    let mut supervisor = connected(&config);
    assert_eq!(
        supervisor.step(&config, publish("sensor/door", b"open", false)),
        Directive {
            notification: Some(Notification {
                summary: "MQTT Notification".to_string(),
                body: "Door opened!".to_string(),
                timeout_millis: 4000,
            }),
            next: Next::Poll,
        }
    );
    assert_eq!(
        supervisor.step(&config, publish("sensor/door", b"closed", false)),
        Directive {
            notification: Some(Notification {
                summary: "MQTT Notification".to_string(),
                body: "Received message: closed".to_string(),
                timeout_millis: 4000,
            }),
            next: Next::Poll,
        }
    );
    assert_eq!(supervisor.phase(), Phase::Connected);
}

#[test]
fn dropped_messages_keep_the_loop_polling() {
    let config = bridge_config(None);
    let mut supervisor = connected(&config);
    assert_eq!(supervisor.step(&config, publish("sensor/door", b"open", true)), just(Next::Poll));
    assert_eq!(
        supervisor.step(&config, publish("sensor/door", &[0xff, 0x00], false)),
        just(Next::Poll)
    );
    assert_eq!(supervisor.step(&config, Event::Other), just(Next::Poll));
    assert_eq!(supervisor.phase(), Phase::Connected);
    assert_eq!(supervisor.restart_count(), 0);
}

#[test]
fn fatal_poll_fault_ends_the_run_at_once() {
    let config = bridge_config(None);
    for fault in [
        PollFault::MqttState,
        PollFault::FlushTimeout,
        PollFault::Io,
        PollFault::ConnectionRefused,
        PollFault::NotConnAck,
        PollFault::RequestsDone,
    ] {
        let mut supervisor = connected(&config);
        assert_eq!(
            supervisor.step(&config, Event::PollFailed(fault)),
            just(Next::Exit(ExitReason::PollFailed(fault)))
        );
        assert_eq!(supervisor.phase(), Phase::Terminated(ExitReason::PollFailed(fault)));
        assert_eq!(supervisor.restart_count(), 0);
    }
}

#[test]
fn run_survives_as_many_transient_faults_as_the_ceiling() {
    let config = bridge_config(None);
    let mut supervisor = connected(&config);
    for round in 1..=10u32 {
        restart(&mut supervisor, &config);
        assert_eq!(supervisor.restart_count(), round);
    }
    assert_eq!(supervisor.phase(), Phase::Connected);
    assert_eq!(supervisor.awaited(), Next::Poll);
}

#[test]
fn transient_fault_after_the_ceiling_ends_the_run() {
    let config = bridge_config(None);
    let mut supervisor = connected(&config);
    for _ in 0..10 {
        restart(&mut supervisor, &config);
    }
    assert_eq!(
        supervisor.step(&config, Event::PollFailed(PollFault::NetworkTimeout)),
        just(Next::Exit(ExitReason::RetryBudgetExceeded))
    );
    assert_eq!(supervisor.phase(), Phase::Terminated(ExitReason::RetryBudgetExceeded));
    assert_eq!(supervisor.restart_count(), 11);
}

#[test]
fn restart_count_is_not_reset_by_traffic() {
    let config = bridge_config(None);
    let mut supervisor = connected(&config);
    for _ in 0..10 {
        restart(&mut supervisor, &config);
        supervisor.step(&config, publish("sensor/door", b"open", false));
        supervisor.step(&config, Event::Other);
    }
    assert_eq!(supervisor.restart_count(), 10);
    assert_eq!(
        supervisor.step(&config, Event::PollFailed(PollFault::NetworkTimeout)).next,
        Next::Exit(ExitReason::RetryBudgetExceeded)
    );
}

#[test]
fn a_run_that_ended_stays_ended() {
    let config = bridge_config(Some("Bridge is up"));
    let mut supervisor = Supervisor::new();
    supervisor.step(&config, Event::ConnectFailed);
    let exit = just(Next::Exit(ExitReason::ConnectFailed));
    assert_eq!(supervisor.step(&config, Event::ConnectSucceeded), exit);
    assert_eq!(supervisor.step(&config, publish("sensor/door", b"open", false)), exit);
    assert_eq!(supervisor.step(&config, Event::PollFailed(PollFault::NetworkTimeout)), exit);
    assert_eq!(supervisor.step(&config, Event::BackoffElapsed), exit);
    assert_eq!(supervisor.phase(), Phase::Terminated(ExitReason::ConnectFailed));
    assert_eq!(supervisor.restart_count(), 0);
}

#[test]
fn events_out_of_turn_are_ignored() {
    let config = bridge_config(Some("Bridge is up"));
    let mut supervisor = Supervisor::new();
    assert_eq!(supervisor.step(&config, publish("sensor/door", b"open", false)), just(Next::Connect));
    assert_eq!(
        supervisor.step(&config, Event::PollFailed(PollFault::NetworkTimeout)),
        just(Next::Connect)
    );
    assert_eq!(supervisor.step(&config, Event::BackoffElapsed), just(Next::Connect));
    assert_eq!(supervisor.phase(), Phase::Connecting);
    assert_eq!(supervisor.restart_count(), 0);

    let mut supervisor = connected(&config);
    assert_eq!(supervisor.step(&config, Event::ConnectSucceeded), just(Next::Poll));
    assert_eq!(supervisor.step(&config, Event::ConnectFailed), just(Next::Poll));
    assert_eq!(supervisor.step(&config, Event::BackoffElapsed), just(Next::Poll));
    assert_eq!(supervisor.phase(), Phase::Connected);

    supervisor.step(&config, Event::PollFailed(PollFault::NetworkTimeout));
    let sleep = just(Next::Sleep { seconds: 60 });
    assert_eq!(supervisor.step(&config, publish("sensor/door", b"open", false)), sleep);
    assert_eq!(supervisor.step(&config, Event::PollFailed(PollFault::NetworkTimeout)), sleep);
    assert_eq!(supervisor.step(&config, Event::ConnectSucceeded), sleep);
    assert_eq!(supervisor.phase(), Phase::Reconnecting);
    assert_eq!(supervisor.restart_count(), 1);
}
