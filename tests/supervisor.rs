use auto_screen_switch::backoff::BackoffPolicy;
use auto_screen_switch::config::{load_config, ConfigError};
use auto_screen_switch::decoder::{Command, InboundCommand};
use auto_screen_switch::session::{PollResult, KEEP_ALIVE_SECS, MAX_PACKET_SIZE, POLL_TIMEOUT_MS};
use auto_screen_switch::supervisor::{
    ConnectionState, Effect, Event, Failure, HostCommand, Next, SessionError, StatusEvent, Step,
    Supervisor,
};
use auto_screen_switch::{ActuationGate, ScreenState};

const LOCAL_CONFIG: &str = "broker_ip = \"localhost\"\nbroker_port = 1883\n";

fn start_and_connect(sup: &mut Supervisor) -> Vec<Effect> {
    let r = sup.step(Event::Command(HostCommand::Start), 0);
    assert!(r.effects.is_empty());
    assert!(matches!(r.next, Next::LoadConfig));
    assert_eq!(sup.state(), ConnectionState::Connecting);
    let r = sup.step(Event::ConfigLoaded(load_config(LOCAL_CONFIG)), 10);
    match r.next {
        Next::Open(params) => {
            assert_eq!(params.config.broker_address(), "localhost");
            assert_eq!(params.config.broker_port(), 1883);
            assert_eq!(params.keep_alive_secs, KEEP_ALIVE_SECS);
            assert!(params.clean_session);
            assert_eq!(params.max_packet_size, MAX_PACKET_SIZE);
        }
        other => panic!("unexpected {:?}", other),
    }
    let r = sup.step(Event::Opened(Ok(())), 20);
    assert_eq!(sup.state(), ConnectionState::Connected);
    assert!(matches!(r.next, Next::Poll(POLL_TIMEOUT_MS)));
    r.effects
}

fn message(sup: &mut Supervisor, payload: &[u8], now: u64) -> Step {
    let r = sup.step(Event::Polled(PollResult::Message(payload.to_vec())), now);
    assert!(matches!(r.next, Next::Poll(POLL_TIMEOUT_MS)));
    r
}

#[test]
fn end_to_end_on_then_repeat_then_stop() {
    let mut sup = Supervisor::with_gate(BackoffPolicy::exponential(), ActuationGate::with_state(false));
    let effects = start_and_connect(&mut sup);
    assert!(matches!(effects.as_slice(), [Effect::Status(StatusEvent::Started)]));

    let r = message(&mut sup, br#"{"action":"on"}"#, 30);
    assert!(matches!(r.effects.as_slice(), [Effect::SetDisplayPower(true)]));
    assert_eq!(sup.display_state(), ScreenState::On);

    let r = message(&mut sup, br#"{"action":"on","params":{"source":"hall"}}"#, 40);
    assert!(r.effects.is_empty());
    let received = r.received.expect("a decoded message");
    assert!(matches!(received.command, Command::SetPower(true)));
    assert_eq!(received.source.as_deref(), Some("hall"));
    assert_eq!(sup.display_state(), ScreenState::On);

    let r = sup.step(Event::Command(HostCommand::Stop), 50);
    assert!(matches!(
        r.effects.as_slice(),
        [Effect::CloseSession, Effect::Status(StatusEvent::Stopped)]
    ));
    assert!(matches!(r.next, Next::WaitCommand));
    assert_eq!(sup.state(), ConnectionState::Disconnected);
    assert_eq!(sup.stats().total_uptime_ms, 40);
}

#[test]
fn end_to_end_with_default_gate_on_is_already_on() {
    let mut sup = Supervisor::new(BackoffPolicy::exponential());
    start_and_connect(&mut sup);
    let r = message(&mut sup, br#"{"action":"on"}"#, 30);
    assert!(r.effects.is_empty());
    let r = message(&mut sup, b"off", 31);
    assert!(matches!(r.effects.as_slice(), [Effect::SetDisplayPower(false)]));
    let r = message(&mut sup, b"garbage", 32);
    assert!(r.effects.is_empty());
    match r.received {
        Some(InboundCommand { command: Command::Unknown(raw), source: None }) => assert_eq!(raw, b"garbage".to_vec()),
        other => panic!("unexpected {:?}", other),
    }
    assert_eq!(sup.display_state(), ScreenState::Off);
}

#[test]
fn subscribe_failures_back_off_then_give_up() {
    let mut sup = Supervisor::new(BackoffPolicy::exponential());
    let r = sup.step(Event::Command(HostCommand::Start), 0);
    assert!(matches!(r.next, Next::LoadConfig));
    let mut delays = Vec::new();
    let mut now = 0;
    for attempt in 1..=10u32 {
        let r = sup.step(Event::ConfigLoaded(load_config(LOCAL_CONFIG)), now);
        assert!(matches!(r.next, Next::Open(_)));
        let r = sup.step(Event::Opened(Err("subscribe refused".to_string())), now);
        assert!(matches!(r.effects.first(), None | Some(Effect::Status(StatusEvent::Error(_)))));
        assert_eq!(sup.retries(), attempt);
        match r.next {
            Next::Sleep(ms) => {
                assert!(attempt < 10);
                assert!(r.effects.is_empty());
                assert_eq!(sup.state(), ConnectionState::Reconnecting);
                delays.push(ms / 1000);
                now += ms;
                let r = sup.step(Event::BackoffElapsed, now);
                assert!(matches!(r.next, Next::LoadConfig));
                assert_eq!(sup.state(), ConnectionState::Connecting);
            }
            Next::WaitCommand => {
                assert_eq!(attempt, 10);
                assert_eq!(sup.state(), ConnectionState::Disconnected);
                match r.effects.as_slice() {
                    [Effect::Status(StatusEvent::Error(Failure::RetriesExhausted {
                        attempts,
                        last_error: SessionError::OpenFailed(msg),
                    })), Effect::Status(StatusEvent::Stopped)] => {
                        assert_eq!(*attempts, 10);
                        assert_eq!(msg, "subscribe refused");
                    }
                    other => panic!("unexpected {:?}", other),
                }
            }
            other => panic!("unexpected {:?}", other),
        }
    }
    assert_eq!(delays, vec![1, 2, 4, 8, 16, 32, 60, 60, 60]);
    assert_eq!(sup.stats().failed_connections, 10);
    assert_eq!(sup.stats().total_connections, 10);
    let r = sup.step(Event::BackoffElapsed, now);
    assert!(matches!(r.next, Next::Resume));
    assert_eq!(sup.state(), ConnectionState::Disconnected);
    let r = sup.step(Event::Command(HostCommand::Start), now);
    assert!(matches!(r.next, Next::LoadConfig));
    assert_eq!(sup.retries(), 0);
}

#[test]
fn config_error_reports_and_goes_idle() {
    let mut sup = Supervisor::new(BackoffPolicy::exponential());
    sup.step(Event::Command(HostCommand::Start), 0);
    let r = sup.step(Event::ConfigLoaded(load_config("broker_ip = \"\"\nbroker_port = 1883")), 1);
    assert!(matches!(
        r.effects.as_slice(),
        [Effect::Status(StatusEvent::Error(Failure::Config(ConfigError::EmptyAddress))), Effect::Status(StatusEvent::Stopped)]
    ));
    assert!(matches!(r.next, Next::WaitCommand));
    assert_eq!(sup.state(), ConnectionState::Disconnected);
    assert_eq!(sup.stats().total_connections, 0);
}

#[test]
fn missing_config_resource_is_recoverable() {
    let mut sup = Supervisor::new(BackoffPolicy::exponential());
    sup.step(Event::Command(HostCommand::Start), 0);
    let r = sup.step(Event::ConfigLoaded(Err(ConfigError::Unavailable("not found".to_string()))), 1);
    assert!(matches!(
        r.effects.as_slice(),
        [Effect::Status(StatusEvent::Error(Failure::Config(ConfigError::Unavailable(_)))), Effect::Status(StatusEvent::Stopped)]
    ));
    assert_eq!(sup.state(), ConnectionState::Disconnected);
    let r = sup.step(Event::Command(HostCommand::Start), 2);
    assert!(matches!(r.next, Next::LoadConfig));
}

#[test]
fn transport_error_reconnects_after_delay() {
    let mut sup = Supervisor::new(BackoffPolicy::exponential());
    start_and_connect(&mut sup);
    let r = sup.step(Event::Polled(PollResult::TransportError("reset".to_string())), 1_020);
    assert!(matches!(r.effects.as_slice(), [Effect::CloseSession]));
    assert!(matches!(r.next, Next::Sleep(1000)));
    assert_eq!(sup.state(), ConnectionState::Reconnecting);
    assert_eq!(sup.retries(), 1);
    assert_eq!(sup.stats().total_uptime_ms, 1_010);
    let r = sup.step(Event::BackoffElapsed, 2_020);
    assert!(matches!(r.next, Next::LoadConfig));
    sup.step(Event::ConfigLoaded(load_config(LOCAL_CONFIG)), 2_030);
    let r = sup.step(Event::Opened(Ok(())), 2_040);
    assert!(matches!(r.effects.as_slice(), [Effect::Status(StatusEvent::Started)]));
    assert_eq!(sup.retries(), 0);
}

#[test]
fn broker_disconnect_counts_as_failure() {
    let mut sup = Supervisor::new(BackoffPolicy::fixed(3000));
    start_and_connect(&mut sup);
    let r = sup.step(Event::Polled(PollResult::Disconnected), 100);
    assert!(matches!(r.effects.as_slice(), [Effect::CloseSession]));
    assert!(matches!(r.next, Next::Sleep(3000)));
    assert_eq!(sup.retries(), 1);
}

#[test]
fn idle_poll_keeps_polling() {
    let mut sup = Supervisor::new(BackoffPolicy::exponential());
    start_and_connect(&mut sup);
    let r = sup.step(Event::Polled(PollResult::Idle), 30);
    assert!(r.effects.is_empty());
    assert!(r.received.is_none());
    assert!(matches!(r.next, Next::Poll(500)));
    assert_eq!(sup.state(), ConnectionState::Connected);
}

#[test]
fn start_while_running_is_ignored() {
    let mut sup = Supervisor::new(BackoffPolicy::exponential());
    start_and_connect(&mut sup);
    let r = sup.step(Event::Command(HostCommand::Start), 30);
    assert!(r.effects.is_empty());
    assert!(matches!(r.next, Next::Resume));
    assert_eq!(sup.state(), ConnectionState::Connected);
}

#[test]
fn stop_while_reconnecting_goes_idle() {
    let mut sup = Supervisor::new(BackoffPolicy::exponential());
    sup.step(Event::Command(HostCommand::Start), 0);
    sup.step(Event::ConfigLoaded(load_config(LOCAL_CONFIG)), 0);
    sup.step(Event::Opened(Err("refused".to_string())), 0);
    assert_eq!(sup.state(), ConnectionState::Reconnecting);
    let r = sup.step(Event::Command(HostCommand::Stop), 1);
    assert!(matches!(r.effects.as_slice(), [Effect::Status(StatusEvent::Stopped)]));
    assert!(matches!(r.next, Next::WaitCommand));
    assert_eq!(sup.state(), ConnectionState::Disconnected);
    let r = sup.step(Event::BackoffElapsed, 2);
    assert!(matches!(r.next, Next::Resume));
}

#[test]
fn stop_while_idle_reports_stopped() {
    let mut sup = Supervisor::new(BackoffPolicy::exponential());
    let r = sup.step(Event::Command(HostCommand::Stop), 0);
    assert!(matches!(r.effects.as_slice(), [Effect::Status(StatusEvent::Stopped)]));
    assert!(matches!(r.next, Next::WaitCommand));
}

#[test]
fn closed_command_channel_exits() {
    let mut sup = Supervisor::new(BackoffPolicy::exponential());
    start_and_connect(&mut sup);
    let r = sup.step(Event::CommandsClosed, 30);
    assert!(matches!(
        r.effects.as_slice(),
        [Effect::CloseSession, Effect::Status(StatusEvent::Stopped)]
    ));
    assert!(matches!(r.next, Next::Exit));
    assert_eq!(sup.state(), ConnectionState::Disconnected);
}

#[test]
fn stale_events_are_ignored() {
    let mut sup = Supervisor::new(BackoffPolicy::exponential());
    let r = sup.step(Event::Polled(PollResult::Message(b"off".to_vec())), 0);
    assert!(r.effects.is_empty());
    assert!(matches!(r.next, Next::Resume));
    let r = sup.step(Event::Opened(Ok(())), 0);
    assert!(r.effects.is_empty());
    let r = sup.step(Event::ConfigLoaded(load_config(LOCAL_CONFIG)), 0);
    assert!(r.effects.is_empty());
    assert_eq!(sup.state(), ConnectionState::Disconnected);
    assert_eq!(sup.display_state(), ScreenState::On);
}
