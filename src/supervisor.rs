//! The lifecycle supervisor: the state machine that owns the bus connection.
//!
//! The supervisor decides; its owner acts. Each call of [`Supervisor::step`]
//! takes one event (a host command, or the answer to the operation that the
//! supervisor last asked for) and returns the effects to carry out at once
//! (switch the display, close the session, report a status) together with
//! the one operation to wait on next (load the configuration, open a
//! session, poll it, sleep, or wait for a command). Events that do not answer
//! the operation pending in the current state are ignored.

use crate::backoff::BackoffPolicy;
use crate::config::{Config, ConfigError};
use crate::decoder::{decode, decoded_payload, power_target, Command, CommandModel, InboundCommand};
use crate::screen::{
    get_display_state, screen_state_of, set_display_smart, ActuationGate, ScreenState,
};
use crate::session::{PollResult, SessionParams, KEEP_ALIVE_SECS, MAX_PACKET_SIZE, POLL_TIMEOUT_MS};
use crate::stats::ConnectionStats;
use vstd::prelude::*;

verus! {

/// Where the supervisor stands with the bus.
#[derive(Debug, Clone, Copy, PartialEq, Eq, Structural)]
pub enum ConnectionState {
    /// Idle: waiting for a start command.
    Disconnected,
    /// Loading the configuration or opening a session.
    Connecting,
    /// A session is open and being polled.
    Connected,
    /// Waiting out the delay before the next attempt.
    Reconnecting,
}

/// A command from the host controller.
#[derive(Debug, Clone, Copy, PartialEq, Eq, Structural)]
pub enum HostCommand {
    Start,
    Stop,
}

/// How a session attempt or an open session failed.
#[derive(Debug)]
pub enum SessionError {
    /// Connecting or subscribing failed; the text says how.
    OpenFailed(String),
    /// The open session failed; the text says how.
    Transport(String),
    /// The broker closed the session.
    BrokerDisconnected,
}

/// Why the supervisor went idle on its own.
#[derive(Debug)]
pub enum Failure {
    /// The configuration could not be loaded.
    Config(ConfigError),
    /// The retry budget ran out; `last_error` is the last of `attempts`
    /// consecutive failures.
    RetriesExhausted { attempts: u32, last_error: SessionError },
}

/// A status report to the host controller.
#[derive(Debug)]
pub enum StatusEvent {
    Started,
    Stopped,
    Error(Failure),
}

/// Something for the owner to carry out at once.
#[derive(Debug)]
pub enum Effect {
    /// Switch the display power.
    SetDisplayPower(bool),
    /// Close the open session.
    CloseSession,
    /// Report to the host controller.
    Status(StatusEvent),
}

/// The operation to wait on next, besides host commands.
#[derive(Debug)]
pub enum Next {
    /// Nothing: wait for a host command.
    WaitCommand,
    /// Keep waiting on the operation that was pending before this event.
    Resume,
    /// Load the configuration and answer with `Event::ConfigLoaded`.
    LoadConfig,
    /// Open a session and answer with `Event::Opened`.
    Open(SessionParams),
    /// Poll the session for at most this many milliseconds and answer with
    /// `Event::Polled`.
    Poll(u64),
    /// Sleep this many milliseconds and answer with `Event::BackoffElapsed`.
    Sleep(u64),
    /// The command channel is gone: stop for good.
    Exit,
}

/// Something that happened.
#[derive(Debug)]
pub enum Event {
    /// A command from the host controller.
    Command(HostCommand),
    /// The host controller's command channel closed.
    CommandsClosed,
    /// The configuration, or why it could not be had.
    ConfigLoaded(Result<Config, ConfigError>),
    /// A session was opened (connected and subscribed), or why not.
    Opened(Result<(), String>),
    /// What polling the open session gave.
    Polled(PollResult),
    /// The delay before the next attempt has passed.
    BackoffElapsed,
}

/// What one step asks of the owner.
#[derive(Debug)]
pub struct Step {
    pub effects: Vec<Effect>,
    pub next: Next,
    /// The decoded message, when the event was one; for logging.
    pub received: Option<InboundCommand>,
}

/// Model of the supervisor's state.
pub struct SupervisorModel {
    pub state: ConnectionState,
    /// Consecutive failed attempts since the last start or open session.
    pub retries: u32,
    pub policy: BackoffPolicy,
    /// Whether the display is believed to be on.
    pub display_on: bool,
    pub stats: ConnectionStats,
}

/// Model of one step: the new state, the effects, the next operation and
/// the decoded message, if the event was one.
pub struct Transition {
    pub model: SupervisorModel,
    pub effects: Seq<Effect>,
    pub next: Next,
    pub received: Option<(CommandModel, Option<Seq<char>>)>,
}

/// The state is unchanged and the pending operation goes on.
pub open spec fn ignored(s: SupervisorModel) -> Transition {
    Transition { received: None, model: s, effects: seq![], next: Next::Resume }
}

/// `n + 1`, or `u32::MAX` where that does not fit.
pub open spec fn one_more(n: u32) -> u32 {
    if n == u32::MAX {
        u32::MAX
    } else {
        (n + 1) as u32
    }
}

/// After a failed attempt or a failed session: count the failure, then
/// either wait the policy's delay before the next attempt, or give up,
/// report the failure and go idle. `effects` come first.
pub open spec fn after_failure(s: SupervisorModel, error: SessionError, effects: Seq<Effect>) -> Transition {
    let attempts = one_more(s.retries);
    if s.policy.spec_should_stop(attempts as nat) {
        Transition {
            received: None,
            model: SupervisorModel { state: ConnectionState::Disconnected, retries: attempts, ..s },
            effects: effects + seq![
                Effect::Status(StatusEvent::Error(Failure::RetriesExhausted { attempts, last_error: error })),
                Effect::Status(StatusEvent::Stopped),
            ],
            next: Next::WaitCommand,
        }
    } else {
        Transition {
            received: None,
            model: SupervisorModel { state: ConnectionState::Reconnecting, retries: attempts, ..s },
            effects: effects,
            next: Next::Sleep(s.policy.spec_delay((attempts - 1) as nat) as u64),
        }
    }
}

/// Going idle on the host's behalf: close the session if one is open,
/// report `Stopped`, then `next`.
pub open spec fn stopped(s: SupervisorModel, now: u64, next: Next) -> Transition {
    if s.state == ConnectionState::Connected {
        Transition {
            received: None,
            model: SupervisorModel {
                state: ConnectionState::Disconnected,
                stats: s.stats.spec_disconnected(now),
                ..s
            },
            effects: seq![Effect::CloseSession, Effect::Status(StatusEvent::Stopped)],
            next: next,
        }
    } else {
        Transition {
            received: None,
            model: SupervisorModel { state: ConnectionState::Disconnected, ..s },
            effects: seq![Effect::Status(StatusEvent::Stopped)],
            next: next,
        }
    }
}

/// What a message on the open session does: a power request goes through
/// the actuation filter, which asks for a switch only when the state changes; anything
/// else is dropped. Polling goes on.
pub open spec fn after_message(s: SupervisorModel, payload: Seq<u8>) -> Transition {
    match power_target(decoded_payload(payload).0) {
        Some(on) => Transition {
            received: Some(decoded_payload(payload)),
            model: SupervisorModel { display_on: on, ..s },
            effects: if on != s.display_on {
                seq![Effect::SetDisplayPower(on)]
            } else {
                seq![]
            },
            next: Next::Poll(POLL_TIMEOUT_MS),
        },
        None => Transition {
            received: Some(decoded_payload(payload)),
            model: s,
            effects: seq![],
            next: Next::Poll(POLL_TIMEOUT_MS),
        },
    }
}

/// The supervisor's transition on `e` at time `now`.
pub open spec fn transition(s: SupervisorModel, e: Event, now: u64) -> Transition {
    match e {
        Event::Command(HostCommand::Start) => {
            if s.state == ConnectionState::Disconnected {
                Transition {
                    received: None,
                    model: SupervisorModel { state: ConnectionState::Connecting, retries: 0, ..s },
                    effects: seq![],
                    next: Next::LoadConfig,
                }
            } else {
                ignored(s)
            }
        },
        Event::Command(HostCommand::Stop) => stopped(s, now, Next::WaitCommand),
        Event::CommandsClosed => stopped(s, now, Next::Exit),
        Event::ConfigLoaded(loaded) => {
            if s.state == ConnectionState::Connecting {
                match loaded {
                    Ok(config) => Transition {
                        received: None,
                        model: SupervisorModel { stats: s.stats.spec_started(now), ..s },
                        effects: seq![],
                        next: Next::Open(
                            SessionParams {
                                config,
                                keep_alive_secs: KEEP_ALIVE_SECS,
                                clean_session: true,
                                max_packet_size: MAX_PACKET_SIZE,
                            },
                        ),
                    },
                    Err(error) => Transition {
                        received: None,
                        model: SupervisorModel { state: ConnectionState::Disconnected, ..s },
                        effects: seq![
                            Effect::Status(StatusEvent::Error(Failure::Config(error))),
                            Effect::Status(StatusEvent::Stopped),
                        ],
                        next: Next::WaitCommand,
                    },
                }
            } else {
                ignored(s)
            }
        },
        Event::Opened(outcome) => {
            if s.state == ConnectionState::Connecting {
                match outcome {
                    Ok(_) => Transition {
                        received: None,
                        model: SupervisorModel {
                            state: ConnectionState::Connected,
                            retries: 0,
                            stats: s.stats.spec_succeeded(),
                            ..s
                        },
                        effects: seq![Effect::Status(StatusEvent::Started)],
                        next: Next::Poll(POLL_TIMEOUT_MS),
                    },
                    Err(reason) => after_failure(
                        SupervisorModel { stats: s.stats.spec_failed(), ..s },
                        SessionError::OpenFailed(reason),
                        seq![],
                    ),
                }
            } else {
                ignored(s)
            }
        },
        Event::Polled(polled) => {
            if s.state == ConnectionState::Connected {
                match polled {
                    PollResult::Message(payload) => after_message(s, payload@),
                    PollResult::Idle => Transition {
                        received: None,
                        model: s,
                        effects: seq![],
                        next: Next::Poll(POLL_TIMEOUT_MS),
                    },
                    PollResult::Disconnected => after_failure(
                        SupervisorModel { stats: s.stats.spec_disconnected(now), ..s },
                        SessionError::BrokerDisconnected,
                        seq![Effect::CloseSession],
                    ),
                    PollResult::TransportError(reason) => after_failure(
                        SupervisorModel { stats: s.stats.spec_disconnected(now), ..s },
                        SessionError::Transport(reason),
                        seq![Effect::CloseSession],
                    ),
                }
            } else {
                ignored(s)
            }
        },
        Event::BackoffElapsed => {
            if s.state == ConnectionState::Reconnecting {
                Transition {
                    received: None,
                    model: SupervisorModel { state: ConnectionState::Connecting, ..s },
                    effects: seq![],
                    next: Next::LoadConfig,
                }
            } else {
                ignored(s)
            }
        },
    }
}

/// Whether `effects` report giving up: an error for exhausted retries, then
/// `Stopped`.
pub open spec fn reports_giving_up(effects: Seq<Effect>) -> bool {
    &&& effects.len() == 2
    &&& effects[0] matches Effect::Status(StatusEvent::Error(Failure::RetriesExhausted { .. }))
    &&& effects[1] == Effect::Status(StatusEvent::Stopped)
}

/// From idle, a start command leads within three steps (the command, the
/// loaded configuration, the outcome of the session attempt) to an open
/// session, to a wait before the next attempt, or to giving up with an error
/// report; and when the wait is over, the next attempt begins.
pub proof fn lemma_start_reaches_outcome(
    s: SupervisorModel,
    config: Config,
    opened: Result<(), String>,
    t0: u64,
    t1: u64,
    t2: u64,
    t3: u64,
)
    requires
        s.state == ConnectionState::Disconnected,
    ensures
        ({
            let a = transition(s, Event::Command(HostCommand::Start), t0);
            let b = transition(a.model, Event::ConfigLoaded(Ok(config)), t1);
            let c = transition(b.model, Event::Opened(opened), t2);
            let d = transition(c.model, Event::BackoffElapsed, t3);
            &&& a.model.state == ConnectionState::Connecting
            &&& a.next == Next::LoadConfig
            &&& b.model.state == ConnectionState::Connecting
            &&& b.next is Open
            &&& {
                ||| c.model.state == ConnectionState::Connected && c.next == Next::Poll(POLL_TIMEOUT_MS)
                ||| c.model.state == ConnectionState::Reconnecting && c.next is Sleep
                ||| c.model.state == ConnectionState::Disconnected && reports_giving_up(c.effects)
            }
            &&& c.model.state == ConnectionState::Reconnecting ==> d.model.state
                == ConnectionState::Connecting && d.next == Next::LoadConfig
        }),
{
}

/// While running (connecting, connected or reconnecting) the supervisor
/// always has an operation pending: no step leaves it running and waiting
/// only for a host command.
pub proof fn lemma_running_never_idles(s: SupervisorModel, e: Event, now: u64)
    ensures
        ({
            let t = transition(s, e, now);
            t.model.state != ConnectionState::Disconnected ==> !(t.next is WaitCommand) && !(t.next is Exit)
        }),
{
}

/// A stop command while connected closes the session, reports `Stopped` and
/// goes idle in that very step; and while connected, the only operation the
/// supervisor waits on is a poll bounded by the poll timeout, so a command
/// is taken up within one poll timeout.
pub proof fn lemma_stop_while_connected(s: SupervisorModel, e: Event, now: u64)
    requires
        s.state == ConnectionState::Connected,
    ensures
        ({
            let t = transition(s, Event::Command(HostCommand::Stop), now);
            &&& t.model.state == ConnectionState::Disconnected
            &&& t.effects == seq![Effect::CloseSession, Effect::Status(StatusEvent::Stopped)]
            &&& t.next == Next::WaitCommand
        }),
        ({
            let t = transition(s, e, now);
            t.model.state == ConnectionState::Connected ==> t.next == Next::Poll(POLL_TIMEOUT_MS)
                || t.next == Next::Resume
        }),
{
}

/// The number of display switches that the messages `payloads`, received in
/// turn on an open session, ask for.
pub open spec fn switches_for(s: SupervisorModel, payloads: Seq<Seq<u8>>) -> nat
    decreases payloads.len(),
{
    if payloads.len() == 0 {
        0
    } else {
        let t = after_message(s, payloads[0]);
        t.effects.len() + switches_for(t.model, payloads.drop_first())
    }
}

/// Any run of messages that each ask for the same power state switches the
/// display at most once, and not at all when it is already in that state.
pub proof fn lemma_repeated_power_request_switches_once(
    s: SupervisorModel,
    payloads: Seq<Seq<u8>>,
    on: bool,
)
    requires
        forall|i: int|
            0 <= i < payloads.len() ==> power_target(decoded_payload(#[trigger] payloads[i]).0)
                == Some(on),
    ensures
        switches_for(s, payloads) <= 1,
        s.display_on == on ==> switches_for(s, payloads) == 0,
    decreases payloads.len(),
{
    if payloads.len() > 0 {
        let t = after_message(s, payloads[0]);
        let rest = payloads.drop_first();
        assert forall|i: int| 0 <= i < rest.len() implies power_target(
            decoded_payload(#[trigger] rest[i]).0,
        ) == Some(on) by {
            assert(rest[i] == payloads[i + 1]);
        }
        lemma_repeated_power_request_switches_once(t.model, rest, on);
    }
}

/// The view of an optional decoded message.
pub open spec fn inbound_view(c: Option<InboundCommand>) -> Option<(CommandModel, Option<Seq<char>>)> {
    match c {
        Some(m) => Some(m@),
        None => None,
    }
}

/// Whether a step that left the supervisor in `after` and returned `r` is
/// the transition `t`.
pub open spec fn yields(t: Transition, after: SupervisorModel, r: Step) -> bool {
    after == t.model && r.effects@ == t.effects && r.next == t.next && inbound_view(r.received)
        == t.received
}

/// The connection-lifecycle supervisor.
#[derive(Debug)]
pub struct Supervisor {
    state: ConnectionState,
    retries: u32,
    policy: BackoffPolicy,
    gate: ActuationGate,
    stats: ConnectionStats,
}

impl View for Supervisor {
    type V = SupervisorModel;

    closed spec fn view(&self) -> SupervisorModel {
        SupervisorModel {
            state: self.state,
            retries: self.retries,
            policy: self.policy,
            display_on: self.gate@,
            stats: self.stats,
        }
    }
}

impl Supervisor {
    /// An idle supervisor with the given retry policy, a gate in the default
    /// state and fresh statistics.
    pub fn new(policy: BackoffPolicy) -> (r: Supervisor)
        ensures
            r@.state == ConnectionState::Disconnected,
            r@.retries == 0,
            r@.policy == policy,
            r@.display_on == true,
            r@.stats == ConnectionStats::new_stats(),
    {
        Supervisor::with_gate(policy, ActuationGate::new())
    }

    /// An idle supervisor with the given retry policy and gate, and fresh
    /// statistics.
    pub fn with_gate(policy: BackoffPolicy, gate: ActuationGate) -> (r: Supervisor)
        ensures
            r@.state == ConnectionState::Disconnected,
            r@.retries == 0,
            r@.policy == policy,
            r@.display_on == gate@,
            r@.stats == ConnectionStats::new_stats(),
    {
        Supervisor {
            state: ConnectionState::Disconnected,
            retries: 0,
            policy,
            gate,
            stats: ConnectionStats::new(),
        }
    }

    /// Where the supervisor stands with the bus.
    pub fn state(&self) -> (r: ConnectionState)
        ensures
            r == self@.state,
    {
        self.state
    }

    /// Consecutive failed attempts since the last start or open session.
    pub fn retries(&self) -> (r: u32)
        ensures
            r == self@.retries,
    {
        self.retries
    }

    /// The retry policy.
    pub fn policy(&self) -> (r: BackoffPolicy)
        ensures
            r == self@.policy,
    {
        self.policy
    }

    /// The tracked display state.
    pub fn display_state(&self) -> (r: ScreenState)
        ensures
            r == screen_state_of(self@.display_on),
    {
        get_display_state(&self.gate)
    }

    /// The connection statistics.
    pub fn stats(&self) -> (r: &ConnectionStats)
        ensures
            *r == self@.stats,
    {
        &self.stats
    }

    /// Counts a failure, then schedules the next attempt or gives up.
    fn fail(&mut self, error: SessionError, effects: Vec<Effect>) -> (r: Step)
        ensures
            yields(after_failure(old(self)@, error, effects@), final(self)@, r),
    {
        let attempts: u32 = if self.retries == u32::MAX {
            u32::MAX
        } else {
            self.retries + 1
        };
        self.retries = attempts;
        let ghost old_effects = effects@;
        let mut effects = effects;
        if self.policy.should_stop(attempts) {
            self.state = ConnectionState::Disconnected;
            effects.push(
                Effect::Status(StatusEvent::Error(Failure::RetriesExhausted { attempts, last_error: error })),
            );
            effects.push(Effect::Status(StatusEvent::Stopped));
            assert(effects@ =~= old_effects + seq![
                Effect::Status(StatusEvent::Error(Failure::RetriesExhausted { attempts, last_error: error })),
                Effect::Status(StatusEvent::Stopped),
            ]);
            Step { received: None, effects, next: Next::WaitCommand }
        } else {
            self.state = ConnectionState::Reconnecting;
            let delay = self.policy.next_delay(attempts - 1);
            Step { received: None, effects, next: Next::Sleep(delay) }
        }
    }

    /// Goes idle on the host's behalf.
    fn stop(&mut self, now: u64, next: Next) -> (r: Step)
        ensures
            yields(stopped(old(self)@, now, next), final(self)@, r),
    {
        let mut effects: Vec<Effect> = Vec::new();
        if self.state == ConnectionState::Connected {
            let _ = self.stats.on_disconnection(now);
            effects.push(Effect::CloseSession);
        }
        self.state = ConnectionState::Disconnected;
        effects.push(Effect::Status(StatusEvent::Stopped));
        proof {
            if old(self)@.state == ConnectionState::Connected {
                assert(effects@ =~= seq![Effect::CloseSession, Effect::Status(StatusEvent::Stopped)]);
            } else {
                assert(effects@ =~= seq![Effect::Status(StatusEvent::Stopped)]);
            }
        }
        Step { received: None, effects, next }
    }

    /// Handles a message from the open session.
    fn on_message(&mut self, payload: Vec<u8>) -> (r: Step)
        ensures
            yields(after_message(old(self)@, payload@), final(self)@, r),
    {
        let inbound = decode(payload.as_slice());
        let mut effects: Vec<Effect> = Vec::new();
        match inbound.command {
            Command::SetPower(on) => {
                if set_display_smart(&mut self.gate, on) {
                    effects.push(Effect::SetDisplayPower(on));
                }
                proof {
                    if on != old(self)@.display_on {
                        assert(effects@ =~= seq![Effect::SetDisplayPower(on)]);
                    } else {
                        assert(effects@ =~= Seq::<Effect>::empty());
                    }
                }
            },
            Command::Unknown(_) => {
                assert(effects@ =~= Seq::<Effect>::empty());
            },
        }
        Step { received: Some(inbound), effects, next: Next::Poll(POLL_TIMEOUT_MS) }
    }

    /// Takes one event at time `now` (milliseconds on the owner's clock) and
    /// says what to do: the effects to carry out at once and the operation
    /// to wait on next.
    pub fn step(&mut self, event: Event, now: u64) -> (r: Step)
        ensures
            yields(transition(old(self)@, event, now), final(self)@, r),
    {
        let no_effects: Vec<Effect> = Vec::new();
        proof {
            assert(no_effects@ =~= Seq::<Effect>::empty());
        }
        match event {
            Event::Command(HostCommand::Start) => {
                if self.state == ConnectionState::Disconnected {
                    self.state = ConnectionState::Connecting;
                    self.retries = 0;
                    Step { received: None, effects: no_effects, next: Next::LoadConfig }
                } else {
                    Step { received: None, effects: no_effects, next: Next::Resume }
                }
            },
            Event::Command(HostCommand::Stop) => self.stop(now, Next::WaitCommand),
            Event::CommandsClosed => self.stop(now, Next::Exit),
            Event::ConfigLoaded(loaded) => {
                if self.state == ConnectionState::Connecting {
                    match loaded {
                        Ok(config) => {
                            self.stats.on_connection_start(now);
                            Step {
                                received: None,
                                effects: no_effects,
                                next: Next::Open(SessionParams::for_config(config)),
                            }
                        },
                        Err(error) => {
                            self.state = ConnectionState::Disconnected;
                            let mut effects = no_effects;
                            effects.push(Effect::Status(StatusEvent::Error(Failure::Config(error))));
                            effects.push(Effect::Status(StatusEvent::Stopped));
                            assert(effects@ =~= seq![
                                Effect::Status(StatusEvent::Error(Failure::Config(error))),
                                Effect::Status(StatusEvent::Stopped),
                            ]);
                            Step { received: None, effects, next: Next::WaitCommand }
                        },
                    }
                } else {
                    Step { received: None, effects: no_effects, next: Next::Resume }
                }
            },
            Event::Opened(outcome) => {
                if self.state == ConnectionState::Connecting {
                    match outcome {
                        Ok(_) => {
                            self.state = ConnectionState::Connected;
                            self.retries = 0;
                            self.stats.on_connection_success();
                            let mut effects = no_effects;
                            effects.push(Effect::Status(StatusEvent::Started));
                            assert(effects@ =~= seq![Effect::Status(StatusEvent::Started)]);
                            Step { received: None, effects, next: Next::Poll(POLL_TIMEOUT_MS) }
                        },
                        Err(reason) => {
                            self.stats.on_connection_failure();
                            self.fail(SessionError::OpenFailed(reason), no_effects)
                        },
                    }
                } else {
                    Step { received: None, effects: no_effects, next: Next::Resume }
                }
            },
            Event::Polled(polled) => {
                if self.state == ConnectionState::Connected {
                    match polled {
                        PollResult::Message(payload) => self.on_message(payload),
                        PollResult::Idle => Step {
                            received: None,
                            effects: no_effects,
                            next: Next::Poll(POLL_TIMEOUT_MS),
                        },
                        PollResult::Disconnected => {
                            let _ = self.stats.on_disconnection(now);
                            let mut effects = no_effects;
                            effects.push(Effect::CloseSession);
                            assert(effects@ =~= seq![Effect::CloseSession]);
                            self.fail(SessionError::BrokerDisconnected, effects)
                        },
                        PollResult::TransportError(reason) => {
                            let _ = self.stats.on_disconnection(now);
                            let mut effects = no_effects;
                            effects.push(Effect::CloseSession);
                            assert(effects@ =~= seq![Effect::CloseSession]);
                            self.fail(SessionError::Transport(reason), effects)
                        },
                    }
                } else {
                    Step { received: None, effects: no_effects, next: Next::Resume }
                }
            },
            Event::BackoffElapsed => {
                if self.state == ConnectionState::Reconnecting {
                    self.state = ConnectionState::Connecting;
                    Step { received: None, effects: no_effects, next: Next::LoadConfig }
                } else {
                    Step { received: None, effects: no_effects, next: Next::Resume }
                }
            },
        }
    }
}

} // verus!
