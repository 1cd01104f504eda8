//! The session supervisor: what to do next after each event of a session.
//!
//! The caller performs what a [`Directive`] asks for (connect and subscribe,
//! poll, sleep, or exit) and reports what came of it as an [`Event`]. A poll
//! that fails with a transient fault is answered by a fixed pause and a new
//! session, a bounded number of times over the life of the supervisor: the
//! count of restarts is never reset. Every other failure ends the run.

use vstd::prelude::*;
use crate::config::{Config, ConfigView};
use crate::pipeline::{
    message_notification, notification_for, optional_notification, startup_notification,
    startup_notification_of, InboundMessage, InboundMessageView, Notification, NotificationView,
};

verus! {

/// How many restarts after a transient fault a supervisor grants.
pub const RESTART_CEILING: u32 = 10;

/// The pause before a restart, in seconds.
pub const BACKOFF_SECONDS: u64 = 60;

/// What went wrong when the session was polled.
#[derive(Debug, Clone, Copy, PartialEq, Eq, Structural)]
pub enum PollFault {
    /// The session's state machine met a packet or a request it could not
    /// accept.
    MqttState,
    /// The network did not answer in time.
    NetworkTimeout,
    /// Outgoing data could not be flushed in time.
    FlushTimeout,
    /// The transport failed.
    Io,
    /// The broker refused the connection.
    ConnectionRefused,
    /// The broker answered the connection request with something else than
    /// an acknowledgement.
    NotConnAck,
    /// The stream of requests has ended.
    RequestsDone,
}

/// Whether a failed poll is worth a restart.
#[derive(Debug, Clone, Copy, PartialEq, Eq, Structural)]
pub enum PollError {
    /// Expected to pass: answered by a restart.
    Transient,
    /// Not expected to pass: ends the run.
    Fatal,
}

impl PollFault {
    /// The class of a fault: a network timeout is transient, every other
    /// fault is fatal.
    pub open spec fn class(self) -> PollError {
        if self is NetworkTimeout {
            PollError::Transient
        } else {
            PollError::Fatal
        }
    }

    /// The class of this fault.
    pub fn classify(self) -> (class: PollError)
        ensures
            class == self.class(),
    {
        match self {
            PollFault::NetworkTimeout => PollError::Transient,
            _ => PollError::Fatal,
        }
    }
}

/// Why a run ended.
#[derive(Debug, Clone, Copy, PartialEq, Eq, Structural)]
pub enum ExitReason {
    /// The session could not be opened.
    ConnectFailed,
    /// A subscription could not be made.
    SubscribeFailed,
    /// A poll failed with a fatal fault.
    PollFailed(PollFault),
    /// A transient fault came after the last restart that was granted.
    RetryBudgetExceeded,
}

/// Where a supervisor stands.
#[derive(Debug, Clone, Copy, PartialEq, Eq, Structural)]
pub enum Phase {
    /// A session is to be opened and the subscriptions made.
    Connecting,
    /// The session is open and is being polled.
    Connected,
    /// A transient fault ended the session; the pause before the restart
    /// runs.
    Reconnecting,
    /// The run has ended.
    Terminated(ExitReason),
}

/// What the caller reports to the supervisor.
#[derive(Debug, PartialEq, Eq)]
pub enum Event {
    /// The session is open and every subscription is made.
    ConnectSucceeded,
    /// The session could not be opened.
    ConnectFailed,
    /// A subscription could not be made.
    SubscribeFailed,
    /// A poll returned a published message.
    Message(InboundMessage),
    /// A poll returned anything else than a published message.
    Other,
    /// A poll failed.
    PollFailed(PollFault),
    /// The pause before a restart is over.
    BackoffElapsed,
}

/// What an [`Event`] is.
pub enum EventView {
    ConnectSucceeded,
    ConnectFailed,
    SubscribeFailed,
    Message(InboundMessageView),
    Other,
    PollFailed(PollFault),
    BackoffElapsed,
}

impl View for Event {
    type V = EventView;

    open spec fn view(&self) -> EventView {
        match self {
            Event::ConnectSucceeded => EventView::ConnectSucceeded,
            Event::ConnectFailed => EventView::ConnectFailed,
            Event::SubscribeFailed => EventView::SubscribeFailed,
            Event::Message(message) => EventView::Message(message@),
            Event::Other => EventView::Other,
            Event::PollFailed(fault) => EventView::PollFailed(*fault),
            Event::BackoffElapsed => EventView::BackoffElapsed,
        }
    }
}

/// What the caller is to do next.
#[derive(Debug, Clone, Copy, PartialEq, Eq, Structural)]
pub enum Next {
    /// Open a session and make the subscriptions.
    Connect,
    /// Poll the session for its next event.
    Poll,
    /// Pause for `seconds` seconds.
    Sleep { seconds: u64 },
    /// End the run and report failure.
    Exit(ExitReason),
}

/// The supervisor's answer to an event.
#[derive(Debug, PartialEq, Eq)]
pub struct Directive {
    /// The notification to hand to the display, if any. Showing it must not
    /// hold up what `next` asks for.
    pub notification: Option<Notification>,
    /// What to do next.
    pub next: Next,
}

/// What a [`Directive`] is.
pub struct DirectiveView {
    pub notification: Option<NotificationView>,
    pub next: Next,
}

impl View for Directive {
    type V = DirectiveView;

    open spec fn view(&self) -> DirectiveView {
        DirectiveView { notification: optional_notification(self.notification), next: self.next }
    }
}

/// The state of a supervisor.
pub struct SupervisorView {
    /// Where the supervisor stands.
    pub phase: Phase,
    /// How many transient faults have ended a session so far.
    pub restart_count: nat,
    /// Whether the first session has been opened, and with it the startup
    /// notification been due.
    pub startup_announced: bool,
}

impl SupervisorView {
    /// The state a supervisor starts in.
    pub open spec fn initial() -> SupervisorView {
        SupervisorView { phase: Phase::Connecting, restart_count: 0, startup_announced: false }
    }

    /// What holds of every state a supervisor can reach: the count of
    /// restarts exceeds the ceiling by at most one, and it does so exactly in
    /// a run that ended for that reason.
    pub open spec fn well_formed(self) -> bool {
        &&& self.restart_count <= RESTART_CEILING + 1
        &&& self.restart_count == RESTART_CEILING + 1 <==> self.phase == Phase::Terminated(
            ExitReason::RetryBudgetExceeded,
        )
    }

    /// What the supervisor waits for in this state.
    pub open spec fn awaited(self) -> Next {
        match self.phase {
            Phase::Connecting => Next::Connect,
            Phase::Connected => Next::Poll,
            Phase::Reconnecting => Next::Sleep { seconds: BACKOFF_SECONDS },
            Phase::Terminated(reason) => Next::Exit(reason),
        }
    }

    /// Whether `event` is counted as a restart in this state: a transient
    /// fault while the session is open.
    pub open spec fn counts(self, event: EventView) -> bool {
        &&& self.phase == Phase::Connected
        &&& event matches EventView::PollFailed(fault)
        &&& fault.class() == PollError::Transient
    }

    /// The state after a poll failed with `fault` while the session was
    /// open.
    pub open spec fn after_poll_failure(self, fault: PollFault) -> SupervisorView {
        match fault.class() {
            PollError::Transient => {
                let restart_count = self.restart_count + 1;
                if restart_count > RESTART_CEILING {
                    SupervisorView {
                        phase: Phase::Terminated(ExitReason::RetryBudgetExceeded),
                        restart_count,
                        ..self
                    }
                } else {
                    SupervisorView { phase: Phase::Reconnecting, restart_count, ..self }
                }
            },
            PollError::Fatal => SupervisorView {
                phase: Phase::Terminated(ExitReason::PollFailed(fault)),
                ..self
            },
        }
    }

    /// The state after `event`. An event that the phase does not wait for
    /// leaves the state as it is.
    pub open spec fn transition(self, event: EventView) -> SupervisorView {
        match (self.phase, event) {
            (Phase::Connecting, EventView::ConnectSucceeded) => SupervisorView {
                phase: Phase::Connected,
                startup_announced: true,
                ..self
            },
            (Phase::Connecting, EventView::ConnectFailed) => SupervisorView {
                phase: Phase::Terminated(ExitReason::ConnectFailed),
                ..self
            },
            (Phase::Connecting, EventView::SubscribeFailed) => SupervisorView {
                phase: Phase::Terminated(ExitReason::SubscribeFailed),
                ..self
            },
            (Phase::Connected, EventView::PollFailed(fault)) => self.after_poll_failure(fault),
            (Phase::Reconnecting, EventView::BackoffElapsed) => SupervisorView {
                phase: Phase::Connecting,
                ..self
            },
            _ => self,
        }
    }

    /// The notification that `event` calls for in this state: the startup
    /// notification when the first session opens, and a message's
    /// notification while the session is open.
    pub open spec fn notification(self, config: ConfigView, event: EventView) -> Option<
        NotificationView,
    > {
        match (self.phase, event) {
            (Phase::Connecting, EventView::ConnectSucceeded) => if self.startup_announced {
                None
            } else {
                startup_notification_of(config)
            },
            (Phase::Connected, EventView::Message(message)) => message_notification(
                config,
                message,
            ),
            _ => None,
        }
    }

    /// The answer to `event` in this state.
    pub open spec fn directive(self, config: ConfigView, event: EventView) -> DirectiveView {
        DirectiveView {
            notification: self.notification(config, event),
            next: self.transition(event).awaited(),
        }
    }
}

/// The state after `rounds` rounds, each of them a transient fault while
/// polling, the pause, and a session opened anew.
pub open spec fn after_transient_faults(state: SupervisorView, rounds: nat) -> SupervisorView
    decreases rounds,
{
    if rounds == 0 {
        state
    } else {
        after_transient_faults(state, (rounds - 1) as nat).transition(
            EventView::PollFailed(PollFault::NetworkTimeout),
        ).transition(EventView::BackoffElapsed).transition(EventView::ConnectSucceeded)
    }
}

/// No event leads out of the states a supervisor can reach.
pub proof fn lemma_transition_keeps_well_formed(state: SupervisorView, event: EventView)
    requires
        state.well_formed(),
    ensures
        state.transition(event).well_formed(),
{
}

/// A run that has ended stays ended: every event leaves the state as it is,
/// calls for no notification, and is answered by the same exit.
pub proof fn lemma_terminated_is_final(state: SupervisorView, config: ConfigView, event: EventView)
    requires
        state.phase is Terminated,
    ensures
        state.transition(event) == state,
        state.directive(config, event) == (DirectiveView {
            notification: None,
            next: Next::Exit(state.phase->Terminated_0),
        }),
{
}

/// The count of restarts is never reset: an event adds one to it where it is
/// a transient fault of an open session, and leaves it as it is otherwise.
pub proof fn lemma_restart_count_is_cumulative(state: SupervisorView, event: EventView)
    ensures
        state.transition(event).restart_count == state.restart_count + (if state.counts(event) {
            1nat
        } else {
            0nat
        }),
{
}

/// A transient fault of an open session ends the run exactly when the
/// restarts granted are used up; a fatal fault ends it in any case.
pub proof fn lemma_poll_failure_outcome(state: SupervisorView, fault: PollFault)
    requires
        state.well_formed(),
        state.phase == Phase::Connected,
    ensures
        ({
            let after = state.transition(EventView::PollFailed(fault));
            match fault.class() {
                PollError::Transient => after.phase == (if state.restart_count >= RESTART_CEILING {
                    Phase::Terminated(ExitReason::RetryBudgetExceeded)
                } else {
                    Phase::Reconnecting
                }),
                PollError::Fatal => after.phase == Phase::Terminated(ExitReason::PollFailed(fault)),
            }
        }),
{
}

/// The startup notification is due once: when the first session opens. Once
/// a session has been opened no event calls for it again.
pub proof fn lemma_startup_is_announced_once(
    state: SupervisorView,
    config: ConfigView,
    event: EventView,
)
    ensures
        state.phase == Phase::Connecting && event == EventView::ConnectSucceeded
            && !state.startup_announced ==> state.notification(config, event)
            == startup_notification_of(config) && state.transition(event).startup_announced,
        state.startup_announced ==> state.transition(event).startup_announced && (event
            == EventView::ConnectSucceeded ==> state.notification(config, event) is None),
{
}

/// Starting with an open session and no restart made, the run goes on
/// through as many transient faults as the ceiling says, and the next one
/// ends it.
pub proof fn lemma_restart_budget(state: SupervisorView, rounds: nat)
    requires
        state.phase == Phase::Connected,
        state.restart_count == 0,
    ensures
        rounds <= RESTART_CEILING ==> after_transient_faults(state, rounds).phase
            == Phase::Connected && after_transient_faults(state, rounds).restart_count == rounds,
        rounds > RESTART_CEILING ==> after_transient_faults(state, rounds).phase
            == Phase::Terminated(ExitReason::RetryBudgetExceeded) && after_transient_faults(
            state,
            rounds,
        ).restart_count == RESTART_CEILING + 1,
    decreases rounds,
{
    if rounds > 0 {
        lemma_restart_budget(state, (rounds - 1) as nat);
    }
}

/// Supervises one run of the bridge.
#[derive(Debug, PartialEq, Eq)]
pub struct Supervisor {
    phase: Phase,
    restart_count: u32,
    startup_announced: bool,
}

impl View for Supervisor {
    type V = SupervisorView;

    closed spec fn view(&self) -> SupervisorView {
        SupervisorView {
            phase: self.phase,
            restart_count: self.restart_count as nat,
            startup_announced: self.startup_announced,
        }
    }
}

impl Supervisor {
    #[verifier::type_invariant]
    spec fn is_well_formed(self) -> bool {
        self@.well_formed()
    }

    /// A supervisor at the start of a run: no session yet, no restart made.
    pub fn new() -> (supervisor: Supervisor)
        ensures
            supervisor@ == SupervisorView::initial(),
    {
        Supervisor { phase: Phase::Connecting, restart_count: 0, startup_announced: false }
    }

    /// Where the supervisor stands.
    pub fn phase(&self) -> (phase: Phase)
        ensures
            phase == self@.phase,
    {
        self.phase
    }

    /// How many transient faults have ended a session so far.
    pub fn restart_count(&self) -> (count: u32)
        ensures
            count == self@.restart_count,
            count <= RESTART_CEILING + 1,
    {
        proof {
            use_type_invariant(self);
        }
        self.restart_count
    }

    /// Whether the first session has been opened.
    pub fn startup_announced(&self) -> (announced: bool)
        ensures
            announced == self@.startup_announced,
    {
        self.startup_announced
    }

    /// What the supervisor waits for.
    pub fn awaited(&self) -> (next: Next)
        ensures
            next == self@.awaited(),
    {
        match self.phase {
            Phase::Connecting => Next::Connect,
            Phase::Connected => Next::Poll,
            Phase::Reconnecting => Next::Sleep { seconds: BACKOFF_SECONDS },
            Phase::Terminated(reason) => Next::Exit(reason),
        }
    }

    /// Takes `event` in and says what to do next.
    pub fn step(&mut self, config: &Config, event: Event) -> (directive: Directive)
        ensures
            final(self)@ == old(self)@.transition(event@),
            final(self)@.well_formed(),
            directive@ == old(self)@.directive(config@, event@),
    {
        proof {
            use_type_invariant(&*self);
        }
        let mut notification: Option<Notification> = None;
        match (self.phase, event) {
            (Phase::Connecting, Event::ConnectSucceeded) => {
                if !self.startup_announced {
                    notification = startup_notification(config);
                }
                self.phase = Phase::Connected;
                self.startup_announced = true;
            },
            (Phase::Connecting, Event::ConnectFailed) => {
                self.phase = Phase::Terminated(ExitReason::ConnectFailed);
            },
            (Phase::Connecting, Event::SubscribeFailed) => {
                self.phase = Phase::Terminated(ExitReason::SubscribeFailed);
            },
            (Phase::Connected, Event::Message(message)) => {
                notification = notification_for(config, message);
            },
            (Phase::Connected, Event::PollFailed(fault)) => {
                match fault.classify() {
                    PollError::Transient => {
                        let restart_count: u32 = self.restart_count + 1;
                        let phase = if restart_count > RESTART_CEILING {
                            Phase::Terminated(ExitReason::RetryBudgetExceeded)
                        } else {
                            Phase::Reconnecting
                        };
                        let startup_announced = self.startup_announced;
                        *self = Supervisor { phase, restart_count, startup_announced };
                    },
                    PollError::Fatal => {
                        self.phase = Phase::Terminated(ExitReason::PollFailed(fault));
                    },
                }
            },
            (Phase::Reconnecting, Event::BackoffElapsed) => {
                self.phase = Phase::Connecting;
            },
            _ => {},
        }
        Directive { notification, next: self.awaited() }
    }
}

} // verus!
