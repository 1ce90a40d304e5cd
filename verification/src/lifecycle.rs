//! The order of startup and shutdown.
//!
//! The service is started and stopped by work that only its caller can do:
//! reading the environment, opening storage, binding a socket, waiting for a
//! signal. What is decided here is the order. The caller performs an action,
//! reports what came of it as an event, and is told the next action.
use vstd::prelude::*;

verus! {

/// A signal that asks the service to stop.
#[derive(Debug, Clone, Copy, PartialEq, Eq, Structural)]
pub enum Signal {
    /// The interrupt from the keyboard.
    Interrupt,
    /// The request to terminate.
    Terminate,
}

impl Signal {
    /// The line that announces the shutdown.
    pub open spec fn notice_text(self) -> Seq<char> {
        match self {
            Signal::Interrupt => "Closing all remaining connections after CTRL+C"@,
            Signal::Terminate => "Closing all remaining connections after SIGTERM"@,
        }
    }

    /// The line that announces the shutdown after this signal.
    pub fn notice(&self) -> (text: &'static str)
        ensures
            text@ == self.notice_text(),
    {
        match self {
            Signal::Interrupt => "Closing all remaining connections after CTRL+C",
            Signal::Terminate => "Closing all remaining connections after SIGTERM",
        }
    }
}

/// Why the service could not be started.
#[derive(Debug, Clone, Copy, PartialEq, Eq, Structural)]
pub enum StartupFailure {
    /// Storage could not be opened, or its schema could not be brought up to
    /// date.
    StorageUnavailable,
    /// The port could not be bound.
    PortUnavailable,
}

impl StartupFailure {
    /// The diagnostic of the failure.
    pub open spec fn diagnostic_text(self) -> Seq<char> {
        match self {
            StartupFailure::StorageUnavailable => "Failed to connect to database"@,
            StartupFailure::PortUnavailable => "Failed to bind the listening port"@,
        }
    }

    /// The diagnostic with which the process ends.
    pub fn diagnostic(&self) -> (text: &'static str)
        ensures
            text@ == self.diagnostic_text(),
    {
        match self {
            StartupFailure::StorageUnavailable => "Failed to connect to database",
            StartupFailure::PortUnavailable => "Failed to bind the listening port",
        }
    }
}

/// Where the service stands between its start and its end.
#[derive(Debug, Clone, Copy, PartialEq, Eq, Structural)]
pub enum Phase {
    /// The configuration is being loaded.
    Loading,
    /// Storage is being opened.
    Opening,
    /// The journal mode of storage is being set.
    Tuning,
    /// The port is being bound.
    Binding,
    /// Requests are served.
    Serving,
    /// No new connection is accepted, and the requests in flight complete.
    Draining,
    /// Storage is being closed.
    Closing,
    /// The service has ended as it should.
    Stopped,
    /// The service could not be started.
    Failed,
}

/// What the caller reports.
#[derive(Debug, Clone, Copy, PartialEq, Eq, Structural)]
pub enum Event {
    ConfigLoaded,
    StorageOpened,
    StorageFailed,
    JournalModeSet,
    /// Storage refused the journal mode. The service goes on without it.
    JournalModeRefused,
    Bound,
    BindFailed,
    Signalled(Signal),
    /// The last request in flight has completed.
    Drained,
    /// Storage was closed, or the attempt to close it is over.
    StorageClosed,
}

/// What the caller is to do next.
#[derive(Debug, Clone, Copy, PartialEq, Eq, Structural)]
pub enum Action {
    LoadConfig,
    OpenStorage,
    SetJournalMode,
    Bind,
    Serve,
    /// Stop accepting connections and let the requests in flight complete.
    StopAccepting(Signal),
    CloseStorage,
    /// End the process with exit code 0.
    Exit,
    /// End the process at once with the failure's diagnostic and an exit code
    /// other than 0.
    Abort(StartupFailure),
    /// The event has no place in this phase: go on as before.
    Nothing,
}

/// The phase and the action that follow when `event` is reported in `phase`.
pub open spec fn step(phase: Phase, event: Event) -> (Phase, Action) {
    match (phase, event) {
        (Phase::Loading, Event::ConfigLoaded) => (Phase::Opening, Action::OpenStorage),
        (Phase::Opening, Event::StorageOpened) => (Phase::Tuning, Action::SetJournalMode),
        (Phase::Opening, Event::StorageFailed) => (
            Phase::Failed,
            Action::Abort(StartupFailure::StorageUnavailable),
        ),
        (Phase::Tuning, Event::JournalModeSet) => (Phase::Binding, Action::Bind),
        (Phase::Tuning, Event::JournalModeRefused) => (Phase::Binding, Action::Bind),
        (Phase::Binding, Event::Bound) => (Phase::Serving, Action::Serve),
        (Phase::Binding, Event::BindFailed) => (
            Phase::Failed,
            Action::Abort(StartupFailure::PortUnavailable),
        ),
        (Phase::Serving, Event::Signalled(signal)) => (
            Phase::Draining,
            Action::StopAccepting(signal),
        ),
        (Phase::Draining, Event::Drained) => (Phase::Closing, Action::CloseStorage),
        (Phase::Closing, Event::StorageClosed) => (Phase::Stopped, Action::Exit),
        _ => (phase, Action::Nothing),
    }
}

/// The place of a phase in the order of a run that does not fail.
pub open spec fn rank(phase: Phase) -> int {
    match phase {
        Phase::Loading => 0,
        Phase::Opening => 1,
        Phase::Tuning => 2,
        Phase::Binding => 3,
        Phase::Serving => 4,
        Phase::Draining => 5,
        Phase::Closing => 6,
        Phase::Stopped => 7,
        Phase::Failed => 8,
    }
}

/// The phase that is reached from `phase` when the events are reported one
/// after the other.
pub open spec fn run(phase: Phase, events: Seq<Event>) -> Phase
    decreases events.len(),
{
    if events.len() == 0 {
        phase
    } else {
        step(run(phase, events.drop_last()), events.last()).0
    }
}

/// The service between its start and its end.
#[derive(Debug, Clone, Copy, PartialEq, Eq, Structural)]
pub struct Lifecycle {
    pub phase: Phase,
}

impl Lifecycle {
    /// Begins a run: the first thing to do is to load the configuration.
    pub fn start() -> (started: (Lifecycle, Action))
        ensures
            started.0.phase == Phase::Loading,
            started.1 == Action::LoadConfig,
    {
        (Lifecycle { phase: Phase::Loading }, Action::LoadConfig)
    }

    /// Takes an event and says what to do next.
    pub fn handle(&mut self, event: Event) -> (action: Action)
        ensures
            (final(self).phase, action) == step(old(self).phase, event),
    {
        let phase = self.phase;
        let (next, action) = match phase {
            Phase::Loading => match event {
                Event::ConfigLoaded => (Phase::Opening, Action::OpenStorage),
                _ => (phase, Action::Nothing),
            },
            Phase::Opening => match event {
                Event::StorageOpened => (Phase::Tuning, Action::SetJournalMode),
                Event::StorageFailed => (
                    Phase::Failed,
                    Action::Abort(StartupFailure::StorageUnavailable),
                ),
                _ => (phase, Action::Nothing),
            },
            Phase::Tuning => match event {
                Event::JournalModeSet | Event::JournalModeRefused => (Phase::Binding, Action::Bind),
                _ => (phase, Action::Nothing),
            },
            Phase::Binding => match event {
                Event::Bound => (Phase::Serving, Action::Serve),
                Event::BindFailed => (
                    Phase::Failed,
                    Action::Abort(StartupFailure::PortUnavailable),
                ),
                _ => (phase, Action::Nothing),
            },
            Phase::Serving => match event {
                Event::Signalled(signal) => (Phase::Draining, Action::StopAccepting(signal)),
                _ => (phase, Action::Nothing),
            },
            Phase::Draining => match event {
                Event::Drained => (Phase::Closing, Action::CloseStorage),
                _ => (phase, Action::Nothing),
            },
            Phase::Closing => match event {
                Event::StorageClosed => (Phase::Stopped, Action::Exit),
                _ => (phase, Action::Nothing),
            },
            Phase::Stopped | Phase::Failed => (phase, Action::Nothing),
        };
        self.phase = next;
        action
    }

    /// Whether the run is over.
    pub fn is_over(&self) -> (over: bool)
        ensures
            over == (self.phase == Phase::Stopped || self.phase == Phase::Failed),
    {
        match self.phase {
            Phase::Stopped | Phase::Failed => true,
            _ => false,
        }
    }
}

/// One event moves the service to the next phase in order, ends a startup
/// that failed, or leaves the phase as it is: no phase is skipped and none is
/// entered twice.
pub proof fn lemma_step_keeps_order(phase: Phase, event: Event)
    ensures
        ({
            let next = step(phase, event).0;
            ||| next == phase && step(phase, event).1 == Action::Nothing
            ||| next != Phase::Failed && rank(next) == rank(phase) + 1
            ||| next == Phase::Failed && (phase == Phase::Opening || phase == Phase::Binding)
        }),
{
}

/// Each action is told in one phase only: storage is opened once the
/// configuration is loaded, the port is bound after the journal mode was
/// tried, serving begins once the port is bound, connections are refused
/// only while serving, storage is closed only after the requests in flight
/// have completed, and the process exits only after storage was closed.
pub proof fn lemma_action_has_one_place(phase: Phase, event: Event)
    ensures
        step(phase, event).1 == Action::OpenStorage ==> phase == Phase::Loading,
        step(phase, event).1 == Action::SetJournalMode ==> phase == Phase::Opening,
        step(phase, event).1 == Action::Bind ==> phase == Phase::Tuning,
        step(phase, event).1 == Action::Serve ==> phase == Phase::Binding,
        step(phase, event).1 is StopAccepting ==> phase == Phase::Serving,
        step(phase, event).1 == Action::CloseStorage ==> phase == Phase::Draining && event
            == Event::Drained,
        step(phase, event).1 == Action::Exit ==> phase == Phase::Closing,
        step(phase, event).1 is Abort ==> phase == Phase::Opening || phase == Phase::Binding,
        step(phase, event).1 != Action::LoadConfig,
{
}

/// A service that has ended stays so, whatever is reported.
pub proof fn lemma_end_is_final(phase: Phase, events: Seq<Event>)
    requires
        phase == Phase::Stopped || phase == Phase::Failed,
    ensures
        run(phase, events) == phase,
    decreases events.len(),
{
    if events.len() > 0 {
        lemma_end_is_final(phase, events.drop_last());
    }
}

/// A run never goes back: whatever is reported, the phase that is reached
/// stands at or after the phase that the run began in.
pub proof fn lemma_run_never_goes_back(phase: Phase, events: Seq<Event>)
    ensures
        rank(run(phase, events)) >= rank(phase),
    decreases events.len(),
{
    if events.len() > 0 {
        lemma_run_never_goes_back(phase, events.drop_last());
        lemma_step_keeps_order(run(phase, events.drop_last()), events.last());
    }
}

} // verus!
