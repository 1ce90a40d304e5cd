use users_api::lifecycle::{Action, Event, Lifecycle, Phase, Signal, StartupFailure};

fn run_from_start(events: &[Event]) -> (Lifecycle, Vec<Action>) {
    let (mut lifecycle, first) = Lifecycle::start();
    let mut actions = vec![first];
    for event in events {
        actions.push(lifecycle.handle(*event));
    }
    (lifecycle, actions)
}

#[test]
fn start_loads_the_configuration_first() {
    let (lifecycle, action) = Lifecycle::start();
    assert_eq!(lifecycle.phase, Phase::Loading);
    assert_eq!(action, Action::LoadConfig);
    assert!(!lifecycle.is_over());
}

#[test]
fn clean_run_goes_through_every_phase_in_order() {
    let (lifecycle, actions) = run_from_start(&[
        Event::ConfigLoaded,
        Event::StorageOpened,
        Event::JournalModeSet,
        Event::Bound,
        Event::Signalled(Signal::Terminate),
        Event::Drained,
        Event::StorageClosed,
    ]);
    assert_eq!(
        actions,
        vec![
            Action::LoadConfig,
            Action::OpenStorage,
            Action::SetJournalMode,
            Action::Bind,
            Action::Serve,
            Action::StopAccepting(Signal::Terminate),
            Action::CloseStorage,
            Action::Exit,
        ]
    );
    assert_eq!(lifecycle.phase, Phase::Stopped);
    assert!(lifecycle.is_over());
}

#[test]
fn refused_journal_mode_does_not_stop_the_startup() {
    let (lifecycle, actions) = run_from_start(&[
        Event::ConfigLoaded,
        Event::StorageOpened,
        Event::JournalModeRefused,
    ]);
    assert_eq!(lifecycle.phase, Phase::Binding);
    assert_eq!(actions.last(), Some(&Action::Bind));
}

#[test]
fn storage_failure_aborts_the_startup() {
    let (lifecycle, actions) = run_from_start(&[Event::ConfigLoaded, Event::StorageFailed]);
    assert_eq!(lifecycle.phase, Phase::Failed);
    assert_eq!(actions.last(), Some(&Action::Abort(StartupFailure::StorageUnavailable)));
    assert!(lifecycle.is_over());
}

#[test]
fn bind_failure_aborts_the_startup() {
    let (lifecycle, actions) = run_from_start(&[
        Event::ConfigLoaded,
        Event::StorageOpened,
        Event::JournalModeSet,
        Event::BindFailed,
    ]);
    assert_eq!(lifecycle.phase, Phase::Failed);
    assert_eq!(actions.last(), Some(&Action::Abort(StartupFailure::PortUnavailable)));
}

#[test]
fn interrupt_while_serving_starts_the_drain() {
    let mut lifecycle = Lifecycle { phase: Phase::Serving };
    assert_eq!(
        lifecycle.handle(Event::Signalled(Signal::Interrupt)),
        Action::StopAccepting(Signal::Interrupt)
    );
    assert_eq!(lifecycle.phase, Phase::Draining);
}

#[test]
fn storage_is_closed_only_after_the_drain() {
    let mut lifecycle = Lifecycle { phase: Phase::Serving };
    assert_eq!(lifecycle.handle(Event::Drained), Action::Nothing);
    assert_eq!(lifecycle.handle(Event::StorageClosed), Action::Nothing);
    assert_eq!(lifecycle.phase, Phase::Serving);
    lifecycle.handle(Event::Signalled(Signal::Terminate));
    assert_eq!(lifecycle.handle(Event::StorageClosed), Action::Nothing);
    assert_eq!(lifecycle.phase, Phase::Draining);
    assert_eq!(lifecycle.handle(Event::Drained), Action::CloseStorage);
    assert_eq!(lifecycle.phase, Phase::Closing);
}

#[test]
fn events_out_of_place_change_nothing() {
    let all = [
        Event::ConfigLoaded,
        Event::StorageOpened,
        Event::StorageFailed,
        Event::JournalModeSet,
        Event::JournalModeRefused,
        Event::Bound,
        Event::BindFailed,
        Event::Signalled(Signal::Interrupt),
        Event::Signalled(Signal::Terminate),
        Event::Drained,
        Event::StorageClosed,
    ];
    for event in all {
        if event != Event::ConfigLoaded {
            let mut lifecycle = Lifecycle { phase: Phase::Loading };
            assert_eq!(lifecycle.handle(event), Action::Nothing);
            assert_eq!(lifecycle.phase, Phase::Loading);
        }
        let mut stopped = Lifecycle { phase: Phase::Stopped };
        assert_eq!(stopped.handle(event), Action::Nothing);
        assert_eq!(stopped.phase, Phase::Stopped);
        let mut failed = Lifecycle { phase: Phase::Failed };
        assert_eq!(failed.handle(event), Action::Nothing);
        assert_eq!(failed.phase, Phase::Failed);
    }
}

#[test]
fn signals_before_serving_are_not_heeded() {
    for phase in [Phase::Loading, Phase::Opening, Phase::Tuning, Phase::Binding] {
        let mut lifecycle = Lifecycle { phase };
        assert_eq!(lifecycle.handle(Event::Signalled(Signal::Interrupt)), Action::Nothing);
        assert_eq!(lifecycle.phase, phase);
    }
}

#[test]
fn signal_notices() {
    assert_eq!(Signal::Interrupt.notice(), "Closing all remaining connections after CTRL+C");
    assert_eq!(Signal::Terminate.notice(), "Closing all remaining connections after SIGTERM");
}

#[test]
fn startup_diagnostics() {
    assert_eq!(StartupFailure::StorageUnavailable.diagnostic(), "Failed to connect to database");
    assert_eq!(StartupFailure::PortUnavailable.diagnostic(), "Failed to bind the listening port");
}
