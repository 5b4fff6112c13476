use script_runner::errors::RunError;
use script_runner::permissions::PermissionOptions;
use script_runner::permissions::Scope;
use script_runner::permissions::build_permissions;
use script_runner::run::build_watch_attempt;
use script_runner::session::AttemptOutcome;
use script_runner::watch::WatchCommand;
use script_runner::watch::WatchEvent;
use script_runner::watch::WatchPhase;
use script_runner::watch::WatchState;
use script_runner::watch::event_for_outcome;

fn no_permissions() -> PermissionOptions {
    PermissionOptions { allow_all: false, allow_read: None, allow_write: None, allow_net: None }
}

#[test]
fn two_changes_then_closure_build_three_attempts() {
    let mut w = WatchState::enter(true);
    assert_eq!(w.phase, WatchPhase::Building);
    assert_eq!(w.building_grant_id(), 0);

    assert_eq!(w.step(WatchEvent::BuildReady), WatchCommand::StartRun);
    assert_eq!(w.phase, WatchPhase::Running);

    // First change arrives mid-execution: cancel, rebuild with a fresh grant.
    assert_eq!(
        w.step(WatchEvent::FileChanged),
        WatchCommand::Rebuild { grant_id: 1, clear: true }
    );
    assert_eq!(w.phase, WatchPhase::Building);

    assert_eq!(w.step(WatchEvent::BuildReady), WatchCommand::StartRun);
    assert_eq!(w.step(WatchEvent::RunFinished), WatchCommand::Wait);
    assert_eq!(w.phase, WatchPhase::AwaitingChange);

    // Second change after completion.
    assert_eq!(
        w.step(WatchEvent::FileChanged),
        WatchCommand::Rebuild { grant_id: 2, clear: true }
    );

    // Three attempts were issued in all: the initial one plus one per change.
    assert_eq!(w.issued, 3);

    assert_eq!(w.step(WatchEvent::ChannelClosed), WatchCommand::Halt { fatal: false });
    assert_eq!(w.phase, WatchPhase::Ended { fatal: false });
    assert_eq!(w.conclude(), Ok(0));
}

#[test]
fn cancelled_attempts_never_share_a_grant() {
    let mut w = WatchState::enter(false);
    let first = w.building_grant_id();
    w.step(WatchEvent::BuildReady);
    let cmd = w.step(WatchEvent::FileChanged);
    match cmd {
        WatchCommand::Rebuild { grant_id, clear } => {
            assert_ne!(grant_id, first);
            assert!(!clear);
            let a = build_watch_attempt(b"file:///m.ts".to_vec(), no_permissions(), first).unwrap();
            let b = build_watch_attempt(b"file:///m.ts".to_vec(), no_permissions(), grant_id)
                .unwrap();
            assert_ne!(a.grant.grant_id, b.grant.grant_id);
        }
        other => panic!("a change must provoke a rebuild, got {:?}", other),
    }
}

#[test]
fn run_failure_is_reported_and_the_loop_waits() {
    let mut w = WatchState::enter(true);
    w.step(WatchEvent::BuildReady);
    assert_eq!(w.step(WatchEvent::RunFailed), WatchCommand::Report);
    assert_eq!(w.phase, WatchPhase::AwaitingChange);
    // The loop is still alive: the next change restarts it.
    assert_eq!(
        w.step(WatchEvent::FileChanged),
        WatchCommand::Rebuild { grant_id: 1, clear: true }
    );
}

#[test]
fn worker_construction_failure_does_not_end_the_loop() {
    let mut w = WatchState::enter(true);
    assert_eq!(w.step(WatchEvent::CreationFailed), WatchCommand::Report);
    assert_eq!(w.phase, WatchPhase::AwaitingChange);
}

#[test]
fn factory_failure_ends_the_supervision_fatally() {
    let mut w = WatchState::enter(true);
    assert_eq!(w.step(WatchEvent::BuildFatal), WatchCommand::Halt { fatal: true });
    assert_eq!(w.phase, WatchPhase::Ended { fatal: true });
    assert_eq!(w.conclude(), Err(RunError::Resolution));
}

#[test]
fn watch_iterations_discard_exit_codes() {
    assert_eq!(event_for_outcome(AttemptOutcome::Exited(0)), WatchEvent::RunFinished);
    assert_eq!(event_for_outcome(AttemptOutcome::Exited(17)), WatchEvent::RunFinished);
    assert_eq!(event_for_outcome(AttemptOutcome::Crashed), WatchEvent::RunFailed);
    assert_eq!(event_for_outcome(AttemptOutcome::CreationFailed), WatchEvent::CreationFailed);
}

#[test]
fn permission_scopes_resolve_as_configured() {
    let all = PermissionOptions {
        allow_all: true,
        allow_read: None,
        allow_write: None,
        allow_net: None,
    };
    let g = build_permissions(all, 5).unwrap();
    assert_eq!(g.grant_id, 5);
    assert!(matches!(g.read, Scope::All));
    assert!(matches!(g.write, Scope::All));
    assert!(matches!(g.net, Scope::All));

    let mixed = PermissionOptions {
        allow_all: false,
        allow_read: Some(Vec::new()),
        allow_write: None,
        allow_net: Some(vec![b"example.com:443".to_vec()]),
    };
    let g = build_permissions(mixed, 0).unwrap();
    assert!(matches!(g.read, Scope::All));
    assert!(matches!(g.write, Scope::Denied));
    match g.net {
        Scope::Listed(targets) => assert_eq!(targets, vec![b"example.com:443".to_vec()]),
        _ => panic!("a non-empty list must stay listed"),
    }

    let bad = PermissionOptions {
        allow_all: false,
        allow_read: Some(vec![b"".to_vec()]),
        allow_write: None,
        allow_net: None,
    };
    assert!(matches!(build_permissions(bad, 0), Err(RunError::Config)));
}
