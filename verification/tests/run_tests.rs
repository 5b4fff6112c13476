use script_runner::errors::RunError;
use script_runner::permissions::PermissionOptions;
use script_runner::permissions::Scope;
use script_runner::run::EvalFlags;
use script_runner::run::Flags;
use script_runner::run::RunMode;
use script_runner::run::WatchFlags;
use script_runner::run::effective_eval_source;
use script_runner::run::eval_command;
use script_runner::run::run_from_stdin;
use script_runner::run::run_script;
use script_runner::run::start_file_run;
use script_runner::session::AttemptOutcome;
use script_runner::source::ContentKind;
use script_runner::source::SourceCache;

fn no_permissions() -> PermissionOptions {
    PermissionOptions { allow_all: false, allow_read: None, allow_write: None, allow_net: None }
}

fn entry() -> Vec<u8> {
    b"file:///main.ts".to_vec()
}

#[test]
fn stdin_run_injects_and_exits_zero() {
    let mut cache = SourceCache::new();
    let input = b"console.log(1+1)".to_vec();
    let session = run_from_stdin(&mut cache, entry(), no_permissions(), input.clone())
        .expect("valid text must start a session");
    assert_eq!(session.entry_point, entry());
    assert_eq!(session.grant.grant_id, 0);

    let spec = entry();
    let record = cache.lookup(&spec).expect("the injected file must resolve");
    assert_eq!(record.body, input);
    assert_eq!(record.specifier, entry());
    assert_eq!(record.local_path, b"/main.ts".to_vec());
    assert_eq!(record.content_kind, ContentKind::TypedScript);
    assert!(record.type_hint.is_none());
    assert!(record.headers.is_none());

    let result = session.conclude(AttemptOutcome::Exited(0));
    assert_eq!(result, Ok(0));
}

#[test]
fn stdin_run_starts_the_same_session_as_a_file_run() {
    let mut cache = SourceCache::new();
    let from_stdin =
        run_from_stdin(&mut cache, entry(), no_permissions(), b"1".to_vec()).unwrap();
    let from_file = start_file_run(entry(), no_permissions()).unwrap();
    assert_eq!(from_stdin.entry_point, from_file.entry_point);
    assert_eq!(from_stdin.grant.grant_id, from_file.grant.grant_id);
    assert!(matches!(from_stdin.grant.read, Scope::Denied));
    assert!(matches!(from_file.grant.read, Scope::Denied));
}

#[test]
fn exit_codes_pass_through_verbatim() {
    let mut cache = SourceCache::new();
    let session =
        run_from_stdin(&mut cache, entry(), no_permissions(), b"exit(3)".to_vec()).unwrap();
    assert_eq!(session.conclude(AttemptOutcome::Exited(3)), Ok(3));
}

#[test]
fn crashed_attempt_is_a_runtime_error() {
    let session = start_file_run(entry(), no_permissions()).unwrap();
    assert_eq!(session.conclude(AttemptOutcome::Crashed), Err(RunError::Runtime));
}

#[test]
fn failed_worker_construction_is_a_creation_error() {
    let session = start_file_run(entry(), no_permissions()).unwrap();
    assert_eq!(session.conclude(AttemptOutcome::CreationFailed), Err(RunError::Creation));
}

#[test]
fn eval_with_print_wraps_the_code() {
    let effective = effective_eval_source(b"6*7".to_vec(), true);
    assert_eq!(effective, b"console.log(6*7)".to_vec());

    let mut cache = SourceCache::new();
    let flags = EvalFlags { code: b"6*7".to_vec(), print: true };
    eval_command(&mut cache, entry(), no_permissions(), flags).unwrap();
    let spec = entry();
    let record = cache.lookup(&spec).unwrap();
    assert_eq!(record.body, b"console.log(6*7)".to_vec());
    assert_eq!(record.content_kind, ContentKind::Unclassified);
}

#[test]
fn eval_without_print_keeps_the_code() {
    let effective = effective_eval_source(b"6*7".to_vec(), false);
    assert_eq!(effective, b"6*7".to_vec());

    let mut cache = SourceCache::new();
    let flags = EvalFlags { code: b"1+2".to_vec(), print: false };
    eval_command(&mut cache, entry(), no_permissions(), flags).unwrap();
    let spec = entry();
    assert_eq!(cache.lookup(&spec).unwrap().body, b"1+2".to_vec());
}

#[test]
fn print_mode_equals_eval_of_wrapped_text() {
    let mut with_print = SourceCache::new();
    let flags = EvalFlags { code: b"6*7".to_vec(), print: true };
    eval_command(&mut with_print, entry(), no_permissions(), flags).unwrap();

    let mut without_print = SourceCache::new();
    let wrapped = EvalFlags { code: b"console.log(6*7)".to_vec(), print: false };
    eval_command(&mut without_print, entry(), no_permissions(), wrapped).unwrap();

    let spec = entry();
    let a = with_print.lookup(&spec).unwrap();
    let b = without_print.lookup(&spec).unwrap();
    assert_eq!(a.body, b.body);
    assert_eq!(a.content_kind, b.content_kind);
    assert_eq!(a.local_path, b.local_path);
}

#[test]
fn invalid_stdin_bytes_fail_before_any_worker() {
    let mut cache = SourceCache::new();
    let result = run_from_stdin(&mut cache, entry(), no_permissions(), vec![0x63, 0xff, 0xfe]);
    assert!(matches!(result, Err(RunError::Decode)));
    let spec = entry();
    assert!(cache.lookup(&spec).is_none());
}

#[test]
fn invalid_permission_configuration_is_a_config_error() {
    let bad = PermissionOptions {
        allow_all: false,
        allow_read: None,
        allow_write: None,
        allow_net: Some(vec![Vec::new()]),
    };
    let mut cache = SourceCache::new();
    let result = run_from_stdin(&mut cache, entry(), bad, b"1".to_vec());
    assert!(matches!(result, Err(RunError::Config)));
    let spec = entry();
    assert!(cache.lookup(&spec).is_none());
}

#[test]
fn trailing_permission_flag_warns_once_and_run_proceeds() {
    let flags = Flags {
        permissions: no_permissions(),
        script_args: vec![b"--allow-read=.".to_vec()],
        watch: None,
    };
    let plan = run_script(&flags);
    assert!(plan.warn);
    assert!(matches!(plan.mode, RunMode::Once));

    let session = start_file_run(entry(), no_permissions()).unwrap();
    assert_eq!(session.conclude(AttemptOutcome::Exited(0)), Ok(0));
}

#[test]
fn configured_permissions_silence_the_advisory() {
    let flags = Flags {
        permissions: PermissionOptions {
            allow_all: false,
            allow_read: Some(Vec::new()),
            allow_write: None,
            allow_net: None,
        },
        script_args: vec![b"--allow-read=.".to_vec()],
        watch: None,
    };
    assert!(!run_script(&flags).warn);
}

#[test]
fn plain_script_args_do_not_warn() {
    let flags = Flags {
        permissions: no_permissions(),
        script_args: vec![b"input.txt".to_vec(), b"--verbose".to_vec()],
        watch: None,
    };
    assert!(!run_script(&flags).warn);
}

#[test]
fn watch_request_delegates_to_the_supervisor() {
    let flags = Flags {
        permissions: no_permissions(),
        script_args: Vec::new(),
        watch: Some(WatchFlags { no_clear_screen: false }),
    };
    let plan = run_script(&flags);
    assert!(matches!(plan.mode, RunMode::Watch { clear_screen: true }));

    let no_clear = Flags {
        permissions: no_permissions(),
        script_args: Vec::new(),
        watch: Some(WatchFlags { no_clear_screen: true }),
    };
    assert!(matches!(run_script(&no_clear).mode, RunMode::Watch { clear_screen: false }));
}
