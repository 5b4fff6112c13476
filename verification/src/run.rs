//! The run command façade.
//!
//! Three entry points share one execution-session contract: run a file,
//! run whatever standard input held, run an inline code string.  Each one
//! decides the same way — warn about misplaced permission flags, build a
//! fresh grant, inject a virtual source when the program did not come from
//! disk, and hand a ready [`ExecutionSession`] to the outside worker.  The
//! file variant alone can be put under a watch supervisor instead; the two
//! injected variants have no stable input to watch.

use vstd::prelude::*;

use crate::errors::RunError;
use crate::permissions::PermissionOptions;
use crate::permissions::build_permissions;
use crate::permissions::grant_spec;
use crate::permissions::has_permission;
use crate::permissions::options_valid;
use crate::session::ExecutionSession;
use crate::source::ContentKind;
use crate::source::RecordView;
use crate::source::SourceCache;
use crate::source::inject;
use crate::source::injected_record;
use crate::source::is_file_url;
use crate::source::local_path_of;
use crate::utf8::is_utf8;

verus! {

/// The grant number of the single attempt of a non-watch run.  Watch
/// iterations number their grants from here upward.
pub const FIRST_ATTEMPT: u64 = 0;

/// Watch configuration of a file run.
pub struct WatchFlags {
    pub no_clear_screen: bool,
}

/// Configuration of an eval run: the inline code and whether its value is
/// printed.
pub struct EvalFlags {
    pub code: Vec<u8>,
    pub print: bool,
}

/// What the front end parsed: the permission configuration, the tokens
/// that stood after the program argument, and the watch request, if any.
pub struct Flags {
    pub permissions: PermissionOptions,
    pub script_args: Vec<Vec<u8>>,
    pub watch: Option<WatchFlags>,
}

/// The bytes of `--allow-`, the prefix of every permission flag.
pub open spec fn permission_flag_prefix() -> Seq<u8> {
    seq![45u8, 45u8, 97u8, 108u8, 108u8, 111u8, 119u8, 45u8]
}

/// `t` looks like a permission flag.
pub open spec fn is_permission_token(t: Seq<u8>) -> bool {
    t.len() >= 8 && t.take(8) == permission_flag_prefix()
}

/// Some token after the program argument looks like a permission flag.
pub open spec fn any_permission_token(args: Seq<Seq<u8>>) -> bool {
    exists|i: int| 0 <= i < args.len() && is_permission_token(#[trigger] args[i])
}

/// The advisory is owed: no permission was actually configured, yet a
/// permission-looking flag trails the program argument — the common misuse
/// that silently grants nothing.
pub open spec fn should_warn(f: Flags) -> bool {
    !has_permission(f.permissions) && any_permission_token(
        f.script_args@.map_values(|t: Vec<u8>| t@),
    )
}

/// `t` looks like a permission flag, executably.
fn check_permission_token(t: &Vec<u8>) -> (r: bool)
    ensures
        r == is_permission_token(t@),
{
    if t.len() < 8 {
        return false;
    }
    let ok: bool = t[0] == 45 && t[1] == 45 && t[2] == 97 && t[3] == 108 && t[4] == 108 && t[5]
        == 111 && t[6] == 119 && t[7] == 45;
    proof {
        if ok {
            assert(t@.take(8) =~= permission_flag_prefix());
        } else {
            assert(t@.take(8) != permission_flag_prefix()) by {
                if t@.take(8) == permission_flag_prefix() {
                    assert(forall|j: int| 0 <= j < 8 ==> t@[j] == #[trigger] t@.take(8)[j]);
                }
            }
        }
    }
    ok
}

/// Decide whether the one-time advisory about misplaced permission flags
/// is owed.  A diagnostic only: whatever it says, the run proceeds with the
/// permissions that were actually configured.
pub fn misplaced_permission_warning(flags: &Flags) -> (r: bool)
    ensures
        r == should_warn(*flags),
{
    let configured: bool = flags.permissions.allow_all || flags.permissions.allow_read.is_some()
        || flags.permissions.allow_write.is_some() || flags.permissions.allow_net.is_some();
    if configured {
        return false;
    }
    let ghost args = flags.script_args@.map_values(|t: Vec<u8>| t@);
    let n: usize = flags.script_args.len();
    let mut i: usize = 0;
    while i < n
        invariant
            0 <= i <= n,
            n == flags.script_args@.len(),
            args == flags.script_args@.map_values(|t: Vec<u8>| t@),
            !has_permission(flags.permissions),
            forall|j: int| 0 <= j < i ==> !is_permission_token(#[trigger] args[j]),
        decreases n - i,
    {
        if check_permission_token(&flags.script_args[i]) {
            proof {
                assert(args.len() == n as int);
                assert(args[i as int] == flags.script_args@[i as int]@);
                assert(is_permission_token(args[i as int]));
                assert(any_permission_token(args));
            }
            return true;
        }
        i = i + 1;
    }
    false
}

/// How a file run executes: once, or under the watch supervisor.
pub enum RunMode {
    /// Hand control to the watch supervisor, clearing the display between
    /// iterations unless that was switched off.
    Watch { clear_screen: bool },
    /// One attempt; its exit code is the process result.
    Once,
}

/// Everything `run_script` decides before any worker exists.
pub struct RunPlan {
    pub warn: bool,
    pub mode: RunMode,
}

/// Entry point for a file run: decide the advisory and pick between one
/// attempt and watch supervision.  Watch requests delegate the whole run
/// to the supervisor; everything else becomes a single attempt started
/// with [`start_file_run`].
pub fn run_script(flags: &Flags) -> (plan: RunPlan)
    ensures
        plan.warn == should_warn(*flags),
        flags.watch matches Some(w) ==> plan.mode == (RunMode::Watch {
            clear_screen: !w.no_clear_screen,
        }),
        flags.watch is None ==> plan.mode == RunMode::Once,
{
    let warn = misplaced_permission_warning(flags);
    let mode = match &flags.watch {
        Some(w) => RunMode::Watch { clear_screen: !w.no_clear_screen },
        None => RunMode::Once,
    };
    RunPlan { warn, mode }
}

/// The non-watch path of a file run: build the one grant of the single
/// attempt and bind it to the resolved entry point.  Succeeds exactly on
/// valid permission configurations; nothing is injected — the program is a
/// real file.
pub fn start_file_run(entry_point: Vec<u8>, permissions: PermissionOptions) -> (r: Result<
    ExecutionSession,
    RunError,
>)
    ensures
        options_valid(permissions) ==> (r matches Ok(s) && s.entry_point@ == entry_point@
            && s.grant@ == grant_spec(permissions, FIRST_ATTEMPT as int)),
        !options_valid(permissions) ==> r == Err::<ExecutionSession, RunError>(RunError::Config),
{
    let grant = match build_permissions(permissions, FIRST_ATTEMPT) {
        Ok(g) => g,
        Err(e) => {
            return Err(e);
        },
    };
    Ok(ExecutionSession::new(entry_point, grant))
}

/// The factory of one watch iteration: a completely fresh attempt whose
/// grant carries the number the supervisor issued.  No state of any earlier
/// attempt is reused.
pub fn build_watch_attempt(
    entry_point: Vec<u8>,
    permissions: PermissionOptions,
    grant_id: u64,
) -> (r: Result<ExecutionSession, RunError>)
    ensures
        options_valid(permissions) ==> (r matches Ok(s) && s.entry_point@ == entry_point@
            && s.grant@ == grant_spec(permissions, grant_id as int)),
        !options_valid(permissions) ==> r == Err::<ExecutionSession, RunError>(RunError::Config),
{
    let grant = match build_permissions(permissions, grant_id) {
        Ok(g) => g,
        Err(e) => {
            return Err(e);
        },
    };
    Ok(ExecutionSession::new(entry_point, grant))
}

/// Entry point for a standard-input run: the buffered input becomes a
/// virtual typed-script file at the resolved entry specifier, and the run
/// then proceeds exactly like a one-shot file run of that specifier.
///
/// The grant is built first; input that is not valid text is a hard
/// decode error that leaves the cache untouched and creates no session.
pub fn run_from_stdin(
    cache: &mut SourceCache,
    entry_point: Vec<u8>,
    permissions: PermissionOptions,
    stdin_bytes: Vec<u8>,
) -> (r: Result<ExecutionSession, RunError>)
    requires
        is_file_url(entry_point@),
    ensures
        !options_valid(permissions) ==> r == Err::<ExecutionSession, RunError>(RunError::Config)
            && final(cache)@ == old(cache)@,
        options_valid(permissions) && !is_utf8(stdin_bytes@) ==> r == Err::<
            ExecutionSession,
            RunError,
        >(RunError::Decode) && final(cache)@ == old(cache)@,
        options_valid(permissions) && is_utf8(stdin_bytes@) ==> (r matches Ok(s)
            && s.entry_point@ == entry_point@ && s.grant@ == grant_spec(
            permissions,
            FIRST_ATTEMPT as int,
        ) && final(cache)@ == old(cache)@.insert(
            entry_point@,
            injected_record(entry_point@, stdin_bytes@, ContentKind::TypedScript),
        )),
{
    let grant = match build_permissions(permissions, FIRST_ATTEMPT) {
        Ok(g) => g,
        Err(e) => {
            return Err(e);
        },
    };
    match inject(cache, &entry_point, stdin_bytes, ContentKind::TypedScript) {
        Ok(_) => {},
        Err(e) => {
            return Err(e);
        },
    }
    Ok(ExecutionSession::new(entry_point, grant))
}

/// The bytes of `console.log(`.
pub open spec fn console_log_prefix() -> Seq<u8> {
    seq![99u8, 111u8, 110u8, 115u8, 111u8, 108u8, 101u8, 46u8, 108u8, 111u8, 103u8, 40u8]
}

/// `code`, wrapped in an expression that prints its value.
pub open spec fn wrapped_in_print(code: Seq<u8>) -> Seq<u8> {
    console_log_prefix() + code + seq![41u8]
}

/// The text an eval run actually injects: the code itself, or — in print
/// mode — the code wrapped so its value is printed.
pub open spec fn eval_source(code: Seq<u8>, print: bool) -> Seq<u8> {
    if print {
        wrapped_in_print(code)
    } else {
        code
    }
}

/// Compute the effective source text of an eval run.
pub fn effective_eval_source(code: Vec<u8>, print: bool) -> (r: Vec<u8>)
    ensures
        r@ == eval_source(code@, print),
{
    if !print {
        return code;
    }
    let mut r: Vec<u8> = Vec::new();
    r.push(99);
    r.push(111);
    r.push(110);
    r.push(115);
    r.push(111);
    r.push(108);
    r.push(101);
    r.push(46);
    r.push(108);
    r.push(111);
    r.push(103);
    r.push(40);
    proof {
        assert(r@ =~= console_log_prefix());
    }
    let n: usize = code.len();
    let mut i: usize = 0;
    while i < n
        invariant
            0 <= i <= n,
            n == code@.len(),
            r@ =~= console_log_prefix() + code@.take(i as int),
        decreases n - i,
    {
        r.push(code[i]);
        i = i + 1;
    }
    r.push(41);
    proof {
        assert(r@ =~= wrapped_in_print(code@));
    }
    r
}

/// Entry point for an eval run: the effective source — wrapped when print
/// mode is on — becomes a virtual file of unclassified text at the resolved
/// entry specifier, and one attempt runs it.
pub fn eval_command(
    cache: &mut SourceCache,
    entry_point: Vec<u8>,
    permissions: PermissionOptions,
    eval_flags: EvalFlags,
) -> (r: Result<ExecutionSession, RunError>)
    requires
        is_file_url(entry_point@),
    ensures
        !options_valid(permissions) ==> r == Err::<ExecutionSession, RunError>(RunError::Config)
            && final(cache)@ == old(cache)@,
        options_valid(permissions) && !is_utf8(eval_source(eval_flags.code@, eval_flags.print))
            ==> r == Err::<ExecutionSession, RunError>(RunError::Decode) && final(cache)@ == old(
            cache,
        )@,
        options_valid(permissions) && is_utf8(eval_source(eval_flags.code@, eval_flags.print))
            ==> (r matches Ok(s) && s.entry_point@ == entry_point@ && s.grant@ == grant_spec(
            permissions,
            FIRST_ATTEMPT as int,
        ) && final(cache)@ == old(cache)@.insert(
            entry_point@,
            injected_record(
                entry_point@,
                eval_source(eval_flags.code@, eval_flags.print),
                ContentKind::Unclassified,
            ),
        )),
{
    let grant = match build_permissions(permissions, FIRST_ATTEMPT) {
        Ok(g) => g,
        Err(e) => {
            return Err(e);
        },
    };
    let source = effective_eval_source(eval_flags.code, eval_flags.print);
    match inject(cache, &entry_point, source, ContentKind::Unclassified) {
        Ok(_) => {},
        Err(e) => {
            return Err(e);
        },
    }
    Ok(ExecutionSession::new(entry_point, grant))
}

/// Source-cache indirection law: after a standard-input run of `text`, the
/// entry specifier resolves to a record carrying exactly `text`, typed as a
/// full script, at exactly the local path a real file behind that specifier
/// would have — so resolution cannot tell the run from one of a file with
/// the same contents.  The session itself is already the one a direct file
/// run starts: `run_from_stdin` and `start_file_run` promise it the same
/// entry point and the same first-attempt grant.
pub proof fn lemma_stdin_run_is_file_run(
    cache: Map<Seq<u8>, RecordView>,
    entry: Seq<u8>,
    text: Seq<u8>,
)
    ensures
        cache.insert(entry, injected_record(entry, text, ContentKind::TypedScript)).contains_key(
            entry,
        ),
        cache.insert(entry, injected_record(entry, text, ContentKind::TypedScript))[entry]
            == injected_record(entry, text, ContentKind::TypedScript),
        injected_record(entry, text, ContentKind::TypedScript).body == text,
        injected_record(entry, text, ContentKind::TypedScript).local_path == local_path_of(entry),
        injected_record(entry, text, ContentKind::TypedScript).specifier == entry,
{
}

/// Wrapping equivalence: an eval run of `code` with print mode on injects
/// exactly what an eval run of the already-wrapped text injects with print
/// mode off — same record, same cache, so the two behave identically.
pub proof fn lemma_eval_print_wrapping(code: Seq<u8>, specifier: Seq<u8>)
    ensures
        eval_source(code, true) == eval_source(wrapped_in_print(code), false),
        injected_record(specifier, eval_source(code, true), ContentKind::Unclassified)
            == injected_record(
            specifier,
            eval_source(wrapped_in_print(code), false),
            ContentKind::Unclassified,
        ),
{
}

} // verus!
