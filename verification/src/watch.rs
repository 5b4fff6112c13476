//! The watch supervisor.
//!
//! A restart-on-change control loop, modelled as an explicit state machine.
//! The loop around it (channel reads, cancelling and awaiting the worker)
//! is outside work; it feeds every observation in as a [`WatchEvent`] and
//! performs the [`WatchCommand`] handed back.  The machine decides when a
//! fresh attempt is built, numbers the permission grant of every attempt,
//! and stops only when the change channel closes or the factory itself
//! fails — never spontaneously.

use vstd::prelude::*;

use crate::errors::RunError;
use crate::session::AttemptOutcome;

verus! {

/// One observation the outside loop feeds in.
#[derive(Clone, Copy, Debug, PartialEq, Eq, Structural)]
pub enum WatchEvent {
    /// The factory produced a fresh attempt, ready to run.
    BuildReady,
    /// The factory itself failed: there is no program left to re-run.
    BuildFatal,
    /// The fresh attempt's worker could not be constructed.
    CreationFailed,
    /// The running attempt finished normally.
    RunFinished,
    /// The running attempt failed while executing.
    RunFailed,
    /// A change notification arrived on the channel.
    FileChanged,
    /// The change channel closed.
    ChannelClosed,
}

/// Where the supervisor stands.
#[derive(Clone, Copy, Debug, PartialEq, Eq, Structural)]
pub enum WatchPhase {
    /// The factory is building a fresh attempt.
    Building,
    /// An attempt is executing.
    Running,
    /// The last attempt is over; only a change can start another.
    AwaitingChange,
    /// The loop is over; `fatal` tells a clean close from a factory failure.
    Ended { fatal: bool },
}

/// The supervisor's whole state: its phase, how many attempts it has sent
/// to the factory so far, and whether the display is cleared on restart.
pub struct WatchState {
    pub phase: WatchPhase,
    pub issued: u64,
    pub clear_screen: bool,
}

/// What the outside loop must do next.
#[derive(Clone, Copy, Debug, PartialEq, Eq, Structural)]
pub enum WatchCommand {
    /// Run the freshly built attempt.
    StartRun,
    /// Report the attempt's failure, then wait for the next change.
    Report,
    /// Wait for the next change.
    Wait,
    /// Cancel whatever is in flight, clear the display if asked to, and
    /// build a fresh attempt whose grant carries this number.
    Rebuild { grant_id: u64, clear: bool },
    /// Stop the loop.
    Halt { fatal: bool },
}

/// The state a watch invocation starts in: the first attempt (grant number
/// 0) is already on its way to the factory.
pub open spec fn initial_watch_state(clear_screen: bool) -> WatchState {
    WatchState { phase: WatchPhase::Building, issued: 1, clear_screen }
}

/// Which events can reach the supervisor in which phase; the outside loop
/// never delivers anything else.
pub open spec fn event_fits(s: WatchState, e: WatchEvent) -> bool {
    &&& match s.phase {
        WatchPhase::Building => e is BuildReady || e is BuildFatal || e is CreationFailed
            || e is ChannelClosed,
        WatchPhase::Running => e is RunFinished || e is RunFailed || e is FileChanged
            || e is ChannelClosed,
        WatchPhase::AwaitingChange => e is FileChanged || e is ChannelClosed,
        WatchPhase::Ended { .. } => false,
    }
    &&& (e is FileChanged ==> s.issued < u64::MAX)
}

/// The state after one event.
pub open spec fn step_state(s: WatchState, e: WatchEvent) -> WatchState {
    if s.phase is Ended {
        s
    } else {
        match e {
            WatchEvent::ChannelClosed => WatchState {
                phase: WatchPhase::Ended { fatal: false },
                issued: s.issued,
                clear_screen: s.clear_screen,
            },
            WatchEvent::BuildFatal => if s.phase is Building {
                WatchState {
                    phase: WatchPhase::Ended { fatal: true },
                    issued: s.issued,
                    clear_screen: s.clear_screen,
                }
            } else {
                s
            },
            WatchEvent::BuildReady => if s.phase is Building {
                WatchState {
                    phase: WatchPhase::Running,
                    issued: s.issued,
                    clear_screen: s.clear_screen,
                }
            } else {
                s
            },
            WatchEvent::CreationFailed => if s.phase is Building {
                WatchState {
                    phase: WatchPhase::AwaitingChange,
                    issued: s.issued,
                    clear_screen: s.clear_screen,
                }
            } else {
                s
            },
            WatchEvent::RunFinished | WatchEvent::RunFailed => if s.phase is Running {
                WatchState {
                    phase: WatchPhase::AwaitingChange,
                    issued: s.issued,
                    clear_screen: s.clear_screen,
                }
            } else {
                s
            },
            WatchEvent::FileChanged => if (s.phase is Running || s.phase is AwaitingChange)
                && s.issued < u64::MAX {
                WatchState {
                    phase: WatchPhase::Building,
                    issued: (s.issued + 1) as u64,
                    clear_screen: s.clear_screen,
                }
            } else {
                s
            },
        }
    }
}

/// The command one event provokes (meaningful under [`event_fits`]).
pub open spec fn step_cmd(s: WatchState, e: WatchEvent) -> WatchCommand {
    match e {
        WatchEvent::BuildReady => WatchCommand::StartRun,
        WatchEvent::BuildFatal => WatchCommand::Halt { fatal: true },
        WatchEvent::CreationFailed => WatchCommand::Report,
        WatchEvent::RunFinished => WatchCommand::Wait,
        WatchEvent::RunFailed => WatchCommand::Report,
        WatchEvent::FileChanged => WatchCommand::Rebuild {
            grant_id: s.issued,
            clear: s.clear_screen,
        },
        WatchEvent::ChannelClosed => WatchCommand::Halt { fatal: false },
    }
}

impl WatchState {
    /// Enter the loop: the display configuration is fixed for its lifetime
    /// and the first attempt — grant number 0 — goes to the factory now.
    pub fn enter(clear_screen: bool) -> (s: WatchState)
        ensures
            s == initial_watch_state(clear_screen),
    {
        WatchState { phase: WatchPhase::Building, issued: 1, clear_screen }
    }

    /// The grant number of the attempt currently being built.
    pub fn building_grant_id(&self) -> (id: u64)
        requires
            self.phase is Building,
            self.issued >= 1,
        ensures
            id == self.issued - 1,
    {
        self.issued - 1
    }

    /// Feed one observation in; the result tells the outside loop what to
    /// do next.  Each change notification cancels whatever was in flight
    /// and numbers a fresh attempt; nothing but channel closure or a
    /// factory failure ends the loop.
    pub fn step(&mut self, event: WatchEvent) -> (cmd: WatchCommand)
        requires
            event_fits(*old(self), event),
        ensures
            *final(self) == step_state(*old(self), event),
            cmd == step_cmd(*old(self), event),
    {
        match event {
            WatchEvent::BuildReady => {
                self.phase = WatchPhase::Running;
                WatchCommand::StartRun
            },
            WatchEvent::BuildFatal => {
                self.phase = WatchPhase::Ended { fatal: true };
                WatchCommand::Halt { fatal: true }
            },
            WatchEvent::CreationFailed => {
                self.phase = WatchPhase::AwaitingChange;
                WatchCommand::Report
            },
            WatchEvent::RunFinished => {
                self.phase = WatchPhase::AwaitingChange;
                WatchCommand::Wait
            },
            WatchEvent::RunFailed => {
                self.phase = WatchPhase::AwaitingChange;
                WatchCommand::Report
            },
            WatchEvent::FileChanged => {
                let id: u64 = self.issued;
                self.issued = id + 1;
                self.phase = WatchPhase::Building;
                WatchCommand::Rebuild { grant_id: id, clear: self.clear_screen }
            },
            WatchEvent::ChannelClosed => {
                self.phase = WatchPhase::Ended { fatal: false };
                WatchCommand::Halt { fatal: false }
            },
        }
    }

    /// What the whole watch invocation reports once the loop has ended.
    /// A cleanly closed channel is success — watch mode is long-running
    /// and deliberately has no terminal exit code of its own, so it hands
    /// 0 back regardless of any attempt's outcome.  A factory failure
    /// means there was no program left to re-run.
    pub fn conclude(self) -> (r: Result<i32, RunError>)
        requires
            self.phase is Ended,
        ensures
            self.phase matches WatchPhase::Ended { fatal } ==> r == (if fatal {
                Err::<i32, RunError>(RunError::Resolution)
            } else {
                Ok::<i32, RunError>(0)
            }),
    {
        match self.phase {
            WatchPhase::Ended { fatal: true } => Err(RunError::Resolution),
            _ => Ok(0),
        }
    }
}

/// How a finished attempt steers the supervisor.  The exit code of a
/// completed run is deliberately discarded here: in watch mode completion
/// and failure only decide whether anything is reported before the loop
/// waits for the next change.
pub fn event_for_outcome(outcome: AttemptOutcome) -> (e: WatchEvent)
    ensures
        outcome is Exited ==> e == WatchEvent::RunFinished,
        outcome is Crashed ==> e == WatchEvent::RunFailed,
        outcome is CreationFailed ==> e == WatchEvent::CreationFailed,
{
    match outcome {
        AttemptOutcome::Exited(_) => WatchEvent::RunFinished,
        AttemptOutcome::Crashed => WatchEvent::RunFailed,
        AttemptOutcome::CreationFailed => WatchEvent::CreationFailed,
    }
}

/// The state after a whole sequence of events.
pub open spec fn watch_trace(s: WatchState, es: Seq<WatchEvent>) -> WatchState
    decreases es.len(),
{
    if es.len() == 0 {
        s
    } else {
        watch_trace(step_state(s, es[0]), es.drop_first())
    }
}

/// Every event of the sequence fits the phase it meets.
pub open spec fn trace_fits(s: WatchState, es: Seq<WatchEvent>) -> bool
    decreases es.len(),
{
    es.len() == 0 || (event_fits(s, es[0]) && trace_fits(step_state(s, es[0]), es.drop_first()))
}

/// How many change notifications the sequence carries.
pub open spec fn change_count(es: Seq<WatchEvent>) -> nat
    decreases es.len(),
{
    if es.len() == 0 {
        0
    } else {
        (if es[0] is FileChanged {
            1nat
        } else {
            0nat
        }) + change_count(es.drop_first())
    }
}

/// No event of the sequence ends the loop.
pub open spec fn no_terminator(es: Seq<WatchEvent>) -> bool {
    forall|i: int| 0 <= i < es.len() ==> !((#[trigger] es[i]) is ChannelClosed) && !(es[i]
        is BuildFatal)
}

/// A one-event trace is a single step.
proof fn lemma_trace_singleton(s: WatchState, e: WatchEvent)
    ensures
        watch_trace(s, seq![e]) == step_state(s, e),
        trace_fits(s, seq![e]) == event_fits(s, e),
{
    reveal_with_fuel(watch_trace, 2);
    reveal_with_fuel(trace_fits, 2);
    assert(seq![e][0] == e);
    assert(seq![e].drop_first() =~= Seq::<WatchEvent>::empty());
}

/// Folding a trace distributes over concatenation.
proof fn lemma_trace_append(s: WatchState, a: Seq<WatchEvent>, b: Seq<WatchEvent>)
    ensures
        watch_trace(s, a + b) == watch_trace(watch_trace(s, a), b),
        trace_fits(s, a + b) == (trace_fits(s, a) && trace_fits(watch_trace(s, a), b)),
    decreases a.len(),
{
    if a.len() == 0 {
        assert(a + b =~= b);
    } else {
        assert((a + b)[0] == a[0]);
        assert((a + b).drop_first() =~= a.drop_first() + b);
        lemma_trace_append(step_state(s, a[0]), a.drop_first(), b);
    }
}

/// A step never lowers the attempt counter.
proof fn lemma_issued_monotone(s: WatchState, es: Seq<WatchEvent>)
    ensures
        s.issued <= watch_trace(s, es).issued,
    decreases es.len(),
{
    if es.len() > 0 {
        lemma_issued_monotone(step_state(s, es[0]), es.drop_first());
    }
}

/// While nothing ends the loop, the supervisor keeps going and has sent
/// exactly one attempt per change notification to the factory, on top of
/// the ones it had already issued.
proof fn lemma_watch_progress(s: WatchState, es: Seq<WatchEvent>)
    requires
        trace_fits(s, es),
        !(s.phase is Ended),
        no_terminator(es),
    ensures
        !(watch_trace(s, es).phase is Ended),
        watch_trace(s, es).issued == s.issued + change_count(es),
        watch_trace(s, es).clear_screen == s.clear_screen,
    decreases es.len(),
{
    if es.len() > 0 {
        let s1 = step_state(s, es[0]);
        assert(!(es[0] is ChannelClosed) && !(es[0] is BuildFatal));
        assert forall|i: int|
            0 <= i < es.drop_first().len() implies !((#[trigger] es.drop_first()[i])
            is ChannelClosed) && !(es.drop_first()[i] is BuildFatal) by {
            assert(es.drop_first()[i] == es[i + 1]);
        }
        lemma_watch_progress(s1, es.drop_first());
    }
}

/// Restart-on-change law: over any well-formed event sequence in which
/// nothing closes the channel or breaks the factory, a supervision that
/// started with attempt 0 has handed the factory exactly one initial
/// attempt plus one per change notification — at least `n + 1` builds for
/// `n` changes — and has not stopped.
pub proof fn lemma_watch_build_count(clear_screen: bool, es: Seq<WatchEvent>)
    requires
        trace_fits(initial_watch_state(clear_screen), es),
        no_terminator(es),
    ensures
        watch_trace(initial_watch_state(clear_screen), es).issued == 1 + change_count(es),
        !(watch_trace(initial_watch_state(clear_screen), es).phase is Ended),
{
    lemma_watch_progress(initial_watch_state(clear_screen), es);
}

/// Closure law: after any such sequence, closing the channel — and only
/// that — ends the supervision, cleanly.
pub proof fn lemma_watch_ends_on_closure(clear_screen: bool, es: Seq<WatchEvent>)
    requires
        trace_fits(initial_watch_state(clear_screen), es),
        no_terminator(es),
    ensures
        trace_fits(initial_watch_state(clear_screen), es.push(WatchEvent::ChannelClosed)),
        watch_trace(initial_watch_state(clear_screen), es.push(WatchEvent::ChannelClosed)).phase
            == (WatchPhase::Ended { fatal: false }),
{
    let s0 = initial_watch_state(clear_screen);
    lemma_watch_progress(s0, es);
    assert(es.push(WatchEvent::ChannelClosed) =~= es + seq![WatchEvent::ChannelClosed]);
    lemma_trace_append(s0, es, seq![WatchEvent::ChannelClosed]);
    lemma_trace_singleton(watch_trace(s0, es), WatchEvent::ChannelClosed);
}

/// The grant number a rebuild command carries (or -1 for the others).
pub open spec fn rebuild_grant(c: WatchCommand) -> int {
    match c {
        WatchCommand::Rebuild { grant_id, .. } => grant_id as int,
        _ => -1,
    }
}

/// Cancellation safety: whenever two change notifications each provoke a
/// rebuild — even when the earlier attempt was still mid-execution when it
/// was cancelled — the later rebuild's grant number is strictly larger, so
/// no attempt ever runs under a reused grant.
pub proof fn lemma_watch_grants_fresh(clear_screen: bool, es: Seq<WatchEvent>, i: int, j: int)
    requires
        trace_fits(initial_watch_state(clear_screen), es),
        0 <= i < j < es.len(),
        es[i] is FileChanged,
        es[j] is FileChanged,
    ensures
        rebuild_grant(step_cmd(watch_trace(initial_watch_state(clear_screen), es.take(i)), es[i]))
            < rebuild_grant(
            step_cmd(watch_trace(initial_watch_state(clear_screen), es.take(j)), es[j]),
        ),
{
    let s0 = initial_watch_state(clear_screen);
    lemma_trace_fits_prefix(s0, es, j + 1);
    lemma_trace_fits_prefix(s0, es.take(j + 1), i + 1);
    assert(es.take(j + 1).take(i + 1) =~= es.take(i + 1));

    let si = watch_trace(s0, es.take(i));
    let sj = watch_trace(s0, es.take(j));

    assert(es.take(i + 1) =~= es.take(i) + seq![es[i]]);
    lemma_trace_append(s0, es.take(i), seq![es[i]]);
    lemma_trace_singleton(si, es[i]);
    assert(event_fits(si, es[i]));
    assert(watch_trace(s0, es.take(i + 1)) == step_state(si, es[i]));
    assert(step_state(si, es[i]).issued == si.issued + 1);

    assert(es.take(j) =~= es.take(i + 1) + es.subrange(i + 1, j));
    lemma_trace_append(s0, es.take(i + 1), es.subrange(i + 1, j));
    lemma_issued_monotone(watch_trace(s0, es.take(i + 1)), es.subrange(i + 1, j));
    assert(sj.issued >= si.issued + 1);
}

/// A trace that fits does so along every prefix.
proof fn lemma_trace_fits_prefix(s: WatchState, es: Seq<WatchEvent>, k: int)
    requires
        trace_fits(s, es),
        0 <= k <= es.len(),
    ensures
        trace_fits(s, es.take(k)),
    decreases es.len(),
{
    if k > 0 && es.len() > 0 {
        assert(es.take(k)[0] == es[0]);
        assert(es.take(k).drop_first() =~= es.drop_first().take(k - 1));
        lemma_trace_fits_prefix(step_state(s, es[0]), es.drop_first(), k - 1);
    }
}

} // verus!
