//! The run of the whole tool: one pass up front, then, in watch mode, one pass
//! per change of the source that clears the debounce gate.
use vstd::prelude::*;

verus! {

/// Minimum time, in milliseconds, between the end of a triggered pass and the
/// next change that may trigger another.
pub const DEBOUNCE_MS: u64 = 500;

/// Where the session stands.
#[derive(Clone, Copy, Debug, PartialEq, Eq, Structural)]
pub enum Phase {
    /// Nothing has run yet.
    Start,
    /// The first pass is running.
    FirstPass,
    /// Waiting for a change of the source.
    Listening,
    /// A pass triggered by a change is running.
    Triggered,
    /// The session is over.
    Finished,
}

/// What happened, as reported by the caller. Times are milliseconds on one
/// monotonic clock.
#[derive(Clone, Copy, Debug, PartialEq, Eq, Structural)]
pub enum Event {
    /// The tool has started.
    Started,
    /// A pass of the pipeline has returned.
    PassDone { now_ms: u64 },
    /// The watcher reported a change of the source.
    Changed { now_ms: u64 },
    /// Receiving from the watcher failed.
    ReceiveFailed,
}

/// What the caller is to do next.
#[derive(Clone, Copy, Debug, PartialEq, Eq, Structural)]
pub enum Action {
    /// Run one pass of the pipeline, then report `PassDone`.
    RunPass,
    /// Subscribe to changes of the source, then wait for the next one.
    Subscribe,
    /// Wait for the next change.
    Listen,
    /// Report that receiving failed, then wait for the next change.
    ReportError,
    /// End the process.
    Exit,
}

/// The state of a session. `clock_ms` is the debounce clock: the time at
/// which the last pass returned (or at which a triggered pass began, while it runs).
#[derive(Clone, Copy, Debug, PartialEq, Eq, Structural)]
pub struct Session {
    pub watch: bool,
    pub phase: Phase,
    pub clock_ms: u64,
}

/// Whether a change at `now` clears the debounce gate whose clock reads `clock`.
/// A time before the clock counts as no time elapsed.
pub open spec fn clears_gate(clock: int, now: int) -> bool {
    now - clock >= DEBOUNCE_MS as int
}

/// The next state and action when `e` happens in state `s`. Events that
/// cannot arrive in a phase leave the state as it is.
pub open spec fn step_spec(s: Session, e: Event) -> (Session, Action) {
    match (s.phase, e) {
        (Phase::Start, Event::Started) => (Session { phase: Phase::FirstPass, ..s }, Action::RunPass),
        (Phase::FirstPass, Event::PassDone { now_ms }) => if s.watch {
            (Session { phase: Phase::Listening, clock_ms: now_ms, ..s }, Action::Subscribe)
        } else {
            (Session { phase: Phase::Finished, ..s }, Action::Exit)
        },
        (Phase::Listening, Event::Changed { now_ms }) => if clears_gate(
            s.clock_ms as int,
            now_ms as int,
        ) {
            (Session { phase: Phase::Triggered, clock_ms: now_ms, ..s }, Action::RunPass)
        } else {
            (s, Action::Listen)
        },
        (Phase::Listening, Event::ReceiveFailed) => (s, Action::ReportError),
        (Phase::Triggered, Event::PassDone { now_ms }) => (
            Session { phase: Phase::Listening, clock_ms: now_ms, ..s },
            Action::Listen,
        ),
        (Phase::Finished, _) => (s, Action::Exit),
        (Phase::Start, _) => (s, Action::Listen),
        (Phase::FirstPass, _) => (s, Action::Listen),
        (Phase::Triggered, _) => (s, Action::Listen),
        (Phase::Listening, _) => (s, Action::Listen),
    }
}

/// The state after the events `evs`, from `s`.
pub open spec fn state_after(s: Session, evs: Seq<Event>) -> Session
    decreases evs.len(),
{
    if evs.len() == 0 {
        s
    } else {
        state_after(step_spec(s, evs[0]).0, evs.drop_first())
    }
}

/// The actions asked for along the events `evs`, from `s`.
pub open spec fn actions(s: Session, evs: Seq<Event>) -> Seq<Action>
    decreases evs.len(),
{
    if evs.len() == 0 {
        Seq::empty()
    } else {
        seq![step_spec(s, evs[0]).1] + actions(step_spec(s, evs[0]).0, evs.drop_first())
    }
}

/// How many passes `acts` runs.
pub open spec fn passes(acts: Seq<Action>) -> nat
    decreases acts.len(),
{
    if acts.len() == 0 {
        0
    } else {
        (if acts[0] == Action::RunPass {
            1nat
        } else {
            0nat
        }) + passes(acts.drop_first())
    }
}

/// The times of the changes along `evs`, from `s`, that triggered a pass.
pub open spec fn trigger_times(s: Session, evs: Seq<Event>) -> Seq<int>
    decreases evs.len(),
{
    if evs.len() == 0 {
        Seq::empty()
    } else {
        let (t, a) = step_spec(s, evs[0]);
        let rest = trigger_times(t, evs.drop_first());
        match evs[0] {
            Event::Changed { now_ms } => if a == Action::RunPass {
                seq![now_ms as int] + rest
            } else {
                rest
            },
            _ => rest,
        }
    }
}

/// The times carried by `evs` never go back, and none is before `from`.
pub open spec fn times_from(from: int, evs: Seq<Event>) -> bool
    decreases evs.len(),
{
    if evs.len() == 0 {
        true
    } else {
        match evs[0] {
            Event::PassDone { now_ms } => from <= now_ms && times_from(now_ms as int, evs.drop_first()),
            Event::Changed { now_ms } => from <= now_ms && times_from(now_ms as int, evs.drop_first()),
            _ => times_from(from, evs.drop_first()),
        }
    }
}

/// How many changes of the source `evs` reports.
pub open spec fn changes(evs: Seq<Event>) -> nat
    decreases evs.len(),
{
    if evs.len() == 0 {
        0
    } else {
        (if evs[0] is Changed {
            1nat
        } else {
            0nat
        }) + changes(evs.drop_first())
    }
}

/// `evs` is a run of changes, each followed by the return of its pass, where
/// every change comes at least one debounce window after the preceding pass
/// returned (after `clock` for the first); the run may end on a change.
pub open spec fn spaced_changes(clock: int, evs: Seq<Event>) -> bool
    decreases evs.len(),
{
    if evs.len() == 0 {
        true
    } else {
        match evs[0] {
            Event::Changed { now_ms } => clock + DEBOUNCE_MS <= now_ms && (evs.len() == 1 || match evs[1] {
                Event::PassDone { now_ms: done } => now_ms <= done && spaced_changes(
                    done as int,
                    evs.drop_first().drop_first(),
                ),
                _ => false,
            }),
            _ => false,
        }
    }
}

proof fn lemma_times_from_weaken(a: int, b: int, evs: Seq<Event>)
    requires
        a <= b,
        times_from(b, evs),
    ensures
        times_from(a, evs),
    decreases evs.len(),
{
    if evs.len() > 0 {
        match evs[0] {
            Event::PassDone { .. } => {},
            Event::Changed { .. } => {},
            _ => lemma_times_from_weaken(a, b, evs.drop_first()),
        }
    }
}

proof fn lemma_no_passes_after_first(s: Session, evs: Seq<Event>)
    requires
        !s.watch,
        s.phase == Phase::FirstPass || s.phase == Phase::Finished,
    ensures
        passes(actions(s, evs)) == 0,
    decreases evs.len(),
{
    if evs.len() > 0 {
        let acts = actions(s, evs);
        assert(acts.drop_first() =~= actions(step_spec(s, evs[0]).0, evs.drop_first()));
        lemma_no_passes_after_first(step_spec(s, evs[0]).0, evs.drop_first());
    }
}

/// Without watch mode the pipeline runs exactly once, whatever events follow
/// the start of the tool.
pub proof fn lemma_one_shot_runs_once(evs: Seq<Event>)
    requires
        evs.len() > 0,
        evs[0] == Event::Started,
    ensures
        passes(actions(Session { watch: false, phase: Phase::Start, clock_ms: 0 }, evs)) == 1,
{
    let s = Session { watch: false, phase: Phase::Start, clock_ms: 0 };
    let acts = actions(s, evs);
    assert(acts.drop_first() =~= actions(step_spec(s, evs[0]).0, evs.drop_first()));
    lemma_no_passes_after_first(step_spec(s, evs[0]).0, evs.drop_first());
}

/// On any timeline that does not go back, from any state of a session (a fresh
/// one included), two passes triggered by changes begin at least one debounce
/// window apart, and while watching the first begins at least one window after
/// the debounce clock: changes that come faster than the window trigger at most
/// one pass per window, however many there are.
pub proof fn lemma_triggers_spaced(s: Session, evs: Seq<Event>)
    requires
        times_from(s.clock_ms as int, evs),
    ensures
        ({
            let tt = trigger_times(s, evs);
            &&& (s.phase == Phase::Listening || s.phase == Phase::Triggered) && tt.len() > 0
                ==> s.clock_ms + DEBOUNCE_MS <= tt[0]
            &&& forall|i: int| 0 <= i < tt.len() - 1 ==> #[trigger] tt[i] + DEBOUNCE_MS <= tt[i + 1]
        }),
    decreases evs.len(),
{
    if evs.len() > 0 {
        let (t, a) = step_spec(s, evs[0]);
        let rest = evs.drop_first();
        let tt = trigger_times(s, evs);
        let tr = trigger_times(t, rest);
        match evs[0] {
            Event::PassDone { now_ms } => {
                lemma_times_from_weaken(t.clock_ms as int, now_ms as int, rest);
            },
            Event::Changed { now_ms } => {
                lemma_times_from_weaken(t.clock_ms as int, now_ms as int, rest);
            },
            _ => {},
        }
        lemma_triggers_spaced(t, rest);
        if evs[0] is Changed && a == Action::RunPass {
            let now_ms = evs[0]->Changed_now_ms;
            assert(s.phase == Phase::Listening);
            assert(t.phase == Phase::Triggered && t.clock_ms == now_ms);
            assert(tt =~= seq![now_ms as int] + tr);
            assert forall|i: int| 0 <= i < tt.len() - 1 implies #[trigger] tt[i] + DEBOUNCE_MS <= tt[i
                + 1] by {
                if i > 0 {
                    assert(tt[i] == tr[i - 1]);
                    assert(tt[i + 1] == tr[i]);
                } else {
                    assert(tt[1] == tr[0]);
                }
            }
        } else {
            assert(tt =~= tr);
        }
    }
}

/// While watching, when every change comes at least one debounce window after
/// the preceding pass returned, each change triggers exactly one pass.
pub proof fn lemma_spaced_changes_each_run(s: Session, evs: Seq<Event>)
    requires
        s.phase == Phase::Listening,
        spaced_changes(s.clock_ms as int, evs),
    ensures
        passes(actions(s, evs)) == changes(evs),
    decreases evs.len(),
{
    if evs.len() > 0 {
        let (t, a) = step_spec(s, evs[0]);
        let rest = evs.drop_first();
        let acts = actions(s, evs);
        assert(acts.drop_first() =~= actions(t, rest));
        assert(a == Action::RunPass);
        assert(passes(acts) == 1 + passes(actions(t, rest)));
        assert(changes(evs) == 1 + changes(rest));
        if evs.len() > 1 {
            let (u, b) = step_spec(t, rest[0]);
            let rest2 = rest.drop_first();
            let acts1 = actions(t, rest);
            assert(acts1.drop_first() =~= actions(u, rest2));
            assert(b == Action::Listen);
            assert(passes(acts1) == passes(actions(u, rest2)));
            assert(changes(rest) == changes(rest2));
            lemma_spaced_changes_each_run(u, rest2);
        } else {
            assert(changes(rest) == 0);
            assert(passes(actions(t, rest)) == 0);
        }
    }
}

impl Session {
    /// A session that has not started; `watch` selects watch mode.
    pub fn new(watch: bool) -> (r: Session)
        ensures
            r == (Session { watch, phase: Phase::Start, clock_ms: 0 }),
    {
        Session { watch, phase: Phase::Start, clock_ms: 0 }
    }

    /// Takes in one event and says what to do next.
    pub fn step(&mut self, e: Event) -> (r: Action)
        ensures
            (*final(self), r) == step_spec(*old(self), e),
    {
        match (self.phase, e) {
            (Phase::Start, Event::Started) => {
                self.phase = Phase::FirstPass;
                Action::RunPass
            },
            (Phase::FirstPass, Event::PassDone { now_ms }) => {
                if self.watch {
                    self.phase = Phase::Listening;
                    self.clock_ms = now_ms;
                    Action::Subscribe
                } else {
                    self.phase = Phase::Finished;
                    Action::Exit
                }
            },
            (Phase::Listening, Event::Changed { now_ms }) => {
                if now_ms >= self.clock_ms && now_ms - self.clock_ms >= DEBOUNCE_MS {
                    self.phase = Phase::Triggered;
                    self.clock_ms = now_ms;
                    Action::RunPass
                } else {
                    Action::Listen
                }
            },
            (Phase::Listening, Event::ReceiveFailed) => Action::ReportError,
            (Phase::Triggered, Event::PassDone { now_ms }) => {
                self.phase = Phase::Listening;
                self.clock_ms = now_ms;
                Action::Listen
            },
            (Phase::Finished, _) => Action::Exit,
            _ => Action::Listen,
        }
    }
}

} // verus!
