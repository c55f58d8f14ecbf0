//! The run of a suite over all its combinations: what is due next, what
//! is counted, and what is reported at the end.

use crate::lifecycle::{calls_from, lemma_ended_stays, phase_after};
use crate::lifecycle::{Call, Hooks, Notice, Outcome, Phase};
use vstd::prelude::*;

verus! {

/// The sample size that a group gets where the suite configures
/// nothing else.
pub const DEFAULT_SAMPLE_SIZE: usize = 10;

/// Whether a suite has anything to run.
#[derive(Clone, Copy, Debug, PartialEq, Eq, Structural)]
pub enum Preflight {
    /// There is at least one combination.
    Run,
    /// No axis is defined.
    NoAxes,
    /// Axes are defined, but they have no combination: one is empty.
    NoCombinations,
}

/// What is said at the end of a run.
#[derive(Clone, Copy, Debug, PartialEq, Eq, Structural)]
pub enum Report {
    /// Some combinations were skipped: all four counts are given.
    Skips,
    /// Every combination was run: their number is given.
    AllRun,
    /// Nothing was run and nothing skipped: nothing is said.
    Silent,
}

/// The counts of one run.
#[derive(Clone, Copy, Debug, PartialEq, Eq, Structural)]
pub struct RunSummary {
    /// How many combinations the run set out with.
    pub attempted: usize,
    /// How many were sampled.
    pub completed: usize,
    /// How many were skipped because the extractor failed.
    pub skipped_extraction: usize,
    /// How many were skipped because the global setup failed.
    pub skipped_global_setup: usize,
}

impl RunSummary {
    /// The number of combinations whose lifecycle has ended.
    pub open spec fn settled(self) -> int {
        self.completed + self.skipped_extraction + self.skipped_global_setup
    }

    /// The summary with one more combination counted under `outcome`.
    /// An abort is not counted.
    pub open spec fn counted(self, outcome: Outcome) -> RunSummary {
        match outcome {
            Outcome::Completed => RunSummary {
                completed: (self.completed + 1) as usize,
                ..self
            },
            Outcome::SkippedExtraction => RunSummary {
                skipped_extraction: (self.skipped_extraction + 1) as usize,
                ..self
            },
            Outcome::SkippedGlobalSetup => RunSummary {
                skipped_global_setup: (self.skipped_global_setup + 1) as usize,
                ..self
            },
            Outcome::Aborted => self,
        }
    }

    /// What is to be said of these counts at the end of the run.
    pub open spec fn verdict(self) -> Report {
        if self.skipped_extraction > 0 || self.skipped_global_setup > 0 {
            Report::Skips
        } else if self.completed > 0 {
            Report::AllRun
        } else {
            Report::Silent
        }
    }

    /// What to say at the end of the run: the counts where anything was
    /// skipped, else the number of combinations run, if any.
    pub fn report(&self) -> (report: Report)
        ensures
            report == self.verdict(),
    {
        if self.skipped_extraction > 0 || self.skipped_global_setup > 0 {
            Report::Skips
        } else if self.completed > 0 {
            Report::AllRun
        } else {
            Report::Silent
        }
    }
}

/// Whether the suite has anything to run, given the number of its axes
/// and of their combinations.
pub fn preflight(axis_count: usize, total: usize) -> (verdict: Preflight)
    ensures
        verdict == if total > 0 {
            Preflight::Run
        } else if axis_count == 0 {
            Preflight::NoAxes
        } else {
            Preflight::NoCombinations
        },
{
    if total > 0 {
        Preflight::Run
    } else if axis_count == 0 {
        Preflight::NoAxes
    } else {
        Preflight::NoCombinations
    }
}

/// The axis names that a suite uses for its labels: the given ones
/// where there is one per axis, none otherwise.
pub fn resolve_parameter_names(names: Vec<String>, axis_count: usize) -> (kept: Option<
    Vec<String>,
>)
    ensures
        kept == if names@.len() == axis_count {
            Some(names)
        } else {
            None
        },
{
    if names.len() == axis_count {
        Some(names)
    } else {
        None
    }
}

/// Whether names are given and there is not one per axis, so that the
/// labels will go without them.
pub fn names_mismatch(names: &Option<Vec<String>>, axis_count: usize) -> (mismatch: bool)
    ensures
        mismatch == match names {
            Some(given) => given@.len() != axis_count,
            None => false,
        },
{
    match names {
        Some(given) => given.len() != axis_count,
        None => false,
    }
}

/// Where a run stands: which combination is in progress, in which
/// phase, and what has been counted.
#[derive(Clone, Copy, Debug, PartialEq, Eq, Structural)]
pub struct RunState {
    /// The number of the combination in progress; the total once all
    /// are done.
    pub index: usize,
    /// The number of combinations.
    pub total: usize,
    /// The phase of the combination in progress.
    pub phase: Phase,
    /// The counts so far.
    pub summary: RunSummary,
}

impl RunState {
    /// Every combination before the one in progress has been counted
    /// exactly once, and the one in progress has a callback due unless
    /// the run was aborted.
    pub open spec fn wf(self, hooks: Hooks) -> bool {
        &&& self.index <= self.total
        &&& self.summary.attempted == self.total
        &&& self.summary.settled() == self.index
        &&& self.phase.due(hooks) is Some || self.phase == Phase::Aborted
    }

    /// The callback that is due, if any: none once all combinations are
    /// done or the run was aborted.
    pub open spec fn due(self, hooks: Hooks) -> Option<Call> {
        if self.index < self.total {
            self.phase.due(hooks)
        } else {
            None
        }
    }

    /// The state that the result of the due callback leads to. Where
    /// it ends the lifecycle of the combination, the outcome is counted
    /// and the next combination begins; an abort ends the run.
    pub open spec fn after(self, hooks: Hooks, ok: bool) -> RunState {
        let phase = self.phase.after(hooks, ok);
        match phase.outcome(hooks) {
            None => RunState { phase, ..self },
            Some(Outcome::Aborted) => RunState { phase, ..self },
            Some(outcome) => RunState {
                index: (self.index + 1) as usize,
                phase: Phase::Pending,
                summary: self.summary.counted(outcome),
                ..self
            },
        }
    }

    /// The start of a run over `total` combinations.
    pub fn start(total: usize) -> (state: RunState)
        ensures
            state.index == 0,
            state.total == total,
            state.phase == Phase::Pending,
            state.summary == (RunSummary {
                attempted: total,
                completed: 0,
                skipped_extraction: 0,
                skipped_global_setup: 0,
            }),
            forall|hooks: Hooks| state.wf(hooks),
    {
        let state = RunState {
            index: 0,
            total,
            phase: Phase::Pending,
            summary: RunSummary {
                attempted: total,
                completed: 0,
                skipped_extraction: 0,
                skipped_global_setup: 0,
            },
        };
        assert forall|hooks: Hooks| state.wf(hooks) by {
            assert(state.phase.due(hooks) == Some(Call::Extractor));
        }
        state
    }

    /// The callback to make next, for the combination in progress;
    /// `None` once the run is over.
    pub fn next_call(&self, hooks: &Hooks) -> (call: Option<Call>)
        ensures
            call == self.due(*hooks),
    {
        if self.index < self.total {
            self.phase.next_call(hooks)
        } else {
            None
        }
    }

    /// Whether a sample could not be set up, which ends the run.
    pub fn aborted(&self) -> (aborted: bool)
        ensures
            aborted == (self.phase == Phase::Aborted),
    {
        matches!(self.phase, Phase::Aborted)
    }

    /// Takes in the result of the callback that was due: the state it
    /// leads to and what the operator is to be told.
    pub fn advance(self, hooks: &Hooks, ok: bool) -> (next: (RunState, Option<Notice>))
        requires
            self.wf(*hooks),
            self.due(*hooks) is Some,
        ensures
            next.0 == self.after(*hooks, ok),
            next.1 == self.phase.notice(*hooks, ok),
            next.0.wf(*hooks),
    {
        let (phase, notice) = self.phase.advance(hooks, ok);
        let summary = self.summary;
        let next = match phase.result(hooks) {
            None => RunState { index: self.index, total: self.total, phase, summary },
            Some(Outcome::Aborted) => RunState {
                index: self.index,
                total: self.total,
                phase,
                summary,
            },
            Some(Outcome::Completed) => RunState {
                index: self.index + 1,
                total: self.total,
                phase: Phase::Pending,
                summary: RunSummary { completed: summary.completed + 1, ..summary },
            },
            Some(Outcome::SkippedExtraction) => RunState {
                index: self.index + 1,
                total: self.total,
                phase: Phase::Pending,
                summary: RunSummary {
                    skipped_extraction: summary.skipped_extraction + 1,
                    ..summary
                },
            },
            Some(Outcome::SkippedGlobalSetup) => RunState {
                index: self.index + 1,
                total: self.total,
                phase: Phase::Pending,
                summary: RunSummary {
                    skipped_global_setup: summary.skipped_global_setup + 1,
                    ..summary
                },
            },
        };
        (next, notice)
    }
}

/// The state that a run reaches from `state` when the callback number
/// `k` returns `answers[k]`.
pub open spec fn run_after(state: RunState, hooks: Hooks, answers: Seq<bool>) -> RunState
    decreases answers.len(),
{
    if answers.len() == 0 {
        state
    } else {
        run_after(state.after(hooks, answers[0]), hooks, answers.skip(1))
    }
}

/// A run takes each combination through its own lifecycle. Given the
/// answers to the callbacks of the combination in progress, up to the
/// end of its lifecycle short of an abort, the run then stands at the
/// start of the next combination with this one counted under its
/// outcome, and with nothing else changed.
pub proof fn lemma_run_follows_lifecycle(state: RunState, hooks: Hooks, answers: Seq<bool>)
    requires
        state.wf(hooks),
        state.index < state.total,
        answers.len() > 0,
        answers.len() == calls_from(state.phase, hooks, answers).len(),
        phase_after(state.phase, hooks, answers).outcome(hooks) is Some,
        phase_after(state.phase, hooks, answers) != Phase::Aborted,
    ensures
        run_after(state, hooks, answers) == (RunState {
            index: (state.index + 1) as usize,
            total: state.total,
            phase: Phase::Pending,
            summary: state.summary.counted(
                phase_after(state.phase, hooks, answers).outcome(hooks)->0,
            ),
        }),
    decreases answers.len(),
{
    let next = state.phase.after(hooks, answers[0]);
    let rest = answers.skip(1);
    reveal_with_fuel(calls_from, 2);
    reveal_with_fuel(phase_after, 2);
    reveal_with_fuel(run_after, 2);
    if next.due(hooks) is None {
        lemma_ended_stays(next, hooks, rest);
        assert(rest.len() == 0);
    } else {
        assert(rest.len() > 0);
        lemma_run_follows_lifecycle(state.after(hooks, answers[0]), hooks, rest);
    }
}

/// Faults are isolated. Where the lifecycle of a combination ends short
/// of an abort, be it completed or skipped, the combination is counted
/// once and the run moves on; if a combination is left, the next
/// callback is its extractor.
pub proof fn lemma_run_moves_on(state: RunState, hooks: Hooks, ok: bool)
    requires
        state.wf(hooks),
        state.due(hooks) is Some,
        state.phase.after(hooks, ok).outcome(hooks) is Some,
        state.phase.after(hooks, ok) != Phase::Aborted,
    ensures
        state.after(hooks, ok).wf(hooks),
        state.after(hooks, ok).index == state.index + 1,
        state.after(hooks, ok).summary.settled() == state.summary.settled() + 1,
        state.index + 1 < state.total ==> state.after(hooks, ok).due(hooks) == Some(
            Call::Extractor,
        ),
{
}

/// A failing extractor and a failing global setup without a registered
/// teardown end the lifecycle of their combination at once, so that the
/// run moves on.
pub proof fn lemma_skips_end_lifecycle(hooks: Hooks)
    ensures
        Phase::Pending.after(hooks, false).outcome(hooks) == Some(Outcome::SkippedExtraction),
        hooks.global_setup && !hooks.global_teardown ==> Phase::Extracted.after(
            hooks,
            false,
        ).outcome(hooks) == Some(Outcome::SkippedGlobalSetup),
        hooks.global_setup && hooks.global_teardown ==> forall|ok: bool|
            #![auto]
            Phase::Extracted.after(hooks, false).after(hooks, ok).outcome(hooks) == Some(
                Outcome::SkippedGlobalSetup,
            ),
{
}

/// What is done for a combination does not depend on what happened to
/// the ones before it: two runs that stand in the same phase of their
/// combination have the same callback due, and the same result leads
/// them to the same phase and the same notice, whatever they have
/// counted.
pub proof fn lemma_history_does_not_matter(
    first: RunState,
    second: RunState,
    hooks: Hooks,
    ok: bool,
)
    requires
        first.wf(hooks),
        second.wf(hooks),
        first.index < first.total,
        second.index < second.total,
        first.phase == second.phase,
    ensures
        first.due(hooks) == second.due(hooks),
        first.after(hooks, ok).phase == second.after(hooks, ok).phase,
        first.phase.notice(hooks, ok) == second.phase.notice(hooks, ok),
{
}

} // verus!
