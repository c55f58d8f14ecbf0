//! The lifecycle of one combination in a suite: which callback is due
//! next, and where its result leads.

use vstd::prelude::*;

verus! {

/// Which of the optional callbacks a suite has registered.
#[derive(Clone, Copy, Debug, PartialEq, Eq, Structural)]
pub struct Hooks {
    /// A global setup runs once per configuration before sampling.
    pub global_setup: bool,
    /// A global teardown runs once per configuration after sampling, or
    /// after a failed global setup.
    pub global_teardown: bool,
}

/// A callback of the suite that is made once per combination.
#[derive(Clone, Copy, Debug, PartialEq, Eq, Structural)]
pub enum Call {
    /// Turn the combination into a concrete configuration.
    Extractor,
    /// Prepare what all samples of the configuration share.
    GlobalSetup,
    /// Hand the case to the harness, which runs its samples.
    Sampling,
    /// Release what the global setup prepared.
    GlobalTeardown,
}

/// How the lifecycle of a combination ended.
#[derive(Clone, Copy, Debug, PartialEq, Eq, Structural)]
pub enum Outcome {
    /// The samples ran and the configuration was torn down.
    Completed,
    /// The extractor could not interpret the combination.
    SkippedExtraction,
    /// The global setup failed; nothing was sampled.
    SkippedGlobalSetup,
    /// A sample could not be set up; the run cannot go on.
    Aborted,
}

/// A failure that the operator is told of.
#[derive(Clone, Copy, Debug, PartialEq, Eq, Structural)]
pub enum Notice {
    /// An error: the combination is skipped.
    ExtractionFailed,
    /// An error: the configuration is skipped.
    GlobalSetupFailed,
    /// A warning: the teardown that followed a failed global setup
    /// failed too.
    CompensationFailed,
    /// A warning: the global teardown after sampling failed.
    GlobalTeardownFailed,
    /// A fatal error: a sample could not be set up.
    SampleSetupFailed,
}

/// Where one combination stands in its lifecycle.
#[derive(Clone, Copy, Debug, PartialEq, Eq, Structural)]
pub enum Phase {
    /// Nothing has been called yet.
    Pending,
    /// The extractor has produced the configuration.
    Extracted,
    /// The global setup has succeeded.
    GloballySetUp,
    /// The harness has run the samples.
    Sampled,
    /// The global teardown has run after sampling.
    GloballyTornDown,
    /// The extractor has failed.
    ExtractionFailed,
    /// The global setup has failed and no teardown has followed yet.
    GlobalSetupFailed,
    /// The teardown that follows a failed global setup has run.
    Compensated,
    /// A sample could not be set up.
    Aborted,
}

impl Phase {
    /// The callback that is due in this phase, if any.
    pub open spec fn due(self, hooks: Hooks) -> Option<Call> {
        match self {
            Phase::Pending => Some(Call::Extractor),
            Phase::Extracted => if hooks.global_setup {
                Some(Call::GlobalSetup)
            } else {
                Some(Call::Sampling)
            },
            Phase::GloballySetUp => Some(Call::Sampling),
            Phase::Sampled | Phase::GlobalSetupFailed => if hooks.global_teardown {
                Some(Call::GlobalTeardown)
            } else {
                None
            },
            Phase::GloballyTornDown | Phase::ExtractionFailed | Phase::Compensated
            | Phase::Aborted => None,
        }
    }

    /// The phase that the result of the due callback leads to. Without
    /// a due callback the phase stays.
    pub open spec fn after(self, hooks: Hooks, ok: bool) -> Phase {
        match self.due(hooks) {
            None => self,
            Some(Call::Extractor) => if ok {
                Phase::Extracted
            } else {
                Phase::ExtractionFailed
            },
            Some(Call::GlobalSetup) => if ok {
                Phase::GloballySetUp
            } else {
                Phase::GlobalSetupFailed
            },
            Some(Call::Sampling) => if ok {
                Phase::Sampled
            } else {
                Phase::Aborted
            },
            Some(Call::GlobalTeardown) => if self == Phase::Sampled {
                Phase::GloballyTornDown
            } else {
                Phase::Compensated
            },
        }
    }

    /// What the operator is told when the due callback returns `ok`.
    pub open spec fn notice(self, hooks: Hooks, ok: bool) -> Option<Notice> {
        if ok {
            None
        } else {
            match self.due(hooks) {
                None => None,
                Some(Call::Extractor) => Some(Notice::ExtractionFailed),
                Some(Call::GlobalSetup) => Some(Notice::GlobalSetupFailed),
                Some(Call::Sampling) => Some(Notice::SampleSetupFailed),
                Some(Call::GlobalTeardown) => if self == Phase::Sampled {
                    Some(Notice::GlobalTeardownFailed)
                } else {
                    Some(Notice::CompensationFailed)
                },
            }
        }
    }

    /// How the lifecycle ended, once no callback is due.
    pub open spec fn outcome(self, hooks: Hooks) -> Option<Outcome> {
        if self.due(hooks) is Some {
            None
        } else {
            match self {
                Phase::ExtractionFailed => Some(Outcome::SkippedExtraction),
                Phase::GlobalSetupFailed | Phase::Compensated => Some(Outcome::SkippedGlobalSetup),
                Phase::Aborted => Some(Outcome::Aborted),
                _ => Some(Outcome::Completed),
            }
        }
    }

    /// The callback to make next for this combination; `None` once its
    /// lifecycle has ended.
    pub fn next_call(&self, hooks: &Hooks) -> (call: Option<Call>)
        ensures
            call == self.due(*hooks),
    {
        match self {
            Phase::Pending => Some(Call::Extractor),
            Phase::Extracted => if hooks.global_setup {
                Some(Call::GlobalSetup)
            } else {
                Some(Call::Sampling)
            },
            Phase::GloballySetUp => Some(Call::Sampling),
            Phase::Sampled | Phase::GlobalSetupFailed => if hooks.global_teardown {
                Some(Call::GlobalTeardown)
            } else {
                None
            },
            _ => None,
        }
    }

    /// Takes in the result of the callback that was due: the phase it
    /// leads to and what the operator is to be told.
    pub fn advance(self, hooks: &Hooks, ok: bool) -> (next: (Phase, Option<Notice>))
        ensures
            next.0 == self.after(*hooks, ok),
            next.1 == self.notice(*hooks, ok),
    {
        match self.next_call(hooks) {
            None => (self, None),
            Some(Call::Extractor) => if ok {
                (Phase::Extracted, None)
            } else {
                (Phase::ExtractionFailed, Some(Notice::ExtractionFailed))
            },
            Some(Call::GlobalSetup) => if ok {
                (Phase::GloballySetUp, None)
            } else {
                (Phase::GlobalSetupFailed, Some(Notice::GlobalSetupFailed))
            },
            Some(Call::Sampling) => if ok {
                (Phase::Sampled, None)
            } else {
                (Phase::Aborted, Some(Notice::SampleSetupFailed))
            },
            Some(Call::GlobalTeardown) => {
                let after_sampling = matches!(self, Phase::Sampled);
                let next = if after_sampling {
                    Phase::GloballyTornDown
                } else {
                    Phase::Compensated
                };
                let notice = if ok {
                    None
                } else if after_sampling {
                    Some(Notice::GlobalTeardownFailed)
                } else {
                    Some(Notice::CompensationFailed)
                };
                (next, notice)
            },
        }
    }

    /// How the lifecycle ended; `None` while a callback is due.
    pub fn result(&self, hooks: &Hooks) -> (outcome: Option<Outcome>)
        ensures
            outcome == self.outcome(*hooks),
    {
        match self.next_call(hooks) {
            Some(_) => None,
            None => match self {
                Phase::ExtractionFailed => Some(Outcome::SkippedExtraction),
                Phase::GlobalSetupFailed | Phase::Compensated => Some(
                    Outcome::SkippedGlobalSetup,
                ),
                Phase::Aborted => Some(Outcome::Aborted),
                _ => Some(Outcome::Completed),
            },
        }
    }
}

/// The callbacks that are made from `phase` on, in order, when the
/// callback number `k` returns `answers[k]`. The list ends with the
/// lifecycle, or with the answers.
pub open spec fn calls_from(phase: Phase, hooks: Hooks, answers: Seq<bool>) -> Seq<Call>
    decreases answers.len(),
{
    match phase.due(hooks) {
        None => Seq::empty(),
        Some(call) => if answers.len() == 0 {
            Seq::empty()
        } else {
            seq![call] + calls_from(phase.after(hooks, answers[0]), hooks, answers.skip(1))
        },
    }
}

/// The phase that is reached from `phase` when the callback number `k`
/// returns `answers[k]`.
pub open spec fn phase_after(phase: Phase, hooks: Hooks, answers: Seq<bool>) -> Phase
    decreases answers.len(),
{
    if answers.len() == 0 {
        phase
    } else {
        phase_after(phase.after(hooks, answers[0]), hooks, answers.skip(1))
    }
}

/// The callbacks of a lifecycle in which nothing fails: the extractor,
/// the global setup if one is registered, the sampling, the global
/// teardown if one is registered.
pub open spec fn full_lifecycle(hooks: Hooks) -> Seq<Call> {
    seq![Call::Extractor] + (if hooks.global_setup {
        seq![Call::GlobalSetup]
    } else {
        Seq::empty()
    }) + seq![Call::Sampling] + (if hooks.global_teardown {
        seq![Call::GlobalTeardown]
    } else {
        Seq::empty()
    })
}

/// When every callback succeeds, the callbacks of one combination are
/// exactly those of the full lifecycle, in its order, and the
/// combination ends as completed.
pub proof fn lemma_lifecycle_order(hooks: Hooks, answers: Seq<bool>)
    requires
        answers.len() >= 4,
        forall|k: int| 0 <= k < answers.len() ==> answers[k],
    ensures
        calls_from(Phase::Pending, hooks, answers) == full_lifecycle(hooks),
        phase_after(Phase::Pending, hooks, answers).outcome(hooks) == Some(Outcome::Completed),
{
    reveal_with_fuel(calls_from, 6);
    reveal_with_fuel(phase_after, 6);
    let a1 = answers.skip(1);
    let a2 = a1.skip(1);
    let a3 = a2.skip(1);
    let a4 = a3.skip(1);
    assert(a1[0] && a2[0] && a3[0]);
    if hooks.global_teardown {
        lemma_ended_stays(Phase::GloballyTornDown, hooks, a3);
        lemma_ended_stays(Phase::GloballyTornDown, hooks, a4);
    } else {
        lemma_ended_stays(Phase::Sampled, hooks, a2);
        lemma_ended_stays(Phase::Sampled, hooks, a3);
    }
    assert(calls_from(Phase::Pending, hooks, answers) =~= full_lifecycle(hooks));
}

/// Once no callback is due, none is made and the phase stays, whatever
/// answers are left.
pub proof fn lemma_ended_stays(phase: Phase, hooks: Hooks, answers: Seq<bool>)
    requires
        phase.due(hooks) is None,
    ensures
        calls_from(phase, hooks, answers) == Seq::<Call>::empty(),
        phase_after(phase, hooks, answers) == phase,
    decreases answers.len(),
{
    if answers.len() > 0 {
        lemma_ended_stays(phase, hooks, answers.skip(1));
    }
}

/// A failing extractor ends the lifecycle of its combination at once:
/// no other callback is made for it, and it counts as skipped.
pub proof fn lemma_extraction_failure_skips(hooks: Hooks, answers: Seq<bool>)
    requires
        answers.len() >= 1,
        !answers[0],
    ensures
        calls_from(Phase::Pending, hooks, answers) == seq![Call::Extractor],
        phase_after(Phase::Pending, hooks, answers).outcome(hooks) == Some(
            Outcome::SkippedExtraction,
        ),
{
    reveal_with_fuel(calls_from, 2);
    reveal_with_fuel(phase_after, 2);
    lemma_ended_stays(Phase::ExtractionFailed, hooks, answers.skip(1));
}

/// A failing global setup keeps the configuration from being sampled:
/// only the global teardown follows, if one is registered, and whatever
/// it returns the configuration counts as skipped.
pub proof fn lemma_global_setup_failure_skips(hooks: Hooks, answers: Seq<bool>)
    requires
        hooks.global_setup,
        answers.len() >= 3,
        answers[0],
        !answers[1],
    ensures
        calls_from(Phase::Pending, hooks, answers) == if hooks.global_teardown {
            seq![Call::Extractor, Call::GlobalSetup, Call::GlobalTeardown]
        } else {
            seq![Call::Extractor, Call::GlobalSetup]
        },
        phase_after(Phase::Pending, hooks, answers).outcome(hooks) == Some(
            Outcome::SkippedGlobalSetup,
        ),
{
    reveal_with_fuel(calls_from, 4);
    reveal_with_fuel(phase_after, 4);
    let a1 = answers.skip(1);
    let a2 = a1.skip(1);
    let a3 = a2.skip(1);
    assert(!a1[0]);
    if hooks.global_teardown {
        lemma_ended_stays(Phase::Compensated, hooks, a3);
    } else {
        lemma_ended_stays(Phase::GlobalSetupFailed, hooks, a2);
    }
    assert(calls_from(Phase::Pending, hooks, answers) =~= if hooks.global_teardown {
        seq![Call::Extractor, Call::GlobalSetup, Call::GlobalTeardown]
    } else {
        seq![Call::Extractor, Call::GlobalSetup]
    });
}

/// A failing global teardown changes nothing but the notice: the
/// lifecycle goes on to the same phase as after a teardown that
/// succeeded, and it is never an abort.
pub proof fn lemma_teardown_failure_is_harmless(phase: Phase, hooks: Hooks)
    requires
        phase.due(hooks) == Some(Call::GlobalTeardown),
    ensures
        phase.after(hooks, false) == phase.after(hooks, true),
        phase.after(hooks, false).outcome(hooks) is Some,
        phase.after(hooks, false) != Phase::Aborted,
        phase.notice(hooks, false) is Some,
{
}

} // verus!
