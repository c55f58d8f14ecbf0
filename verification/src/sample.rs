//! The cycle of one sample: setup, as many measured iterations as the
//! harness asks for, teardown.

use vstd::prelude::*;

verus! {

/// The longest time a sample can add up to, in nanoseconds: what
/// `std::time::Duration` can hold at most, `u64::MAX` seconds and
/// 999,999,999 nanoseconds.
pub const MAX_ELAPSED_NANOS: u128 = 18_446_744_073_709_551_615_999_999_999u128;

/// A callback that is made within one sample.
#[derive(Clone, Copy, Debug, PartialEq, Eq, Structural)]
pub enum SampleCall {
    /// Create the context and state of the sample.
    Setup,
    /// Run one measured iteration.
    Logic,
    /// Release what the setup created.
    Teardown,
}

/// What a callback of a sample came back with.
#[derive(Clone, Copy, Debug, PartialEq, Eq, Structural)]
pub enum SampleEvent {
    /// The setup produced context and state.
    SetupSucceeded,
    /// The setup failed.
    SetupFailed,
    /// One iteration ran and measured this many nanoseconds.
    Measured(u128),
    /// The teardown has run.
    TornDown,
}

/// Where one sample stands.
#[derive(Clone, Copy, Debug, PartialEq, Eq, Structural)]
pub enum SamplePhase {
    /// Nothing has been called yet.
    Ready,
    /// Set up; `done` iterations have run and measured `elapsed`
    /// nanoseconds together.
    Running { done: u64, elapsed: u128 },
    /// Torn down; the iterations measured `elapsed` nanoseconds
    /// together.
    Finished { elapsed: u128 },
    /// The setup failed: the sample cannot be measured.
    Aborted,
}

impl SamplePhase {
    /// The callback that is due in this phase of a sample of
    /// `iterations` iterations, if any.
    pub open spec fn due(self, iterations: u64) -> Option<SampleCall> {
        match self {
            SamplePhase::Ready => Some(SampleCall::Setup),
            SamplePhase::Running { done, .. } => if done < iterations {
                Some(SampleCall::Logic)
            } else {
                Some(SampleCall::Teardown)
            },
            SamplePhase::Finished { .. } | SamplePhase::Aborted => None,
        }
    }

    /// Whether `event` answers the callback that is due, and the time
    /// it adds, if any, keeps the total within what a duration holds.
    pub open spec fn accepts(self, iterations: u64, event: SampleEvent) -> bool {
        match (self.due(iterations), event) {
            (Some(SampleCall::Setup), SampleEvent::SetupSucceeded) => true,
            (Some(SampleCall::Setup), SampleEvent::SetupFailed) => true,
            (Some(SampleCall::Logic), SampleEvent::Measured(nanos)) => self->Running_elapsed
                + nanos <= MAX_ELAPSED_NANOS,
            (Some(SampleCall::Teardown), SampleEvent::TornDown) => true,
            _ => false,
        }
    }

    /// The phase that an accepted event leads to. Another event leaves
    /// the phase as it is.
    pub open spec fn after(self, iterations: u64, event: SampleEvent) -> SamplePhase {
        if !self.accepts(iterations, event) {
            self
        } else {
            match event {
                SampleEvent::SetupSucceeded => SamplePhase::Running { done: 0, elapsed: 0 },
                SampleEvent::SetupFailed => SamplePhase::Aborted,
                SampleEvent::Measured(nanos) => SamplePhase::Running {
                    done: (self->done + 1) as u64,
                    elapsed: (self->Running_elapsed + nanos) as u128,
                },
                SampleEvent::TornDown => SamplePhase::Finished { elapsed: self->Running_elapsed },
            }
        }
    }

    /// The callback to make next in this sample; `None` once it is
    /// finished or aborted.
    pub fn next_call(&self, iterations: u64) -> (call: Option<SampleCall>)
        ensures
            call == self.due(iterations),
    {
        match self {
            SamplePhase::Ready => Some(SampleCall::Setup),
            SamplePhase::Running { done, .. } => if *done < iterations {
                Some(SampleCall::Logic)
            } else {
                Some(SampleCall::Teardown)
            },
            _ => None,
        }
    }

    /// Whether `event` can be taken in now.
    pub fn accepts_event(&self, iterations: u64, event: &SampleEvent) -> (accepted: bool)
        ensures
            accepted == self.accepts(iterations, *event),
    {
        match (self, event) {
            (SamplePhase::Ready, SampleEvent::SetupSucceeded) => true,
            (SamplePhase::Ready, SampleEvent::SetupFailed) => true,
            (SamplePhase::Running { done, elapsed }, SampleEvent::Measured(nanos)) => {
                *done < iterations && *elapsed <= MAX_ELAPSED_NANOS && *nanos <= MAX_ELAPSED_NANOS
                    - *elapsed
            },
            (SamplePhase::Running { done, .. }, SampleEvent::TornDown) => *done >= iterations,
            _ => false,
        }
    }

    /// Takes in what the due callback came back with.
    pub fn advance(self, iterations: u64, event: SampleEvent) -> (next: SamplePhase)
        requires
            self.accepts(iterations, event),
        ensures
            next == self.after(iterations, event),
    {
        match (self, event) {
            (SamplePhase::Ready, SampleEvent::SetupSucceeded) => SamplePhase::Running {
                done: 0,
                elapsed: 0,
            },
            (SamplePhase::Ready, SampleEvent::SetupFailed) => SamplePhase::Aborted,
            (SamplePhase::Running { done, elapsed }, SampleEvent::Measured(nanos)) => {
                SamplePhase::Running { done: done + 1, elapsed: elapsed + nanos }
            },
            (SamplePhase::Running { elapsed, .. }, SampleEvent::TornDown) => SamplePhase::Finished {
                elapsed,
            },
            _ => self,
        }
    }

    /// The time that the iterations of a finished sample measured
    /// together, in nanoseconds.
    pub fn total(&self) -> (elapsed: Option<u128>)
        ensures
            elapsed == match *self {
                SamplePhase::Finished { elapsed } => Some(elapsed),
                _ => None,
            },
    {
        match self {
            SamplePhase::Finished { elapsed } => Some(*elapsed),
            _ => None,
        }
    }
}

/// The sum of the measured times.
pub open spec fn total_nanos(measured: Seq<u128>) -> nat
    decreases measured.len(),
{
    if measured.len() == 0 {
        0
    } else {
        total_nanos(measured.drop_last()) + measured.last() as nat
    }
}

/// The phase of a sample after `calls` callbacks, none of which failed,
/// where iteration number `i` measured `measured[i]`.
pub open spec fn phase_at(iterations: u64, measured: Seq<u128>, calls: nat) -> SamplePhase
    decreases calls,
{
    if calls == 0 {
        SamplePhase::Ready
    } else {
        let before = phase_at(iterations, measured, (calls - 1) as nat);
        match before.due(iterations) {
            None => before,
            Some(SampleCall::Setup) => before.after(iterations, SampleEvent::SetupSucceeded),
            Some(SampleCall::Logic) => before.after(
                iterations,
                SampleEvent::Measured(measured[before->done as int]),
            ),
            Some(SampleCall::Teardown) => before.after(iterations, SampleEvent::TornDown),
        }
    }
}

/// Callback number `number` of a sample of `iterations` iterations: the
/// setup first, then the iterations, then the teardown, then nothing.
pub open spec fn call_at(iterations: u64, number: nat) -> Option<SampleCall> {
    if number == 0 {
        Some(SampleCall::Setup)
    } else if number <= iterations {
        Some(SampleCall::Logic)
    } else if number == iterations + 1 {
        Some(SampleCall::Teardown)
    } else {
        None
    }
}

/// The times measured so far never add up to more than all of them.
pub proof fn lemma_total_of_prefix(measured: Seq<u128>, n: int)
    requires
        0 <= n <= measured.len(),
    ensures
        total_nanos(measured.take(n)) <= total_nanos(measured),
        n < measured.len() ==> total_nanos(measured.take(n + 1)) == total_nanos(measured.take(n))
            + measured[n],
    decreases measured.len() - n,
{
    if n < measured.len() {
        assert(measured.take(n + 1).drop_last() == measured.take(n));
        lemma_total_of_prefix(measured, n + 1);
    } else {
        assert(measured.take(n) == measured);
    }
}

/// While a sample runs, it has counted the iterations made and summed
/// their times.
pub proof fn lemma_running(iterations: u64, measured: Seq<u128>, calls: nat)
    requires
        measured.len() == iterations,
        total_nanos(measured) <= MAX_ELAPSED_NANOS,
        1 <= calls <= iterations + 1,
    ensures
        phase_at(iterations, measured, calls) == (SamplePhase::Running {
            done: (calls - 1) as u64,
            elapsed: total_nanos(measured.take(calls - 1)) as u128,
        }),
    decreases calls,
{
    if calls == 1 {
        reveal_with_fuel(phase_at, 2);
        assert(measured.take(0).len() == 0);
    } else {
        lemma_running(iterations, measured, (calls - 1) as nat);
        lemma_total_of_prefix(measured, calls - 2);
        lemma_total_of_prefix(measured, calls - 1);
    }
}

/// In a sample in which no setup fails the callbacks are, in order: the
/// setup once, the logic as many times as the harness asked for, the
/// teardown once, and nothing after it. The sample then reports the sum
/// of the measured times.
pub proof fn lemma_sample_order(iterations: u64, measured: Seq<u128>, number: nat)
    requires
        measured.len() == iterations,
        total_nanos(measured) <= MAX_ELAPSED_NANOS,
    ensures
        phase_at(iterations, measured, number).due(iterations) == call_at(iterations, number),
        number >= iterations + 2 ==> phase_at(iterations, measured, number) == (
        SamplePhase::Finished { elapsed: total_nanos(measured) as u128 }),
    decreases number,
{
    if number == 0 {
    } else if number <= iterations + 1 {
        lemma_running(iterations, measured, number);
    } else if number == iterations + 2 {
        lemma_running(iterations, measured, (number - 1) as nat);
        assert(measured.take(iterations as int) == measured);
    } else {
        lemma_sample_order(iterations, measured, (number - 1) as nat);
    }
}

/// A sample whose setup fails makes no other callback.
pub proof fn lemma_failed_setup_aborts(iterations: u64)
    ensures
        SamplePhase::Ready.after(iterations, SampleEvent::SetupFailed) == SamplePhase::Aborted,
        SamplePhase::Aborted.due(iterations) is None,
{
}

} // verus!
