use bench_matrix::lifecycle::{Call, Hooks, Notice, Outcome, Phase};
use bench_matrix::sample::{SampleCall, SampleEvent, SamplePhase, MAX_ELAPSED_NANOS};
use bench_matrix::suite::{
    names_mismatch, preflight, resolve_parameter_names, Preflight, Report, RunState, RunSummary,
    DEFAULT_SAMPLE_SIZE,
};

fn calls_of_one_combination(hooks: &Hooks, answers: &[bool]) -> (Vec<Call>, Vec<Notice>, Phase) {
    let mut phase = Phase::Pending;
    let mut calls = Vec::new();
    let mut notices = Vec::new();
    let mut k = 0;
    while let Some(call) = phase.next_call(hooks) {
        calls.push(call);
        let (next, notice) = phase.advance(hooks, answers[k]);
        if let Some(n) = notice {
            notices.push(n);
        }
        phase = next;
        k += 1;
    }
    (calls, notices, phase)
}

#[test]
fn lifecycle_with_both_hooks() {
    let hooks = Hooks { global_setup: true, global_teardown: true };
    let (calls, notices, phase) = calls_of_one_combination(&hooks, &[true; 4]);
    assert_eq!(
        calls,
        vec![Call::Extractor, Call::GlobalSetup, Call::Sampling, Call::GlobalTeardown]
    );
    assert!(notices.is_empty());
    assert_eq!(phase, Phase::GloballyTornDown);
    assert_eq!(phase.result(&hooks), Some(Outcome::Completed));
}

#[test]
fn lifecycle_without_hooks() {
    let hooks = Hooks { global_setup: false, global_teardown: false };
    let (calls, notices, phase) = calls_of_one_combination(&hooks, &[true; 4]);
    assert_eq!(calls, vec![Call::Extractor, Call::Sampling]);
    assert!(notices.is_empty());
    assert_eq!(phase, Phase::Sampled);
    assert_eq!(phase.result(&hooks), Some(Outcome::Completed));
    let only_setup = Hooks { global_setup: true, global_teardown: false };
    let (calls, _, _) = calls_of_one_combination(&only_setup, &[true; 4]);
    assert_eq!(calls, vec![Call::Extractor, Call::GlobalSetup, Call::Sampling]);
    let only_teardown = Hooks { global_setup: false, global_teardown: true };
    let (calls, _, _) = calls_of_one_combination(&only_teardown, &[true; 4]);
    assert_eq!(calls, vec![Call::Extractor, Call::Sampling, Call::GlobalTeardown]);
}

#[test]
fn failing_extractor_skips_the_combination() {
    let hooks = Hooks { global_setup: true, global_teardown: true };
    let (calls, notices, phase) = calls_of_one_combination(&hooks, &[false]);
    assert_eq!(calls, vec![Call::Extractor]);
    assert_eq!(notices, vec![Notice::ExtractionFailed]);
    assert_eq!(phase.result(&hooks), Some(Outcome::SkippedExtraction));
}

#[test]
fn failing_global_setup_is_compensated() {
    let hooks = Hooks { global_setup: true, global_teardown: true };
    let (calls, notices, phase) = calls_of_one_combination(&hooks, &[true, false, true]);
    assert_eq!(calls, vec![Call::Extractor, Call::GlobalSetup, Call::GlobalTeardown]);
    assert_eq!(notices, vec![Notice::GlobalSetupFailed]);
    assert_eq!(phase, Phase::Compensated);
    assert_eq!(phase.result(&hooks), Some(Outcome::SkippedGlobalSetup));

    let (calls, notices, phase) = calls_of_one_combination(&hooks, &[true, false, false]);
    assert_eq!(calls, vec![Call::Extractor, Call::GlobalSetup, Call::GlobalTeardown]);
    assert_eq!(notices, vec![Notice::GlobalSetupFailed, Notice::CompensationFailed]);
    assert_eq!(phase.result(&hooks), Some(Outcome::SkippedGlobalSetup));

    let no_teardown = Hooks { global_setup: true, global_teardown: false };
    let (calls, notices, phase) = calls_of_one_combination(&no_teardown, &[true, false]);
    assert_eq!(calls, vec![Call::Extractor, Call::GlobalSetup]);
    assert_eq!(notices, vec![Notice::GlobalSetupFailed]);
    assert_eq!(phase.result(&no_teardown), Some(Outcome::SkippedGlobalSetup));
}

#[test]
fn failing_global_teardown_is_only_a_warning() {
    let hooks = Hooks { global_setup: false, global_teardown: true };
    let (calls, notices, phase) = calls_of_one_combination(&hooks, &[true, true, false]);
    assert_eq!(calls, vec![Call::Extractor, Call::Sampling, Call::GlobalTeardown]);
    assert_eq!(notices, vec![Notice::GlobalTeardownFailed]);
    assert_eq!(phase.result(&hooks), Some(Outcome::Completed));
}

#[test]
fn failing_sample_setup_aborts() {
    let hooks = Hooks { global_setup: true, global_teardown: true };
    let (calls, notices, phase) = calls_of_one_combination(&hooks, &[true, true, false]);
    assert_eq!(calls, vec![Call::Extractor, Call::GlobalSetup, Call::Sampling]);
    assert_eq!(notices, vec![Notice::SampleSetupFailed]);
    assert_eq!(phase, Phase::Aborted);
    assert_eq!(phase.result(&hooks), Some(Outcome::Aborted));
    assert_eq!(Phase::Pending.result(&hooks), None);
}

#[test]
fn a_skip_does_not_block_the_neighbours() {
    let hooks = Hooks { global_setup: true, global_teardown: false };
    // Four combinations: the first runs, the extractor fails on the second,
    // the global setup fails on the third, the fourth runs.
    let answers = [true, true, true, false, true, false, true, true, true];
    let mut state = RunState::start(4);
    let mut seen = Vec::new();
    let mut k = 0;
    while let Some(call) = state.next_call(&hooks) {
        seen.push((state.index, call));
        let (next, _) = state.advance(&hooks, answers[k]);
        state = next;
        k += 1;
    }
    assert_eq!(
        seen,
        vec![
            (0, Call::Extractor),
            (0, Call::GlobalSetup),
            (0, Call::Sampling),
            (1, Call::Extractor),
            (2, Call::Extractor),
            (2, Call::GlobalSetup),
            (3, Call::Extractor),
            (3, Call::GlobalSetup),
            (3, Call::Sampling),
        ]
    );
    assert_eq!(state.index, 4);
    assert!(!state.aborted());
    assert_eq!(
        state.summary,
        RunSummary { attempted: 4, completed: 2, skipped_extraction: 1, skipped_global_setup: 1 }
    );
    assert_eq!(state.summary.report(), Report::Skips);
}

#[test]
fn an_abort_ends_the_run() {
    let hooks = Hooks { global_setup: false, global_teardown: false };
    let mut state = RunState::start(3);
    let (next, notice) = state.advance(&hooks, true);
    assert_eq!(notice, None);
    state = next;
    assert_eq!(state.next_call(&hooks), Some(Call::Sampling));
    let (next, notice) = state.advance(&hooks, false);
    assert_eq!(notice, Some(Notice::SampleSetupFailed));
    state = next;
    assert!(state.aborted());
    assert_eq!(state.next_call(&hooks), None);
    assert_eq!(state.index, 0);
    assert_eq!(state.summary.completed, 0);
}

#[test]
fn run_over_no_combinations_has_nothing_due() {
    let hooks = Hooks { global_setup: true, global_teardown: true };
    let state = RunState::start(0);
    assert_eq!(state.next_call(&hooks), None);
    assert_eq!(state.summary.report(), Report::Silent);
}

#[test]
fn report_tells_skips_before_runs() {
    let all = RunSummary { attempted: 3, completed: 3, skipped_extraction: 0, skipped_global_setup: 0 };
    assert_eq!(all.report(), Report::AllRun);
    let skipped = RunSummary { attempted: 3, completed: 2, skipped_extraction: 0, skipped_global_setup: 1 };
    assert_eq!(skipped.report(), Report::Skips);
    let extraction = RunSummary { attempted: 1, completed: 0, skipped_extraction: 1, skipped_global_setup: 0 };
    assert_eq!(extraction.report(), Report::Skips);
    let nothing = RunSummary { attempted: 0, completed: 0, skipped_extraction: 0, skipped_global_setup: 0 };
    assert_eq!(nothing.report(), Report::Silent);
}

#[test]
fn preflight_tells_why_nothing_runs() {
    assert_eq!(preflight(0, 0), Preflight::NoAxes);
    assert_eq!(preflight(3, 0), Preflight::NoCombinations);
    assert_eq!(preflight(3, 8), Preflight::Run);
    assert_eq!(DEFAULT_SAMPLE_SIZE, 10);
}

#[test]
fn parameter_names_need_one_name_per_axis() {
    let names = vec!["Backend".to_string(), "BlockSize".to_string()];
    assert_eq!(resolve_parameter_names(names.clone(), 2), Some(names.clone()));
    assert_eq!(resolve_parameter_names(names.clone(), 3), None);
    assert_eq!(resolve_parameter_names(vec![], 0), Some(vec![]));
    assert!(names_mismatch(&Some(names.clone()), 1));
    assert!(!names_mismatch(&Some(names), 2));
    assert!(!names_mismatch(&None, 2));
}

#[test]
fn sample_runs_setup_logic_teardown() {
    let iterations = 3u64;
    let measured = [5u128, 7, 11];
    let mut phase = SamplePhase::Ready;
    let mut calls = Vec::new();
    while let Some(call) = phase.next_call(iterations) {
        calls.push(call);
        let event = match (call, phase) {
            (SampleCall::Setup, _) => SampleEvent::SetupSucceeded,
            (SampleCall::Logic, SamplePhase::Running { done, .. }) => {
                SampleEvent::Measured(measured[done as usize])
            }
            (SampleCall::Teardown, _) => SampleEvent::TornDown,
            _ => unreachable!(),
        };
        assert!(phase.accepts_event(iterations, &event));
        phase = phase.advance(iterations, event);
    }
    assert_eq!(
        calls,
        vec![
            SampleCall::Setup,
            SampleCall::Logic,
            SampleCall::Logic,
            SampleCall::Logic,
            SampleCall::Teardown
        ]
    );
    assert_eq!(phase, SamplePhase::Finished { elapsed: 23 });
    assert_eq!(phase.total(), Some(23));
}

#[test]
fn sample_without_iterations_still_sets_up_and_tears_down() {
    let mut phase = SamplePhase::Ready;
    assert_eq!(phase.next_call(0), Some(SampleCall::Setup));
    phase = phase.advance(0, SampleEvent::SetupSucceeded);
    assert_eq!(phase.total(), None);
    assert_eq!(phase.next_call(0), Some(SampleCall::Teardown));
    phase = phase.advance(0, SampleEvent::TornDown);
    assert_eq!(phase.next_call(0), None);
    assert_eq!(phase.total(), Some(0));
}

#[test]
fn sample_with_failed_setup_is_aborted() {
    let phase = SamplePhase::Ready.advance(5, SampleEvent::SetupFailed);
    assert_eq!(phase, SamplePhase::Aborted);
    assert_eq!(phase.next_call(5), None);
    assert_eq!(phase.total(), None);
}

#[test]
fn sample_accepts_only_what_answers_the_due_call() {
    let ready = SamplePhase::Ready;
    assert!(ready.accepts_event(2, &SampleEvent::SetupSucceeded));
    assert!(ready.accepts_event(2, &SampleEvent::SetupFailed));
    assert!(!ready.accepts_event(2, &SampleEvent::Measured(1)));
    assert!(!ready.accepts_event(2, &SampleEvent::TornDown));
    let running = SamplePhase::Running { done: 1, elapsed: 10 };
    assert!(running.accepts_event(2, &SampleEvent::Measured(1)));
    assert!(!running.accepts_event(2, &SampleEvent::TornDown));
    assert!(!running.accepts_event(1, &SampleEvent::Measured(1)));
    assert!(running.accepts_event(1, &SampleEvent::TornDown));
    assert!(running.accepts_event(2, &SampleEvent::Measured(MAX_ELAPSED_NANOS - 10)));
    assert!(!running.accepts_event(2, &SampleEvent::Measured(MAX_ELAPSED_NANOS - 9)));
    assert!(!SamplePhase::Aborted.accepts_event(2, &SampleEvent::TornDown));
    assert_eq!(
        MAX_ELAPSED_NANOS,
        u64::MAX as u128 * 1_000_000_000 + 999_999_999
    );
}
